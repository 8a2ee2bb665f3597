use vstd::prelude::*;
use crate::config::{ModuleConfig, Style};
use crate::context::{opt_text, texts, Context};
use crate::module::{Module, ModuleView};
use crate::probe::{listing_matches, ProbeCriteria};
use crate::version::{format_perl_version, formatted_version, trim_output, trimmed};

verus! {

/// The files whose presence marks a Perl project.
pub open spec fn perl_files() -> Seq<Seq<char>> {
    seq!["Makefile.PL"@, "cpanfile"@, "META.json"@, "META.yml"@, ".perl-version"@]
}

/// The extensions of Perl sources.
pub open spec fn perl_extensions() -> Seq<Seq<char>> {
    seq!["pl"@, "pm"@]
}

/// Whether the directory of `context` is a Perl project.
pub open spec fn is_perl_project(context: &Context) -> bool {
    listing_matches(context.names(), perl_files(), perl_extensions())
}

/// The criteria of a Perl project.
pub fn perl_criteria() -> (r: ProbeCriteria)
    ensures
        texts(r.files@) == perl_files(),
        texts(r.extensions@) == perl_extensions(),
{
    let mut files: Vec<String> = Vec::new();
    files.push(String::from_str("Makefile.PL"));
    files.push(String::from_str("cpanfile"));
    files.push(String::from_str("META.json"));
    files.push(String::from_str("META.yml"));
    files.push(String::from_str(".perl-version"));
    let mut extensions: Vec<String> = Vec::new();
    extensions.push(String::from_str("pl"));
    extensions.push(String::from_str("pm"));
    assert(texts(files@) =~= perl_files());
    assert(texts(extensions@) =~= perl_extensions());
    ProbeCriteria { files, extensions }
}

/// A program to run, with its arguments.
pub struct ToolCommand {
    pub program: String,
    pub args: Vec<String>,
}

/// Whether `c` asks `perl` for its version, printed without the leading `v`.
pub open spec fn is_version_command(c: ToolCommand) -> bool {
    &&& c.program@ == "perl"@
    &&& texts(c.args@) == seq!["-e"@, "print substr($^V, 1);"@]
}

/// The command that prints the installed Perl's version.
pub fn version_command() -> (r: ToolCommand)
    ensures
        is_version_command(r),
{
    let mut args: Vec<String> = Vec::new();
    args.push(String::from_str("-e"));
    args.push(String::from_str("print substr($^V, 1);"));
    assert(texts(args@) =~= seq!["-e"@, "print substr($^V, 1);"@]);
    ToolCommand { program: String::from_str("perl"), args }
}

/// The symbol shown when the user sets none.
pub open spec fn default_symbol() -> Seq<char> {
    "🐪 "@
}

/// The style used when the user sets none: bold, in colour 149.
pub open spec fn default_style() -> Style {
    Style { foreground: Some(149), bold: true }
}

/// The symbol that `config` gives.
pub open spec fn configured_symbol(config: ModuleConfig) -> Seq<char> {
    match config.symbol {
        Some(s) => s@,
        None => default_symbol(),
    }
}

/// The style that `config` gives.
pub open spec fn configured_style(config: ModuleConfig) -> Style {
    match config.style {
        Some(s) => s,
        None => default_style(),
    }
}

/// The Perl module's settings, with the defaults filled in.
pub struct PerlConfig {
    pub symbol: String,
    pub style: Style,
}

impl PerlConfig {
    /// Takes what the user set, and the default for the rest.
    pub fn load(config: &ModuleConfig) -> (r: PerlConfig)
        ensures
            r.symbol@ == configured_symbol(*config),
            r.style == configured_style(*config),
    {
        let symbol = match &config.symbol {
            Some(s) => s.clone(),
            None => String::from_str("🐪 "),
        };
        let style = match config.style {
            Some(s) => s,
            None => Style { foreground: Some(149), bold: true },
        };
        PerlConfig { symbol, style }
    }
}

/// Whether `m` is the Perl module showing `version`, styled as `config` says:
/// the symbol, then the version.
pub open spec fn is_perl_module(m: ModuleView, config: ModuleConfig, version: Seq<char>) -> bool {
    &&& m.name == "perl"@
    &&& m.style == configured_style(config)
    &&& m.segments == seq![("symbol"@, configured_symbol(config)), ("version"@, version)]
}

/// What the evaluation gives once the version tool has answered with `output`
/// (`None` where it could not be run or failed): no module on a failure, else
/// the module showing the trimmed output as a version.
pub open spec fn finished(config: ModuleConfig, output: Option<Seq<char>>, r: Option<Module>) -> bool {
    match output {
        None => r is None,
        Some(o) => r matches Some(m) && is_perl_module(m@, config, formatted_version(trimmed(o))),
    }
}

/// The first step of an evaluation: probes the directory, and asks for the
/// version command to be run only where it holds a Perl project.
pub fn probe(context: &Context) -> (r: Option<ToolCommand>)
    ensures
        r.is_some() == is_perl_project(context),
        r matches Some(c) ==> is_version_command(c),
{
    let criteria = perl_criteria();
    if criteria.matches(context) {
        Some(version_command())
    } else {
        None
    }
}

/// The last step of an evaluation: given what the version command printed,
/// or `None` where it failed, builds the module or gives none.
pub fn finish(context: &Context, output: Option<String>) -> (r: Option<Module>)
    ensures
        finished(context.config_spec(), opt_text(output), r),
        output is None ==> r is None,
{
    let raw = match output {
        Some(o) => o,
        None => return None,
    };
    let perl_version = trim_output(raw.as_str());
    let formatted = match format_perl_version(perl_version.as_str()) {
        Some(v) => v,
        None => return None,
    };
    let mut module = Module::new("perl");
    let config = PerlConfig::load(context.config());
    module.set_style(config.style);
    module.create_segment("symbol", config.symbol.as_str());
    module.create_segment("version", formatted.as_str());
    assert(module@.segments =~= seq![
        ("symbol"@, configured_symbol(context.config_spec())),
        ("version"@, formatted_version(trimmed(raw@))),
    ]);
    Some(module)
}

/// Evaluates the Perl module for the directory of `context`. `run` runs a
/// command and gives what it printed, or `None` where it could not be run or
/// failed; it is called only where the directory holds a Perl project, and
/// then once, with the version command.
pub fn module<F: FnOnce(ToolCommand) -> Option<String>>(context: &Context, run: F) -> (r: Option<
    Module,
>)
    requires
        forall|c: ToolCommand| is_version_command(c) ==> #[trigger] run.requires((c,)),
    ensures
        !is_perl_project(context) ==> r is None,
        (forall|c: ToolCommand, out: Option<String>|
            #[trigger] run.ensures((c,), out) ==> out is None) ==> r is None,
        is_perl_project(context) ==> exists|c: ToolCommand, out: Option<String>|
            is_version_command(c) && #[trigger] run.ensures((c,), out) && finished(
                context.config_spec(),
                opt_text(out),
                r,
            ),
{
    let command = match probe(context) {
        Some(c) => c,
        None => return None,
    };
    let ghost c = command;
    let out = run(command);
    let r = finish(context, out);
    assert(is_version_command(c) && run.ensures((c,), out) && finished(
        context.config_spec(),
        opt_text(out),
        r,
    ));
    r
}

} // verus!
