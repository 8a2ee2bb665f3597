use perl_module::config::{ModuleConfig, Style};
use perl_module::context::{contains_text, file_extension, Context};
use perl_module::module::Module;
use perl_module::perl::{finish, module, perl_criteria, probe, version_command, PerlConfig, ToolCommand};
use perl_module::probe::ProbeCriteria;
use perl_module::version::{format_perl_version, is_white_space, trim_output};
use std::cell::Cell;

fn context_of(names: &[&str]) -> Context {
    Context::new(names.iter().map(|n| n.to_string()).collect(), ModuleConfig::empty())
}

fn perl_stub(_c: ToolCommand) -> Option<String> {
    Some("5.30.0".to_string())
}

fn render(context: &Context) -> Option<String> {
    module(context, perl_stub).map(|m| m.text())
}

fn camel_style() -> Style {
    Style { foreground: Some(149), bold: true }
}

#[test]
fn test_format_perl_version() {
    let input = "5.30.0";
    assert_eq!(format_perl_version(input), Some("v5.30.0".to_string()));
}

#[test]
fn folder_without_perl_files() {
    let actual = render(&context_of(&[]));
    let expected = None;
    assert_eq!(expected, actual);
}

#[test]
fn folder_with_cpanfile_file() {
    let context = context_of(&["cpanfile"]);
    let m = module(&context, perl_stub).unwrap();
    assert_eq!(m.style(), camel_style());
    assert_eq!(Some(m.text()), Some("🐪 v5.30.0".to_string()));
}

#[test]
fn folder_with_perl_version() {
    let context = context_of(&[".perl-version"]);
    let m = module(&context, perl_stub).unwrap();
    assert_eq!(m.style(), camel_style());
    assert_eq!(Some(m.text()), Some("🐪 v5.30.0".to_string()));
}

#[test]
fn folder_with_perl_file() {
    let context = context_of(&["any.pl"]);
    let m = module(&context, perl_stub).unwrap();
    assert_eq!(m.style(), camel_style());
    assert_eq!(Some(m.text()), Some("🐪 v5.30.0".to_string()));
}

#[test]
fn module_segments_are_symbol_then_version() {
    let m = module(&context_of(&["cpanfile"]), perl_stub).unwrap();
    assert_eq!(m.name(), "perl");
    let segments: Vec<(String, String)> =
        m.segments().iter().map(|s| (s.name().clone(), s.text().clone())).collect();
    assert_eq!(
        segments,
        vec![
            ("symbol".to_string(), "🐪 ".to_string()),
            ("version".to_string(), "v5.30.0".to_string()),
        ]
    );
}

#[test]
fn folder_with_perl_module_file() {
    assert_eq!(render(&context_of(&["Lib.pm"])), Some("🐪 v5.30.0".to_string()));
}

#[test]
fn folder_with_other_markers() {
    for name in ["Makefile.PL", "META.json", "META.yml"] {
        assert_eq!(render(&context_of(&[name])), Some("🐪 v5.30.0".to_string()));
    }
}

#[test]
fn folder_with_unrelated_files() {
    let context = context_of(&["README.md", "pl", "cpanfile.bak", "Makefile", "x.PL", "perl"]);
    assert_eq!(render(&context), None);
}

#[test]
fn probe_miss_never_runs_the_tool() {
    let calls = Cell::new(0u32);
    let context = context_of(&["main.rs", "Cargo.toml"]);
    let r = module(&context, |_c: ToolCommand| {
        calls.set(calls.get() + 1);
        Some("5.30.0".to_string())
    });
    assert!(r.is_none());
    assert_eq!(calls.get(), 0);
    assert!(probe(&context).is_none());
}

#[test]
fn probe_hit_runs_the_version_command_once() {
    let calls = Cell::new(0u32);
    let context = context_of(&["cpanfile"]);
    let r = module(&context, |c: ToolCommand| {
        calls.set(calls.get() + 1);
        assert_eq!(c.program, "perl");
        assert_eq!(c.args, vec!["-e".to_string(), "print substr($^V, 1);".to_string()]);
        Some("5.30.0".to_string())
    });
    assert!(r.is_some());
    assert_eq!(calls.get(), 1);
}

#[test]
fn folder_with_cpanfile_but_tool_fails() {
    let context = context_of(&["cpanfile"]);
    assert!(module(&context, |_c: ToolCommand| None).is_none());
    assert!(finish(&context, None).is_none());
}

#[test]
fn probe_is_monotonic_on_concrete_listings() {
    let small = context_of(&["any.pl"]);
    let large = context_of(&["README.md", "any.pl", "src"]);
    assert!(probe(&small).is_some());
    assert!(probe(&large).is_some());
}

#[test]
fn empty_criteria_never_match() {
    let criteria = ProbeCriteria { files: vec![], extensions: vec![] };
    assert!(!criteria.matches(&context_of(&["cpanfile", "any.pl"])));
    assert!(perl_criteria().matches(&context_of(&["any.pl"])));
}

#[test]
fn has_any_file_and_extension() {
    let context = context_of(&["a.txt", "b.rs"]);
    assert!(context.has_any_file(&vec!["x".to_string(), "b.rs".to_string()]));
    assert!(!context.has_any_file(&vec!["B.rs".to_string()]));
    assert!(context.has_any_extension(&vec!["rs".to_string()]));
    assert!(!context.has_any_extension(&vec!["RS".to_string(), "b".to_string()]));
}

#[test]
fn extensions_follow_the_last_dot() {
    assert_eq!(file_extension("any.pl"), Some("pl".to_string()));
    assert_eq!(file_extension("a.tar.gz"), Some("gz".to_string()));
    assert_eq!(file_extension("trailing."), Some("".to_string()));
    assert_eq!(file_extension(".perl-version"), None);
    assert_eq!(file_extension("cpanfile"), None);
    assert_eq!(file_extension(".."), None);
    assert_eq!(file_extension(".hidden.pm"), Some("pm".to_string()));
}

#[test]
fn tool_output_is_trimmed() {
    let context = context_of(&["cpanfile"]);
    let m = finish(&context, Some("  5.30.0\n".to_string())).unwrap();
    assert_eq!(m.text(), "🐪 v5.30.0");
    assert_eq!(trim_output("\t\u{3000} 5.36.1 \r\n"), "5.36.1");
    assert_eq!(trim_output(" \n "), "");
    assert_eq!(trim_output(""), "");
    assert_eq!(trim_output("a b"), "a b");
}

#[test]
fn white_space_matches_std() {
    for c in ['\t', '\n', ' ', '\u{85}', '\u{a0}', '\u{2003}', '\u{3000}', 'a', '5', '\u{200b}', '\u{180e}'] {
        assert_eq!(is_white_space(c), c.is_whitespace());
    }
}

#[test]
fn format_marks_empty_and_other_text() {
    assert_eq!(format_perl_version(""), Some("v".to_string()));
    assert_eq!(format_perl_version("v5"), Some("vv5".to_string()));
}

#[test]
fn user_config_overrides_defaults() {
    let config = ModuleConfig {
        symbol: Some("perl ".to_string()),
        style: Some(Style { foreground: Some(12), bold: false }),
    };
    let context = Context::new(vec!["cpanfile".to_string()], config);
    let m = module(&context, perl_stub).unwrap();
    assert_eq!(m.text(), "perl v5.30.0");
    assert_eq!(m.style(), Style { foreground: Some(12), bold: false });
    let loaded = PerlConfig::load(&ModuleConfig::empty());
    assert_eq!(loaded.symbol, "🐪 ");
    assert_eq!(loaded.style, camel_style());
}

#[test]
fn module_building_keeps_order() {
    let mut m = Module::new("x");
    m.create_segment("a", "1");
    m.set_style(Style { foreground: None, bold: true });
    m.create_segment("b", "2");
    assert_eq!(m.text(), "12");
    assert!(m.style().bold);
    assert_eq!(version_command().program, "perl");
    assert!(contains_text(&vec!["a".to_string()], &"a".to_string()));
}
