use vstd::prelude::*;

verus! {

/// How a module's text is shown: an optional fixed (256-colour) foreground,
/// and whether it is bold.
#[derive(Clone, Copy, Debug, PartialEq, Eq, Structural)]
pub struct Style {
    pub foreground: Option<u8>,
    pub bold: bool,
}

/// What the user set for a module; an unset field takes the module's default.
#[derive(Debug)]
pub struct ModuleConfig {
    pub symbol: Option<String>,
    pub style: Option<Style>,
}

impl ModuleConfig {
    /// A configuration that sets nothing.
    pub fn empty() -> (r: ModuleConfig)
        ensures
            r.symbol.is_none(),
            r.style.is_none(),
    {
        ModuleConfig { symbol: None, style: None }
    }
}

} // verus!
