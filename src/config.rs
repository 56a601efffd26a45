use vstd::prelude::*;

verus! {

/// A persisted HTTP request.
#[derive(Debug, Clone)]
pub struct HTTPRequest {
    pub name: String,
    pub url: String,
    pub body: String,
    pub method: String,
}

/// The requests listed in the side panel.
#[derive(Debug, Clone)]
pub struct LocalRequests {
    pub requests: Vec<HTTPRequest>,
}

/// A keybinding override as configuration writes it: a key name (`"b"`,
/// `"Enter"`), modifier names (`"Control"`), a command name and a mode name.
#[derive(Debug, Clone)]
pub struct KeybindingConfig {
    pub key: String,
    pub modifiers: Vec<String>,
    pub command: String,
    pub mode: String,
}

/// Everything the configuration supplies: requests, keybinding overrides and
/// whether vim emulation is on.
#[derive(Debug, Clone)]
pub struct BlinkConfig {
    pub local_requests: LocalRequests,
    pub keybindings: Vec<KeybindingConfig>,
    pub vim_mode: bool,
}

/// The mode name of an override that names none.
pub fn default_mode() -> (r: String)
    ensures
        r@ == "any"@,
{
    "any".to_string()
}

/// Vim emulation is on unless configuration turns it off.
pub fn default_true() -> (r: bool)
    ensures
        r,
{
    true
}

} // verus!
