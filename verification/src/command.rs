//! The launch-command resolution rule for the `kukicha-lsp` binary.
//!
//! Given the value of the `KUKICHA_LSP_PATH` override variable and the result
//! of searching the worktree's `PATH`, the rule picks the executable the
//! editor should spawn: the trimmed override when it is non-empty, else the
//! located binary, else a descriptive error.

use vstd::prelude::*;

use crate::text::trimmed;

verus! {

/// The command descriptor handed back to the editor: an executable path, an
/// argument list, and the environment the spawned process inherits.
#[derive(Clone, Debug)]
pub struct LaunchCommand {
    pub command: String,
    pub args: Vec<String>,
    pub env: Vec<(String, String)>,
}

/// The one failure mode: the language-server binary could not be located.
#[derive(Clone, Copy, Debug, PartialEq, Eq, Structural)]
pub enum LocateError {
    NotFound,
}

/// The name of the language-server binary searched for on the `PATH`.
pub open spec fn binary_name_text() -> Seq<char> {
    "kukicha-lsp"@
}

/// The message shown to the user when the binary cannot be located.
pub open spec fn not_found_text() -> Seq<char> {
    "kukicha-lsp not found. Set KUKICHA_LSP_PATH or install with: make install-lsp"@
}

/// The override variable selects the command exactly when it is set and its
/// value is non-empty after trimming.
pub open spec fn override_selects(override_var: Option<Seq<char>>) -> bool {
    override_var matches Some(s) && trimmed(s).len() > 0
}

/// The executable the resolution rule picks, if any: the trimmed override
/// value when the override selects, otherwise whatever the `PATH` search
/// found.
pub open spec fn chosen_command(
    override_var: Option<Seq<char>>,
    located: Option<Seq<char>>,
) -> Option<Seq<char>> {
    match override_var {
        Some(s) => if trimmed(s).len() > 0 {
            Some(trimmed(s))
        } else {
            located
        },
        None => located,
    }
}

impl LocateError {
    /// The descriptive message for this error, telling the user how to
    /// install the missing binary.
    pub fn message(&self) -> (r: String)
        ensures
            r@ == not_found_text(),
    {
        String::from_str("kukicha-lsp not found. Set KUKICHA_LSP_PATH or install with: make install-lsp")
    }
}

/// The name of the language-server binary, for the `PATH` search.
pub fn binary_name() -> (r: String)
    ensures
        r@ == binary_name_text(),
{
    String::from_str("kukicha-lsp")
}

/// Decides whether the override variable selects the command, so that a
/// caller can skip the `PATH` search when it does.
pub fn override_applies(override_var: &Option<String>) -> (r: bool)
    ensures
        r == override_selects(override_var.deep_view()),
{
    match override_var {
        Some(s) => {
            let t = crate::text::trim_str(s.as_str());
            t.as_str().unicode_len() > 0
        },
        None => false,
    }
}

/// Resolves the launch command from the override variable's value, the result
/// of the `PATH` search, and the shell environment the spawned server should
/// inherit.
///
/// The trimmed override wins when it is non-empty; otherwise the located
/// binary is used as it stands; when neither is available, the error carries
/// the installation hint. On success the argument list is empty and the
/// environment is passed through unchanged.
pub fn resolve_command(
    override_var: Option<String>,
    located: Option<String>,
    shell_env: Vec<(String, String)>,
) -> (r: Result<LaunchCommand, LocateError>)
    ensures
        r matches Ok(c) ==> {
            &&& chosen_command(override_var.deep_view(), located.deep_view()) matches Some(cmd)
                && c.command@ == cmd
            &&& c.args@.len() == 0
            &&& c.env == shell_env
        },
        r is Err <==> chosen_command(override_var.deep_view(), located.deep_view()) is None,
        r matches Err(e) ==> e == LocateError::NotFound,
{
    if let Some(s) = override_var {
        let t = crate::text::trim_str(s.as_str());
        if t.as_str().unicode_len() > 0 {
            return Ok(LaunchCommand { command: t, args: Vec::new(), env: shell_env });
        }
    }
    match located {
        Some(p) => Ok(LaunchCommand { command: p, args: Vec::new(), env: shell_env }),
        None => Err(LocateError::NotFound),
    }
}

} // verus!
