//! Resolution of the launch command for the `kukicha-lsp` language server.
//!
//! The library decides, from plain values handed in by the editor shim, which
//! executable the editor should spawn: an explicit override taken from the
//! `KUKICHA_LSP_PATH` environment variable wins when its trimmed value is
//! non-empty; otherwise the binary found on the worktree's `PATH` is used; and
//! when neither is available, a descriptive error tells the user how to
//! install the binary.

pub mod command;
pub mod text;

