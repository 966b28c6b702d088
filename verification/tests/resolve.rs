use kukicha_zed::command::{binary_name, override_applies, resolve_command, LocateError};
use kukicha_zed::text::trim_str;

fn env_pairs() -> Vec<(String, String)> {
    vec![
        ("PATH".to_string(), "/usr/bin".to_string()),
        ("HOME".to_string(), "/home/user".to_string()),
    ]
}

#[test]
fn override_wins_and_is_trimmed() {
    let r = resolve_command(
        Some("  /opt/kukicha/bin/kukicha-lsp \n".to_string()),
        Some("/usr/bin/kukicha-lsp".to_string()),
        env_pairs(),
    )
    .unwrap();
    assert_eq!(r.command, "/opt/kukicha/bin/kukicha-lsp");
    assert!(r.args.is_empty());
    assert_eq!(r.env, env_pairs());
}

#[test]
fn override_wins_without_path_hit() {
    let r = resolve_command(Some("/custom/lsp".to_string()), None, Vec::new()).unwrap();
    assert_eq!(r.command, "/custom/lsp");
    assert!(r.args.is_empty());
    assert!(r.env.is_empty());
}

#[test]
fn blank_override_falls_back_to_path() {
    let r = resolve_command(
        Some(" \t\n".to_string()),
        Some("/usr/bin/kukicha-lsp".to_string()),
        env_pairs(),
    )
    .unwrap();
    assert_eq!(r.command, "/usr/bin/kukicha-lsp");
    assert!(r.args.is_empty());
    assert_eq!(r.env, env_pairs());
}

#[test]
fn no_override_uses_path() {
    let r = resolve_command(None, Some("/usr/local/bin/kukicha-lsp".to_string()), env_pairs())
        .unwrap();
    assert_eq!(r.command, "/usr/local/bin/kukicha-lsp");
}

#[test]
fn nothing_found_reports_not_found() {
    let e = resolve_command(None, None, env_pairs()).unwrap_err();
    assert_eq!(e, LocateError::NotFound);
    assert_eq!(
        e.message(),
        "kukicha-lsp not found. Set KUKICHA_LSP_PATH or install with: make install-lsp"
    );
}

#[test]
fn blank_override_and_nothing_found_reports_not_found() {
    let e = resolve_command(Some("   ".to_string()), None, env_pairs()).unwrap_err();
    assert_eq!(e, LocateError::NotFound);
}

#[test]
fn override_applies_decides_the_path_search() {
    assert!(override_applies(&Some(" /x ".to_string())));
    assert!(!override_applies(&Some("".to_string())));
    assert!(!override_applies(&Some(" \t ".to_string())));
    assert!(!override_applies(&None));
}

#[test]
fn binary_name_is_fixed() {
    assert_eq!(binary_name(), "kukicha-lsp");
}

#[test]
fn trim_removes_unicode_whitespace() {
    assert_eq!(trim_str("\u{3000}\u{2003}/bin/lsp\u{00A0}\r\n"), "/bin/lsp");
}

#[test]
fn trim_keeps_interior_whitespace() {
    assert_eq!(trim_str("  a b\tc  "), "a b\tc");
    assert_eq!(trim_str(""), "");
    assert_eq!(trim_str("x"), "x");
    assert_eq!(trim_str("   "), "");
}
