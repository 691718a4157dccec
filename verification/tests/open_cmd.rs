use editor_core::open::{
    cargo_home_dir, first_existing, goto_argument, is_vscode_running, line_indicates_vscode,
    open_file_at_line, open_in_editor, push_component, resolve_source_path, u32_decimal,
    OpenCommand, OpenError,
};

#[test]
fn record_without_file_is_rejected() {
    assert_eq!(open_file_at_line(None, Some(3)), Err(OpenError::NoFileInfo));
}

#[test]
fn record_without_line_opens_line_one() {
    let t = open_file_at_line(Some(b"src/lib.rs".to_vec()), None).unwrap();
    assert_eq!(t.file, b"src/lib.rs".to_vec());
    assert_eq!(t.line, 1);
}

#[test]
fn record_with_line_keeps_it() {
    let t = open_file_at_line(Some(b"src/main.rs".to_vec()), Some(42)).unwrap();
    assert_eq!(t.file, b"src/main.rs".to_vec());
    assert_eq!(t.line, 42);
}

#[test]
fn decimal_rendering_is_exact() {
    assert_eq!(u32_decimal(0), b"0".to_vec());
    assert_eq!(u32_decimal(7), b"7".to_vec());
    assert_eq!(u32_decimal(40), b"40".to_vec());
    assert_eq!(u32_decimal(1080), b"1080".to_vec());
    assert_eq!(u32_decimal(u32::MAX), b"4294967295".to_vec());
}

#[test]
fn goto_argument_joins_path_and_line() {
    assert_eq!(goto_argument(&b"src/lib.rs".to_vec(), 42), b"src/lib.rs:42".to_vec());
}

#[test]
fn running_editor_gets_a_goto_command() {
    let cmd = open_in_editor(&b"a.rs".to_vec(), 7, true);
    assert_eq!(cmd, OpenCommand::CodeGoto(b"a.rs:7".to_vec()));
}

#[test]
fn no_editor_means_the_system_opener() {
    assert_eq!(open_in_editor(&b"a.rs".to_vec(), 7, false), OpenCommand::SystemOpen);
}

#[test]
fn absolute_paths_resolve_to_themselves() {
    let r = resolve_source_path(&b"/abs/x.rs".to_vec(), true, None, None);
    assert_eq!(r, Some(b"/abs/x.rs".to_vec()));
}

#[test]
fn canonicalization_beats_the_registry() {
    let r = resolve_source_path(
        &b"x.rs".to_vec(),
        false,
        Some(b"/cwd/x.rs".to_vec()),
        Some(b"/reg/x.rs".to_vec()),
    );
    assert_eq!(r, Some(b"/cwd/x.rs".to_vec()));
}

#[test]
fn registry_hit_is_the_last_resort() {
    let r = resolve_source_path(&b"x.rs".to_vec(), false, None, Some(b"/reg/x.rs".to_vec()));
    assert_eq!(r, Some(b"/reg/x.rs".to_vec()));
    assert_eq!(resolve_source_path(&b"x.rs".to_vec(), false, None, None), None);
}

#[test]
fn cargo_home_prefers_the_environment() {
    assert_eq!(
        cargo_home_dir(Some(b"/custom".to_vec()), Some(b"/home/u".to_vec())),
        Some(b"/custom".to_vec())
    );
    assert_eq!(cargo_home_dir(None, Some(b"/home/u".to_vec())), Some(b"/home/u/.cargo".to_vec()));
    assert_eq!(cargo_home_dir(None, None), None);
}

#[test]
fn push_component_inserts_a_separator() {
    assert_eq!(push_component(&b"/a".to_vec(), &b"b".to_vec()), b"/a/b".to_vec());
}

#[test]
fn first_existing_picks_the_earliest_hit() {
    let cands = vec![
        (b"/r1/x.rs".to_vec(), false),
        (b"/r2/x.rs".to_vec(), true),
        (b"/r3/x.rs".to_vec(), true),
    ];
    assert_eq!(first_existing(&cands), Some(1));
    let none = vec![(b"/r1/x.rs".to_vec(), false)];
    assert_eq!(first_existing(&none), None);
    assert_eq!(first_existing(&vec![]), None);
}

#[test]
fn code_lines_are_recognized() {
    assert!(line_indicates_vscode(&b"user  123  /usr/bin/code --x".to_vec()));
    assert!(!line_indicates_vscode(&b"user  124  /usr/bin/code-helper".to_vec()));
    assert!(!line_indicates_vscode(&b"user  125  /usr/bin/vim".to_vec()));
}

#[test]
fn process_table_scan_finds_one_editor_line() {
    let lines = vec![
        b"root 1 /sbin/init".to_vec(),
        b"user 2 /usr/bin/code".to_vec(),
    ];
    assert!(is_vscode_running(&lines));
    let helper_only = vec![b"user 2 /usr/bin/code-helper".to_vec()];
    assert!(!is_vscode_running(&helper_only));
    assert!(!is_vscode_running(&vec![]));
}
