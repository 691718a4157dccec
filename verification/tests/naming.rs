use editor_core::text::{contains_bytes, ends_with, window_display_name};
use editor_core::windows::{AssetsWindow, InspectorWindow, ResourcesWindow};

#[test]
fn full_type_path_yields_short_name() {
    let name = window_display_name(&b"bevy_editor_pls_default_windows::assets::AssetsWindow".to_vec());
    assert_eq!(name, b"Assets".to_vec());
}

#[test]
fn bare_type_name_loses_window_suffix() {
    assert_eq!(window_display_name(&b"CameraWindow".to_vec()), b"Camera".to_vec());
}

#[test]
fn repeated_window_suffix_is_stripped_whole() {
    assert_eq!(window_display_name(&b"FooWindowWindow".to_vec()), b"Foo".to_vec());
}

#[test]
fn trailing_separator_is_stripped() {
    assert_eq!(window_display_name(&b"widgets::Foo::".to_vec()), b"Foo".to_vec());
}

#[test]
fn name_without_suffix_is_kept() {
    assert_eq!(window_display_name(&b"hierarchy::Hierarchy".to_vec()), b"Hierarchy".to_vec());
}

#[test]
fn type_named_window_alone_becomes_empty() {
    assert_eq!(window_display_name(&b"Window".to_vec()), b"".to_vec());
}

#[test]
fn empty_path_stays_empty() {
    assert_eq!(window_display_name(&b"".to_vec()), b"".to_vec());
}

#[test]
fn marker_titles_match_their_type_names() {
    assert_eq!(AssetsWindow.title(), "Assets");
    assert_eq!(InspectorWindow.title(), "Inspector");
    assert_eq!(ResourcesWindow.title(), "Resources");
    assert_eq!(
        window_display_name(&b"editor_core::windows::AssetsWindow".to_vec()),
        AssetsWindow.title().as_bytes().to_vec()
    );
    assert_eq!(
        window_display_name(&b"editor_core::windows::InspectorWindow".to_vec()),
        InspectorWindow.title().as_bytes().to_vec()
    );
    assert_eq!(
        window_display_name(&b"editor_core::windows::ResourcesWindow".to_vec()),
        ResourcesWindow.title().as_bytes().to_vec()
    );
}

#[test]
fn contains_bytes_finds_inner_needle() {
    assert!(contains_bytes(&b"usr/lib/code --serve".to_vec(), &b"code".to_vec()));
    assert!(!contains_bytes(&b"usr/lib/vim".to_vec(), &b"code".to_vec()));
    assert!(contains_bytes(&b"anything".to_vec(), &b"".to_vec()));
    assert!(!contains_bytes(&b"ab".to_vec(), &b"abc".to_vec()));
}

#[test]
fn ends_with_checks_the_tail() {
    assert!(ends_with(&b"AssetsWindow".to_vec(), &b"Window".to_vec()));
    assert!(!ends_with(&b"Windows".to_vec(), &b"Window".to_vec()));
    assert!(ends_with(&b"x".to_vec(), &b"".to_vec()));
}
