use dnotepadx::settings::{
    Settings, DEFAULT_FONT_SIZE_BITS, DEFAULT_WINDOW_HEIGHT_BITS, DEFAULT_WINDOW_WIDTH_BITS,
    MAX_RECENT_FILES,
};
use dnotepadx::theme::Theme;

#[test]
fn default_settings_values() {
    let s = Settings::default();
    assert_eq!(s.theme, Theme::default());
    assert_eq!(s.font_family, "Monospace");
    assert_eq!(s.font_size_bits, DEFAULT_FONT_SIZE_BITS);
    assert!(s.word_wrap);
    assert!(!s.auto_save);
    assert_eq!(s.tab_size, 4);
    assert_eq!(s.window_width_bits, DEFAULT_WINDOW_WIDTH_BITS);
    assert_eq!(s.window_height_bits, DEFAULT_WINDOW_HEIGHT_BITS);
    assert!(s.recent_files.is_empty());
}

#[test]
fn default_size_bits_are_the_expected_numbers() {
    assert_eq!(DEFAULT_FONT_SIZE_BITS, 14.0f32.to_bits());
    assert_eq!(DEFAULT_WINDOW_WIDTH_BITS, 1200.0f32.to_bits());
    assert_eq!(DEFAULT_WINDOW_HEIGHT_BITS, 800.0f32.to_bits());
}

fn settings_with_recent(paths: &[&str]) -> Settings {
    let mut s = Settings::default();
    s.recent_files = paths.iter().map(|p| p.to_string()).collect();
    s
}

#[test]
fn add_recent_file_prepends() {
    let mut s = settings_with_recent(&["a.txt", "b.txt"]);
    s.add_recent_file("c.txt".to_string());
    assert_eq!(s.recent_files, vec!["c.txt", "a.txt", "b.txt"]);
}

#[test]
fn add_recent_file_moves_existing_to_front() {
    let mut s = settings_with_recent(&["a.txt", "b.txt", "c.txt"]);
    s.add_recent_file("b.txt".to_string());
    assert_eq!(s.recent_files, vec!["b.txt", "a.txt", "c.txt"]);
}

#[test]
fn add_recent_file_is_idempotent() {
    let mut once = settings_with_recent(&["a", "b", "c", "d"]);
    once.add_recent_file("c".to_string());
    let mut twice = settings_with_recent(&["a", "b", "c", "d"]);
    twice.add_recent_file("c".to_string());
    twice.add_recent_file("c".to_string());
    assert_eq!(once.recent_files, twice.recent_files);
    assert_eq!(once.recent_files[0], "c");
}

#[test]
fn add_recent_file_caps_the_list() {
    let mut s = Settings::default();
    for i in 0..15 {
        s.add_recent_file(format!("file{}.txt", i));
    }
    assert_eq!(s.recent_files.len(), MAX_RECENT_FILES);
    assert_eq!(s.recent_files[0], "file14.txt");
    assert_eq!(s.recent_files[9], "file5.txt");
}

#[test]
fn add_recent_file_never_duplicates() {
    let mut s = Settings::default();
    for i in 0..12 {
        s.add_recent_file(format!("f{}", i % 4));
    }
    for i in 0..s.recent_files.len() {
        for j in 0..i {
            assert_ne!(s.recent_files[i], s.recent_files[j]);
        }
    }
    assert_eq!(s.recent_files.len(), 4);
}

#[test]
fn add_recent_file_keeps_other_fields() {
    let mut s = Settings::default();
    s.font_family = "Fira Code".to_string();
    s.tab_size = 8;
    s.add_recent_file("x".to_string());
    assert_eq!(s.font_family, "Fira Code");
    assert_eq!(s.tab_size, 8);
    assert_eq!(s.theme, Theme::default());
}

#[test]
fn remove_recent_file_drops_every_occurrence() {
    let mut s = settings_with_recent(&["a", "b", "a", "c"]);
    s.remove_recent_file(&"a".to_string());
    assert_eq!(s.recent_files, vec!["b", "c"]);
}

#[test]
fn remove_recent_file_of_absent_path_changes_nothing() {
    let mut s = settings_with_recent(&["a", "b"]);
    s.remove_recent_file(&"z".to_string());
    assert_eq!(s.recent_files, vec!["a", "b"]);
}
