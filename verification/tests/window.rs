use percents::window::{is_active, is_cloaked, is_listed, is_shell_window, WindowStatus};

fn normal() -> WindowStatus {
    WindowStatus { visible: true, minimized: false, maximized: false, owned: false, cloaked: false }
}

#[test]
fn plain_visible_window_is_active() {
    assert!(is_active(normal()));
}

#[test]
fn hidden_or_special_windows_are_not_active() {
    assert!(!is_active(WindowStatus { visible: false, ..normal() }));
    assert!(!is_active(WindowStatus { minimized: true, ..normal() }));
    assert!(!is_active(WindowStatus { maximized: true, ..normal() }));
    assert!(!is_active(WindowStatus { owned: true, ..normal() }));
    assert!(!is_active(WindowStatus { cloaked: true, ..normal() }));
}

#[test]
fn cloaked_attribute() {
    assert!(is_cloaked(true, 1));
    assert!(is_cloaked(true, 2));
    assert!(!is_cloaked(true, 0));
    assert!(!is_cloaked(false, 1));
    assert!(!is_cloaked(false, 0));
}

#[test]
fn untitled_windows_are_not_listed() {
    assert!(!is_listed("", None));
    assert!(!is_listed("", Some("notepad.exe")));
}

#[test]
fn desktop_shell_is_not_listed_in_any_case() {
    assert!(!is_listed("Program Manager", Some("explorer.exe")));
    assert!(!is_listed("Program Manager", Some("EXPLORER.EXE")));
    assert!(!is_listed("Program Manager", Some("Explorer.Exe")));
}

#[test]
fn other_windows_are_listed() {
    assert!(is_listed("Program Manager", None));
    assert!(is_listed("Program Manager", Some("notepad.exe")));
    assert!(is_listed("program manager", Some("explorer.exe")));
    assert!(is_listed("Untitled - Notepad", Some("explorer.exe")));
    assert!(is_listed("File Explorer", Some("EXPLORER.EXE")));
}

#[test]
fn shell_window_wants_lowercase_name() {
    assert!(is_shell_window("Program Manager", Some("explorer.exe")));
    assert!(!is_shell_window("Program Manager", Some("EXPLORER.EXE")));
    assert!(!is_shell_window("Program Manager", None));
    assert!(!is_shell_window("Program Manager ", Some("explorer.exe")));
}
