use headset_battery::text::{contains_text, same_text, trimmed};
use headset_battery::ui::{menu_command, toggle_window, MenuCommand, WindowToggle};

#[test]
fn menu_commands() {
    assert_eq!(menu_command("show_hide"), Some(MenuCommand::ShowHide));
    assert_eq!(menu_command("refresh"), Some(MenuCommand::Refresh));
    assert_eq!(menu_command("diagnostics"), Some(MenuCommand::Diagnostics));
    assert_eq!(menu_command("quit"), Some(MenuCommand::Quit));
    assert_eq!(menu_command("Quit"), None);
    assert_eq!(menu_command(""), None);
    assert_eq!(menu_command("refresh "), None);
}

#[test]
fn toggling() {
    assert_eq!(toggle_window(Some(true)), WindowToggle::Hide);
    assert_eq!(toggle_window(None), WindowToggle::Hide);
    assert_eq!(toggle_window(Some(false)), WindowToggle::ShowAndFocus);
}

#[test]
fn text_helpers() {
    assert!(contains_text("HYPERX CLOUD II CORE", "CLOUD II"));
    assert!(contains_text("abc", ""));
    assert!(!contains_text("ab", "abc"));
    assert!(!contains_text("CLOUD I I", "CLOUD II"));
    assert!(same_text("héllo", "héllo"));
    assert!(!same_text("a", "ab"));
    let cs: Vec<char> = " \u{00A0}x y\u{2029}\n".chars().collect();
    assert_eq!(trimmed(&cs), "x y");
    let all_space: Vec<char> = " \t ".chars().collect();
    assert_eq!(trimmed(&all_space), "");
    for s in ["  a b  ", "\u{1680}q\u{205F}", "", "x"] {
        let cs: Vec<char> = s.chars().collect();
        assert_eq!(trimmed(&cs), s.trim());
    }
}
