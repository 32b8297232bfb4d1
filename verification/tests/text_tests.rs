use tlmd::system::SystemAction;
use tlmd::text::{chars_of, contains_chars, name_matches, repeat, string_from_chars, to_lowercase};

#[test]
fn substring_search() {
    assert!(name_matches("alice", "lic"));
    assert!(name_matches("alice", ""));
    assert!(name_matches("alice", "alice"));
    assert!(!name_matches("al", "alice"));
    assert!(!name_matches("alice", "ice!"));
    assert!(contains_chars(&vec!['a', 'b', 'c'], &vec!['c']));
    assert!(!contains_chars(&vec![], &vec!['c']));
}

#[test]
fn lowercase_is_unicode_aware() {
    assert_eq!(to_lowercase("ÉLODIE"), "élodie");
    assert_eq!(to_lowercase("Bob"), "bob");
}

#[test]
fn char_helpers() {
    assert_eq!(chars_of("añb"), vec!['a', 'ñ', 'b']);
    assert_eq!(string_from_chars(&vec!['x', 'y', 'z'], 2), "xy");
    assert_eq!(repeat('─', 3), "───");
    assert_eq!(repeat('*', 0), "");
}

#[test]
fn action_labels() {
    assert_eq!(SystemAction::Shutdown.label(), "Shutdown");
    assert_eq!(SystemAction::Reboot.label(), "Reboot");
}
