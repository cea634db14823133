use zukus_desktop::name::{name_continue, name_start, valid_name};

#[test]
fn plain_identifiers_are_valid() {
    assert!(valid_name("ping"));
    assert!(valid_name("greet"));
    assert!(valid_name("mi_comando"));
    assert!(valid_name("_private"));
    assert!(valid_name("Cmd2"));
    assert!(valid_name("a"));
    assert!(valid_name("_"));
}

#[test]
fn empty_name_is_invalid() {
    assert!(!valid_name(""));
}

#[test]
fn leading_digit_is_invalid() {
    assert!(!valid_name("2fast"));
    assert!(!valid_name("0"));
}

#[test]
fn punctuation_and_spaces_are_invalid() {
    assert!(!valid_name("my-command"));
    assert!(!valid_name("my command"));
    assert!(!valid_name("plugin:log|log"));
    assert!(!valid_name("ping()"));
    assert!(!valid_name(" ping"));
    assert!(!valid_name("ping\n"));
}

#[test]
fn non_ascii_letters_are_invalid() {
    assert!(!valid_name("añadir"));
    assert!(!valid_name("ñ"));
    assert!(!valid_name("ping\u{e9}"));
}

#[test]
fn start_and_continue_characters() {
    assert!(name_start('a'));
    assert!(name_start('z'));
    assert!(name_start('A'));
    assert!(name_start('Z'));
    assert!(name_start('_'));
    assert!(!name_start('0'));
    assert!(!name_start('9'));
    assert!(!name_start('`'));
    assert!(!name_start('{'));
    assert!(!name_start('@'));
    assert!(!name_start('['));
    assert!(name_continue('0'));
    assert!(name_continue('9'));
    assert!(name_continue('q'));
    assert!(name_continue('_'));
    assert!(!name_continue('/'));
    assert!(!name_continue(':'));
    assert!(!name_continue('-'));
}
