use voynich_term::text::{chars_to_string, str_chars};

#[test]
fn str_chars_lists_the_characters() {
    assert_eq!(str_chars("a漢\u{301}b"), vec!['a', '漢', '\u{301}', 'b']);
    assert_eq!(str_chars(""), Vec::<char>::new());
}

#[test]
fn chars_to_string_from_an_index() {
    let chars = vec!['/', 'q', 'u', 'i', 't'];
    assert_eq!(chars_to_string(&chars, 0), "/quit");
    assert_eq!(chars_to_string(&chars, 1), "quit");
    assert_eq!(chars_to_string(&chars, 5), "");
}
