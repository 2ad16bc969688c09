use voynich_term::root::split_each;

fn rows(text: &str, width: usize) -> Vec<String> {
    split_each(text.to_string(), width)
}

#[test]
fn split_each_of_empty_text_has_no_rows() {
    assert_eq!(rows("", 5), Vec::<String>::new());
}

#[test]
fn split_each_short_text_is_one_row() {
    assert_eq!(rows("abc", 5), vec!["abc"]);
}

#[test]
fn split_each_exact_fit_is_one_row() {
    assert_eq!(rows("abcde", 5), vec!["abcde"]);
}

#[test]
fn split_each_breaks_at_the_width() {
    assert_eq!(rows("abcdefghij", 4), vec!["abcd", "efgh", "ij"]);
    assert_eq!(rows("abcdefgh", 4), vec!["abcd", "efgh"]);
}

#[test]
fn split_each_width_one() {
    assert_eq!(rows("abc", 1), vec!["a", "b", "c"]);
}

#[test]
fn split_each_moves_a_wide_character_to_the_next_row() {
    assert_eq!(rows("abc漢d", 4), vec!["abc", "漢d"]);
    assert_eq!(rows("ab漢d", 4), vec!["ab漢", "d"]);
}

#[test]
fn split_each_wide_character_in_a_narrower_row() {
    assert_eq!(rows("漢", 1), vec!["", "漢"]);
    assert_eq!(rows("a漢b", 1), vec!["a", "漢", "b"]);
}

#[test]
fn split_each_keeps_zero_width_characters_in_the_row() {
    assert_eq!(rows("a\u{301}bc", 2), vec!["a\u{301}b", "c"]);
}

#[test]
fn split_each_rows_concatenate_to_the_text() {
    let texts = ["", "a", "hello world", "abc漢字def", "漢漢漢漢", "a\u{7}b\u{301}c", ":> connect abc"];
    for text in texts {
        for width in 1..12 {
            let joined: String = rows(text, width).concat();
            assert_eq!(joined, text);
        }
    }
}
