use pulseeffects::text::{
    chars_of, comes_before, numbered_name, push_decimal, replace, split_at, string_of,
};

fn replaced(text: &str, from: &str, to: &str) -> String {
    string_of(&replace(&chars_of(text), &chars_of(from), &chars_of(to)))
}

#[test]
fn chars_and_strings_convert_both_ways() {
    for text in ["", "a", "band31-q", "größe/ñ/日本語", "\"quoted\""] {
        let chars = chars_of(text);
        assert_eq!(chars, text.chars().collect::<Vec<char>>());
        assert_eq!(string_of(&chars), text);
    }
}

#[test]
fn replace_takes_every_occurrence_left_to_right() {
    assert_eq!(replaced("type: a\ntype: b", "type", "style"), "style: a\nstyle: b");
    assert_eq!(replaced("aaa", "aa", "b"), "ba");
    assert_eq!(replaced("aaaa", "aa", "b"), "bb");
    assert_eq!(replaced("abcabc", "bc", ""), "aa");
    assert_eq!(replaced("abc", "abcd", "x"), "abc");
    assert_eq!(replaced("", "a", "b"), "");
    assert_eq!(replaced("xyz", "z", "zz"), "xyzz");
}

#[test]
fn replace_agrees_with_the_standard_library() {
    let texts = ["", "a", "typetype", "prototype: \"1\"", "tytypepe", "\"\"\"", "ab ab ab", "ünï ünï"];
    let patterns = ["a", "type", "\"", "ab", " ", "ty", "ï", "typetypetype"];
    let targets = ["", "style", "x", "abab"];
    for text in texts {
        for from in patterns {
            for to in targets {
                assert_eq!(replaced(text, from, to), text.replace(from, to), "{text:?} {from:?} {to:?}");
            }
        }
    }
}

#[test]
fn replace_of_nothing_leaves_the_text() {
    assert_eq!(replaced("abc", "", "x"), "abc");
    assert_eq!(replaced("", "", "x"), "");
}

#[test]
fn split_gives_one_piece_more_than_separators() {
    let split = |text: &str| split_at(&chars_of(text), ',');
    assert_eq!(split(""), vec![String::new()]);
    assert_eq!(split("a"), vec!["a".to_string()]);
    assert_eq!(split("a,b"), vec!["a".to_string(), "b".to_string()]);
    assert_eq!(split("a,"), vec!["a".to_string(), String::new()]);
    assert_eq!(split(",a"), vec![String::new(), "a".to_string()]);
    assert_eq!(split(",,"), vec![String::new(), String::new(), String::new()]);
}

#[test]
fn split_agrees_with_the_standard_library() {
    for text in ["", ",", "1.0,0.5,0.25,1.0", "a,,b", ",x,", "no separator", "ä,ö,ü"] {
        let expected: Vec<String> = text.split(',').map(|piece| piece.to_string()).collect();
        assert_eq!(split_at(&chars_of(text), ','), expected, "{text:?}");
    }
}

#[test]
fn decimal_writes_numbers_without_leading_zeros() {
    for n in [0usize, 1, 9, 10, 11, 31, 99, 100, 101, 1000, 65535, 4294967295, usize::MAX] {
        let mut text = String::from("n=");
        push_decimal(&mut text, n);
        assert_eq!(text, format!("n={n}"));
    }
}

#[test]
fn numbered_names_end_in_the_number() {
    assert_eq!(numbered_name("threshold", 0), "threshold0");
    assert_eq!(numbered_name("intensity-band", 12), "intensity-band12");
    assert_eq!(numbered_name("band", 31), "band31");
    assert_eq!(numbered_name("", 7), "7");
}

#[test]
fn order_of_strings_is_that_of_the_standard_library() {
    let texts = ["", "a", "A", "ab", "abc", "b", "B", "rock", "Rock", "jazz", "zz", "é", "e", "日本", "~", "10", "9"];
    for a in texts {
        for b in texts {
            assert_eq!(comes_before(a, b), a < b, "{a:?} {b:?}");
        }
    }
}

#[test]
fn no_string_comes_before_itself() {
    for text in ["", "a", "preset", "é"] {
        assert!(!comes_before(text, text));
    }
}
