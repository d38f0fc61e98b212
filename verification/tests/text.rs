use weldgen::text::{is_text_before, Writer};

#[test]
fn dictionary_order() {
    assert!(is_text_before("", "a"));
    assert!(is_text_before("a", "b"));
    assert!(is_text_before("a", "ab"));
    assert!(is_text_before("Z", "a"));
    assert!(is_text_before("ab", "b"));
    assert!(is_text_before("z", "\u{e9}"));
    assert!(is_text_before("\u{ffff}", "\u{10000}"));
    assert!(!is_text_before("", ""));
    assert!(!is_text_before("a", ""));
    assert!(!is_text_before("b", "a"));
    assert!(!is_text_before("ab", "a"));
    assert!(!is_text_before("ab", "ab"));
}

#[test]
fn dictionary_order_is_that_of_strings() {
    let texts = ["", "a", "A", "aa", "ab", "b", "a.b", "a_b", "\u{e9}", "\u{20ac}", "\u{10348}"];
    for a in texts {
        for b in texts {
            assert_eq!(is_text_before(a, b), a < b);
        }
    }
}

#[test]
fn writer_appends() {
    let mut w = Writer::new();
    assert_eq!(w.as_str(), "");
    w.write("one");
    w.write("");
    w.write(" two");
    assert_eq!(w.as_str(), "one two");
}
