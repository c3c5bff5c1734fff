use power_test::client::sse::{find_event_boundary, find_line};
use power_test::text::{
    ascii_lowercase, chars_of, comes_before, decimal_text, escape_script, html_escape,
    insert_ordered, join, lines, replace, strip_prefix, trim, truncate,
};

#[test]
fn numbers_are_written_in_decimal() {
    assert_eq!(decimal_text(0), "0");
    assert_eq!(decimal_text(1_000_000), "1000000");
    assert_eq!(decimal_text(u128::MAX), u128::MAX.to_string());
}

#[test]
fn markup_is_escaped() {
    assert_eq!(html_escape("<a href=\"x\">'&'</a>"), "&lt;a href=&quot;x&quot;&gt;&#39;&amp;&#39;&lt;/a&gt;");
    assert_eq!(html_escape("plain"), "plain");
}

#[test]
fn lines_end_as_in_text_files() {
    let cases = ["", "\n", "a", "a\n", "a\nb", "a\r\nb\r\n", "\n\na\r", "a\r\r\n"];
    for case in cases {
        let want: Vec<&str> = case.lines().collect();
        assert_eq!(lines(case), want, "{case:?}");
    }
}

#[test]
fn whitespace_is_trimmed_at_both_ends() {
    for case in ["", "  ", " a ", "\t\na b\u{a0}", "\u{3000}x\u{2003}", "a"] {
        assert_eq!(trim(case), case.trim(), "{case:?}");
    }
}

#[test]
fn cuts_fall_between_characters() {
    assert_eq!(truncate("hello", 5), "hello");
    assert_eq!(truncate("hello!", 5), "hello\u{2026}");
    assert_eq!(truncate("h\u{e9}llo", 2), "h\u{2026}");
    assert_eq!(truncate("\u{6a21}\u{578b}", 3), "\u{6a21}\u{2026}");
}

#[test]
fn substitution_goes_from_left_to_right() {
    for (s, pat, with) in [("aaa", "aa", "b"), ("a.b.c", ".", "--"), ("x", "y", "z"), ("", "a", "b")]
    {
        assert_eq!(replace(s, pat, with), s.replace(pat, with));
    }
    assert_eq!(escape_script("</script></b>"), "<\\/script></b>");
}

#[test]
fn texts_are_ordered_like_strings() {
    for (a, b) in [("", "a"), ("a", "b"), ("a", "ab"), ("b", "a"), ("a", "a"), ("Z", "a")] {
        assert_eq!(comes_before(a, b), a < b, "{a:?} {b:?}");
    }
    let mut list: Vec<String> = Vec::new();
    for text in ["c", "a", "b", "a"] {
        insert_ordered(&mut list, text.to_string());
    }
    assert_eq!(list, vec!["a", "b", "c"]);
}

#[test]
fn small_pieces_work() {
    assert_eq!(chars_of("h\u{e9}"), vec!['h', '\u{e9}']);
    assert_eq!(strip_prefix("data: x", "data: ").as_deref(), Some("x"));
    assert_eq!(strip_prefix("data", "data: "), None);
    assert_eq!(join(&vec!["a".to_string(), "b".to_string()], ", "), "a, b");
    assert_eq!(ascii_lowercase("AbC\u{c9}"), "abc\u{c9}");
}

#[test]
fn events_end_at_blank_lines() {
    assert_eq!(find_event_boundary(b"a\n\nb"), Some((1, 2)));
    assert_eq!(find_event_boundary(b"a\r\n\r\nb"), Some((1, 4)));
    assert_eq!(find_event_boundary(b"a\nb\n"), None);
    assert_eq!(find_line(b"ab\r\ncd").map(|(end, _)| end), Some(2));
    assert_eq!(find_line(b"ab"), None);
}

#[test]
fn escaped_markup_can_be_read_back() {
    for s in ["<a href=\"x\">'&'</a>", "&lt;", "&amp;lt;", "&&&", ""] {
        let mut left = html_escape(s);
        let mut back = String::new();
        while !left.is_empty() {
            let known = [("&amp;", '&'), ("&lt;", '<'), ("&gt;", '>'), ("&quot;", '"'), ("&#39;", '\'')];
            match known.iter().find(|(entity, _)| left.starts_with(entity)) {
                Some((entity, c)) => {
                    back.push(*c);
                    left = left[entity.len()..].to_string();
                }
                None => {
                    let c = left.remove(0);
                    assert_ne!(c, '&');
                    back.push(c);
                }
            }
        }
        assert_eq!(back, s);
    }
}
