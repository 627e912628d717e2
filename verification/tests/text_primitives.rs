use fetch_github_hosts::lines::{join_of, lines_of};
use fetch_github_hosts::text::{
    chars_of, contains_text, has_prefix, is_whitespace, matches_at, push_decimal, replace_text,
    same_text, tokens_of, trim_of,
};

fn text(v: &[char]) -> String {
    v.iter().collect()
}

fn texts(v: &[Vec<char>]) -> Vec<String> {
    v.iter().map(|l| text(l)).collect()
}

#[test]
fn chars_are_the_scalar_values() {
    assert_eq!(chars_of("aé日😀"), vec!['a', 'é', '日', '😀']);
    assert_eq!(chars_of(""), Vec::<char>::new());
}

#[test]
fn whitespace_is_what_the_standard_library_calls_whitespace() {
    for code in 0u32..0x3100 {
        if let Some(c) = char::from_u32(code) {
            assert_eq!(is_whitespace(c), c.is_whitespace());
        }
    }
    assert!(!is_whitespace('\u{200B}'));
    assert!(!is_whitespace('\u{FEFF}'));
}

#[test]
fn lines_split_like_the_standard_library() {
    for s in [
        "",
        "a",
        "a\n",
        "a\nb",
        "a\r\nb\r\n",
        "\n",
        "\n\n",
        "\r\n",
        "a\r",
        "a\r\r\n",
        "a\rb\n",
        "\r",
        "x\n\ny\n",
        " \t\n",
        "日本\r\n語",
    ] {
        let expected: Vec<String> = s.lines().map(|l| l.to_string()).collect();
        assert_eq!(texts(&lines_of(&chars_of(s))), expected);
    }
}

#[test]
fn join_writes_every_line_with_its_ending() {
    let lines = vec![chars_of("a"), chars_of(""), chars_of("b")];
    assert_eq!(text(&join_of(&lines, &chars_of("\n"))), "a\n\nb\n");
    assert_eq!(text(&join_of(&lines, &chars_of("\r\n"))), "a\r\n\r\nb\r\n");
    assert_eq!(text(&join_of(&[].to_vec(), &chars_of("\n"))), "");
}

#[test]
fn trim_like_the_standard_library() {
    for s in ["", " ", "a", " a", "a ", " \t a b \r\n", "\u{3000}x\u{00A0}", "\n\n"] {
        assert_eq!(text(&trim_of(&chars_of(s))), s.trim());
    }
}

#[test]
fn tokens_like_the_standard_library() {
    for s in ["", " ", "a", " a  b ", "a\tb\nc", "one", "\u{3000}x\u{2003}y\u{3000}"] {
        let expected: Vec<String> = s.split_whitespace().map(|l| l.to_string()).collect();
        assert_eq!(texts(&tokens_of(&chars_of(s))), expected);
    }
}

#[test]
fn searching() {
    let s = chars_of("hello world");
    assert!(contains_text(&s, &chars_of("o w")));
    assert!(contains_text(&s, &chars_of("")));
    assert!(contains_text(&s, &chars_of("hello world")));
    assert!(contains_text(&s, &chars_of("d")));
    assert!(!contains_text(&s, &chars_of("hello world!")));
    assert!(!contains_text(&s, &chars_of("ow")));
    assert!(contains_text(&chars_of(""), &chars_of("")));
    assert!(!contains_text(&chars_of(""), &chars_of("a")));
    assert!(has_prefix(&s, &chars_of("hell")));
    assert!(has_prefix(&s, &chars_of("")));
    assert!(!has_prefix(&s, &chars_of("ello")));
    assert!(matches_at(&s, &chars_of("world"), 6));
    assert!(!matches_at(&s, &chars_of("world"), 7));
    assert!(!matches_at(&s, &chars_of("world"), usize::MAX));
    assert!(matches_at(&s, &chars_of(""), 11));
    assert!(!matches_at(&s, &chars_of(""), 12));
    assert!(same_text(&s, &chars_of("hello world")));
    assert!(!same_text(&s, &chars_of("hello worlds")));
    assert!(!same_text(&s, &chars_of("hello worle")));
}

#[test]
fn replacing_like_the_standard_library() {
    for (s, p, r) in [
        ("", "a", "b"),
        ("aaa", "a", "b"),
        ("aaa", "aa", "b"),
        ("abcabc", "bc", ""),
        ("abcabc", "abcabc", "x"),
        ("abc", "abcd", "x"),
        ("a{{x}}b{{x}}", "{{x}}", "{{x}}{{x}}"),
        ("日本語", "本", "ほん"),
    ] {
        assert_eq!(
            text(&replace_text(&chars_of(s), &chars_of(p), &chars_of(r))),
            s.replace(p, r)
        );
    }
    assert_eq!(text(&replace_text(&chars_of("abc"), &chars_of(""), &chars_of("x"))), "abc");
}

#[test]
fn decimal_numbers() {
    for n in [0u64, 1, 9, 10, 11, 99, 100, 12345, 4096, u32::MAX as u64, u64::MAX] {
        let mut out = chars_of("n=");
        push_decimal(&mut out, n);
        assert_eq!(text(&out), format!("n={}", n));
    }
}
