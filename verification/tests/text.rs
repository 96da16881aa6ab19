use codex_asr::path::AudioPath;
use codex_asr::text::{
    ahead_text, begins_with, behind_text, chars_of, collapse_text, decimal_text, equal_text,
    find_first, find_last, find_text, is_white_space, lines_of, lower_chars, remove_char,
    same_text, text_of, trim_chars, trim_text,
};

fn samples() -> Vec<String> {
    let pieces = ["", " ", "\t", "\r\n", "a", "Ä", "Bearer ", ":", ".", "\"", "\u{3000}", "<string>", "\n", "\r"];
    let mut all = Vec::new();
    for a in pieces {
        for b in pieces {
            for c in pieces {
                all.push(format!("{a}{b}{c}"));
                all.push(format!("{a}x{b}y{c}"));
            }
        }
    }
    all
}

#[test]
fn white_space_and_small_letters_agree_for_every_character() {
    for c in '\0'..=char::MAX {
        assert_eq!(is_white_space(c), c.is_whitespace(), "{c:?}");
        assert_eq!(lower_chars(&[c]), vec![c.to_ascii_lowercase()], "{c:?}");
    }
}

#[test]
fn text_is_trimmed() {
    for s in samples() {
        assert_eq!(trim_text(&s), s.trim(), "{s:?}");
        assert_eq!(trim_text(&trim_text(&s)), s.trim(), "{s:?}");
        let chars: Vec<char> = s.chars().collect();
        assert_eq!(trim_chars(&chars).iter().collect::<String>(), s.trim(), "{s:?}");
    }
}

#[test]
fn text_and_characters_are_the_same() {
    for s in samples() {
        let chars = chars_of(&s);
        assert_eq!(chars, s.chars().collect::<Vec<char>>());
        assert_eq!(text_of(&chars), s);
        assert!(same_text(&chars, &s));
        assert!(equal_text(&s, &s));
        assert!(!same_text(&chars, &format!("{s}!")));
        assert!(!equal_text(&format!("{s}?"), &format!("{s}!")));
    }
}

#[test]
fn text_is_searched() {
    for s in samples() {
        let chars = chars_of(&s);
        let at = s.chars().position(|c| c == ':');
        assert_eq!(find_first(&chars, ':'), at.unwrap_or(chars.len()));
        assert_eq!(find_last(&chars, '.'), s.chars().collect::<Vec<char>>().iter().rposition(|c| *c == '.'));
        assert_eq!(begins_with(&chars, "Bearer "), s.starts_with("Bearer "));
        assert_eq!(
            find_text(&chars, "<string>"),
            s.find("<string>").map(|at| s[..at].chars().count())
        );
        assert_eq!(
            behind_text(&chars, "<string>").map(text_of),
            s.split_once("<string>").map(|(_, rest)| rest.to_string())
        );
        assert_eq!(
            ahead_text(&chars, "<string>").map(text_of),
            s.split_once("<string>").map(|(head, _)| head.to_string())
        );
        assert_eq!(remove_char(&s, '"'), s.replace('"', ""));
    }
}

#[test]
fn text_is_split_into_lines() {
    for s in samples() {
        let lines: Vec<String> = lines_of(&s).iter().map(|line| text_of(line)).collect();
        let expected: Vec<String> = s.lines().map(str::to_string).collect();
        assert_eq!(lines, expected, "{s:?}");
    }
}

#[test]
fn white_space_is_collapsed() {
    for s in samples() {
        let expected = s.split_whitespace().collect::<Vec<&str>>().join(" ");
        assert_eq!(collapse_text(&s), expected, "{s:?}");
        assert_eq!(collapse_text(&collapse_text(&s)), expected, "{s:?}");
    }
}

#[test]
fn numbers_are_written_in_decimal() {
    for n in [0, 1, 9, 10, 99, 100, 8788, 24000, 65535, u64::MAX] {
        assert_eq!(decimal_text(n), n.to_string());
    }
}

#[test]
fn paths_are_taken_apart() {
    let pieces = ["", "/", "//", ".", "..", "a", "a.wav", ".silk", "a.b.c", "a.", " ", "ä.MP3", "/.", "./", "/.."];
    for a in pieces {
        for b in pieces {
            for c in pieces {
                for s in [format!("{a}{b}{c}"), format!("{a}/{b}/{c}")] {
                    let path = AudioPath::new(&s);
                    let expected = std::path::Path::new(&s);
                    assert_eq!(path.file_name.as_deref(), expected.file_name().and_then(|n| n.to_str()), "{s:?}");
                    assert_eq!(path.file_stem.as_deref(), expected.file_stem().and_then(|n| n.to_str()), "{s:?}");
                    assert_eq!(path.extension.as_deref(), expected.extension().and_then(|n| n.to_str()), "{s:?}");
                }
            }
        }
    }
}
