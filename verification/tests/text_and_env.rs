//! Text helpers and the `.env` file.

use notify::backend::pushover::PushoverBackend;
use notify::env::{parse_credentials, parse_env_line, parse_env_value};
use notify::error::NotifyError;
use notify::text;
use std::path::PathBuf;

const SAMPLES: [&str; 22] = [
    "",
    " ",
    "\t\r\n ",
    "plain",
    "  plain  ",
    "\u{a0}non-breaking\u{3000}",
    "a\nb",
    "a\r\nb\r\n",
    "a\rb",
    "last\r",
    "\n",
    "\n\n",
    "\r\n",
    "a\n\nb\n",
    "MiXeD CaSe ÄÖÜ É",
    "key=value=more",
    "=",
    "export KEY=1",
    "value # comment # more",
    " #",
    "# #",
    "日本語 # テスト\n次",
];

#[test]
fn whitespace_is_that_of_unicode() {
    for code in 0..=0x10ffffu32 {
        if let Some(c) = char::from_u32(code) {
            assert_eq!(text::is_whitespace(c), c.is_whitespace(), "{code:x}");
        }
    }
}

#[test]
fn lower_case_is_that_of_ascii() {
    for code in 0..=0x10ffffu32 {
        if let Some(c) = char::from_u32(code) {
            assert_eq!(text::to_lower_char(c), c.to_ascii_lowercase(), "{code:x}");
        }
    }
    for s in SAMPLES {
        assert_eq!(text::to_ascii_lowercase(s), s.to_ascii_lowercase());
    }
    assert_eq!(text::to_ascii_lowercase("PUSHOVER_É"), "pushover_É");
    assert!(text::eq_ignore_ascii_case("Pushover_Token", "PUSHOVER_TOKEN"));
    assert!(!text::eq_ignore_ascii_case("Ä", "ä"));
}

#[test]
fn trimming_takes_the_outer_whitespace() {
    for s in SAMPLES {
        assert_eq!(text::trim(s), s.trim());
        assert_eq!(text::trim(text::trim(s)), s.trim());
    }
    assert_eq!(text::trim(" a b\u{2003}\n"), "a b");
}

#[test]
fn lines_end_with_line_feeds() {
    for s in SAMPLES {
        assert_eq!(text::lines(s), s.lines().collect::<Vec<_>>(), "{s:?}");
    }
    assert_eq!(text::lines("a\r\nb\n\nc"), ["a", "b", "", "c"]);
    assert_eq!(text::lines("a\r"), ["a\r"]);
}

#[test]
fn splitting_happens_at_the_first_match() {
    for s in SAMPLES {
        for pattern in ["=", " #", "\n", "a", "value", "", "none of them"] {
            assert_eq!(text::split_once(s, pattern), s.split_once(pattern), "{s:?} {pattern:?}");
            assert_eq!(text::strip_prefix(s, pattern), s.strip_prefix(pattern));
            assert_eq!(text::starts_with(s, pattern), s.starts_with(pattern));
        }
    }
    assert_eq!(text::split_once("a=b=c", "="), Some(("a", "b=c")));
    assert_eq!(text::split_once("a", "="), None);
    assert_eq!(text::strip_prefix("export A", "export "), Some("A"));
}

#[test]
fn equality_is_by_characters() {
    for a in SAMPLES {
        for b in SAMPLES {
            assert_eq!(text::same_text(a, b), a == b);
        }
        assert_eq!(text::chars_of(a), a.chars().collect::<Vec<_>>());
    }
}

#[test]
fn decimal_notation() {
    for n in [0, 1, 9, 10, 99, 100, -1, -2, -10, 12345, i64::MAX, i64::MIN, i64::MIN + 1] {
        assert_eq!(text::decimal_text(n), n.to_string());
    }
    assert_eq!(text::decimal_text(-42), "-42");
}

#[test]
fn env_values_are_unquoted_and_cut_at_comments() {
    assert_eq!(parse_env_value(""), "");
    assert_eq!(parse_env_value("\""), "\"");
    assert_eq!(parse_env_value("\"\""), "");
    assert_eq!(parse_env_value("'mixed\""), "'mixed\"");
    assert_eq!(parse_env_value("\" inner \""), "inner");
    assert_eq!(parse_env_value("\"a # b\""), "a");
    assert_eq!(parse_env_value("'a' # 'b'"), "a'");
    assert_eq!(parse_env_value("a#b"), "a#b");
    assert_eq!(parse_env_value("  a\t# b"), "a\t# b");
    assert_eq!(parse_env_value("''quoted''"), "'quoted'");
    assert_eq!(parse_env_value("é"), "é");
}

#[test]
fn clean_env_values_read_back() {
    for v in ["abc", "a b", "", "x#y", "日本"] {
        assert_eq!(parse_env_value(v), v);
        assert_eq!(parse_env_value(&format!("\"{v}\"")), v);
        assert_eq!(parse_env_value(&format!("'{v}'")), v);
    }
    assert_eq!(parse_env_value("abc # anything \"at\" all"), "abc");
}

#[test]
fn env_values_are_clean_parts() {
    for raw in SAMPLES {
        let value = parse_env_value(raw);
        assert_eq!(value.trim(), value);
        assert!(!value.contains(" #"));
        assert!(raw.contains(&value));
        assert_eq!(parse_env_value(&format!("\t {raw}\u{a0}\n")), value);
    }
}

#[test]
fn env_lines_assign() {
    let entry = |key: &str, value: &str| Some((key.to_string(), value.to_string()));
    assert_eq!(parse_env_line("KEY=value"), entry("KEY", "value"));
    assert_eq!(parse_env_line("  KEY = 'value' "), entry("KEY", "value"));
    assert_eq!(parse_env_line("export KEY=value"), entry("KEY", "value"));
    assert_eq!(parse_env_line("export   KEY=value"), entry("KEY", "value"));
    assert_eq!(parse_env_line("exported=value"), entry("exported", "value"));
    assert_eq!(parse_env_line("KEY=a=b"), entry("KEY", "a=b"));
    assert_eq!(parse_env_line("KEY="), entry("KEY", ""));
    assert_eq!(parse_env_line(""), None);
    assert_eq!(parse_env_line("   "), None);
    assert_eq!(parse_env_line(" # KEY=value"), None);
    assert_eq!(parse_env_line("no assignment"), None);
}

#[test]
fn credentials_are_the_last_ones_assigned() {
    let dir = PathBuf::from("/nonexistent");
    let backend = PushoverBackend { workspace_dir: &dir };
    let content = "# credentials\n\
                   PUSHOVER_TOKEN=old\n\
                   \n\
                   export pushover_token=\"new\" \r\n\
                   OTHER=1\n\
                   Pushover_User_Key='user' \n";
    let (token, user_key) = backend.get_credentials(content).unwrap();
    assert_eq!(token, "new");
    assert_eq!(user_key, "user");
    let (token, user_key) = parse_credentials("PUSHOVER_TOKEN=t\nPUSHOVER_USER_KEY=u").unwrap();
    assert_eq!((token.as_str(), user_key.as_str()), ("t", "u"));
}

#[test]
fn missing_credentials_are_named() {
    let error = parse_credentials("").unwrap_err();
    assert!(matches!(error, NotifyError::TokenNotFound));
    assert_eq!(error.message(), "PUSHOVER_TOKEN not found in .env");
    let error = parse_credentials("PUSHOVER_USER_KEY=u").unwrap_err();
    assert!(matches!(error, NotifyError::TokenNotFound));
    let error = parse_credentials("PUSHOVER_TOKEN=t").unwrap_err();
    assert!(matches!(error, NotifyError::UserKeyNotFound));
    assert_eq!(error.message(), "PUSHOVER_USER_KEY not found in .env");
}
