//! Text: white space, lines, limits, numbers and bytes.

use leepanel::channel::{show_event, ChannelEvent};
use leepanel::escalation::reject_privilege_escalation;
use leepanel::files::{first_bytes, read_file};
use leepanel::limits::{take_chars, truncate_utf8};
use leepanel::lines::{curl_percentage, curl_percentages, split_lines, split_returns, visible_lines};
use leepanel::spaces::{blank, is_whitespace, trim};
use leepanel::text::{decimal_int_text, decimal_text, ends_with, text_eq};

#[test]
fn white_space_is_that_of_unicode() {
    for n in 0..=0x10FFFF_u32 {
        if let Some(c) = char::from_u32(n) {
            assert_eq!(is_whitespace(c), c.is_whitespace(), "{:x}", n);
        }
    }
}

#[test]
fn trimming_agrees_with_the_standard_library() {
    for text in ["", " ", "a", " a ", "\t\r\n a b \u{3000}", "\u{a0}x", "x\u{2003}", "no space"] {
        assert_eq!(trim(text), text.trim());
        assert_eq!(blank(text), text.trim().is_empty());
    }
    assert_eq!(trim("  cp: error \n"), "cp: error");
}

#[test]
fn lines_agree_with_the_standard_library() {
    for text in ["", "a", "a\n", "a\nb", "a\r\nb\r", "\n\n", "\r\n", "a\n\nb\n", "x\r", "\r\r\n"] {
        let expected: Vec<String> = text.lines().map(|line| line.to_string()).collect();
        assert_eq!(split_lines(text), expected, "{:?}", text);
        let shown: Vec<String> = text
            .lines()
            .filter(|line| !line.trim().is_empty())
            .map(|line| line.to_string())
            .collect();
        assert_eq!(visible_lines(text), shown, "{:?}", text);
    }
    assert_eq!(visible_lines("'a' -> 'b'\n \n'c' -> 'd'\r\n"), vec!["'a' -> 'b'", "'c' -> 'd'"]);
}

#[test]
fn carriage_returns_split_output() {
    assert_eq!(split_returns("a\rb\r"), vec!["a", "b", ""]);
    assert_eq!(split_returns(""), vec![""]);
}

#[test]
fn percentages_are_cut_out_of_output() {
    assert_eq!(curl_percentage("45.2 %"), Some("45.2".to_string()));
    assert_eq!(curl_percentage("10% of 20%"), Some("20".to_string()));
    assert_eq!(curl_percentage("### 45.2%"), Some("45.2".to_string()));
    assert_eq!(curl_percentage("#=#=# 100%"), Some("100".to_string()));
    assert_eq!(curl_percentage("1 of 2.5 %  "), Some("2.5".to_string()));
    assert_eq!(curl_percentage("-5%"), Some("-5".to_string()));
    assert_eq!(curl_percentage("## +1e2 %"), Some("+1e2".to_string()));
    assert_eq!(curl_percentage("###45.2%"), Some("45.2".to_string()));
    assert_eq!(curl_percentage("%"), Some(String::new()));
    assert_eq!(curl_percentage("45.2"), None);
    assert_eq!(curl_percentages("\r 1.5%\rx\r100.0% "), vec!["1.5", "100.0"]);
}

#[test]
fn cut_text_is_the_longest_that_fits() {
    assert_eq!(truncate_utf8("aé", 2), ("a".to_string(), true));
    assert_eq!(truncate_utf8("aé", 3), ("aé".to_string(), false));
    assert_eq!(truncate_utf8("你", 2), (String::new(), true));
    assert_eq!(truncate_utf8("", 0), (String::new(), false));
    assert_eq!(take_chars("你好abc", 3), "你好a");
    assert_eq!(take_chars("ab", 3), "ab");
}

#[test]
fn numbers_are_written_in_decimal() {
    for n in [0, 9, 10, 65535, u64::MAX] {
        assert_eq!(decimal_text(n), n.to_string());
    }
    for n in [0, -1, 7, i64::MIN, i64::MAX] {
        assert_eq!(decimal_int_text(n), n.to_string());
    }
}

#[test]
fn texts_are_compared_by_their_characters() {
    assert!(text_eq("né", "né"));
    assert!(!text_eq("a", "ab"));
    assert!(ends_with("x.tar.gz", ".tar.gz"));
    assert!(!ends_with(".gz", ".tar.gz"));
}

#[test]
fn bytes_that_are_not_text_are_replaced() {
    let shown = show_event(ChannelEvent::Data(vec![b'a', 0xff, b'b']));
    assert_eq!(shown, ChannelEvent::Data("a\u{fffd}b".to_string()));
    let shown = show_event(ChannelEvent::Extended { data: "é".as_bytes().to_vec(), ext: 1 });
    assert_eq!(shown, ChannelEvent::Extended { data: "é".to_string(), ext: 1 });
}

#[test]
fn files_are_shown_up_to_a_limit() {
    assert_eq!(read_file("你好".as_bytes()), "你好");
    let long = vec![b'x'; 1048577];
    assert_eq!(first_bytes(&long).len(), 1048576);
    assert_eq!(read_file(&long).len(), 1048576);
    assert_eq!(first_bytes(&long[..1048576]).len(), 1048576);
}

#[test]
fn escalation_is_found_in_any_case_and_place() {
    for command in ["echo a;SUDO b", "$(doas x)", "/usr/bin/pkexec", "a\nsu"] {
        assert_eq!(
            reject_privilege_escalation(command),
            Err("Privilege escalation is not allowed with management access. Use the privileged command tool with system access.".to_string())
        );
    }
    for command in ["", "pseudo", "su-exec x", "sudo_x", "result"] {
        assert_eq!(reject_privilege_escalation(command), Ok(()));
    }
}
