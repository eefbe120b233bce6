use pengmai_shell::scan::{delivered, is_printable, KeyInput, ScanBuffer, SCAN_EVENT};
use pengmai_shell::text::{decimal_text, is_white_space, joined, same_text, trim, trim_marked};

const MS: u128 = 1_000_000;

fn press(text: &str) -> KeyInput {
    KeyInput::Press(Some(text.to_string()))
}

#[test]
fn burst_is_delivered_once() {
    let mut scan = ScanBuffer::new(0);
    let mut now = 500 * MS;
    for c in "WEB20260101".chars() {
        assert_eq!(scan.on_event(press(&c.to_string()), now), None);
        now += 20 * MS;
    }
    assert_eq!(scan.on_event(KeyInput::Return, now), Some("WEB20260101".to_string()));
    assert_eq!(scan.on_event(KeyInput::Return, now), None);
}

#[test]
fn slow_key_starts_over() {
    let mut scan = ScanBuffer::new(0);
    scan.on_event(press("a"), 10 * MS);
    scan.on_event(press("b"), 20 * MS);
    scan.on_event(press("c"), 100 * MS);
    scan.on_event(press("d"), 179 * MS);
    assert_eq!(scan.on_event(KeyInput::Return, 5000 * MS), Some("cd".to_string()));
}

#[test]
fn gap_is_counted_in_whole_milliseconds() {
    let mut scan = ScanBuffer::new(0);
    scan.on_event(press("a"), 0);
    scan.on_event(press("b"), 80 * MS - 1);
    assert_eq!(scan.on_event(KeyInput::Return, 0), Some("ab".to_string()));
    scan.on_event(press("a"), 1000 * MS);
    scan.on_event(press("b"), 1080 * MS);
    scan.on_event(press("c"), 1081 * MS);
    assert_eq!(scan.on_event(KeyInput::Return, 0), Some("bc".to_string()));
}

#[test]
fn first_key_right_after_start_is_fast() {
    let mut scan = ScanBuffer::new(7 * MS);
    scan.on_event(press("x"), 8 * MS);
    assert_eq!(scan.on_event(KeyInput::Return, 9 * MS), Some("x".to_string()));
}

#[test]
fn clock_that_goes_back_counts_as_fast() {
    let mut scan = ScanBuffer::new(0);
    scan.on_event(press("a"), 1000 * MS);
    scan.on_event(press("b"), 900 * MS);
    assert_eq!(scan.on_event(KeyInput::Return, 0), Some("ab".to_string()));
}

#[test]
fn keys_without_a_single_character_are_skipped() {
    let mut scan = ScanBuffer::new(0);
    scan.on_event(press("1"), 10 * MS);
    scan.on_event(KeyInput::Press(None), 300 * MS);
    scan.on_event(press("ab"), 301 * MS);
    scan.on_event(press(""), 302 * MS);
    scan.on_event(KeyInput::Other, 303 * MS);
    // The skipped keys did not move the clock: the next one is slow.
    scan.on_event(press("2"), 304 * MS);
    scan.on_event(press("3"), 305 * MS);
    assert_eq!(scan.on_event(KeyInput::Return, 306 * MS), Some("23".to_string()));
}

#[test]
fn wide_characters_count_as_one() {
    let mut scan = ScanBuffer::new(0);
    scan.on_event(press("订"), 10 * MS);
    scan.on_event(press("单"), 20 * MS);
    assert_eq!(scan.on_event(KeyInput::Return, 30 * MS), Some("订单".to_string()));
}

#[test]
fn code_is_trimmed() {
    let mut scan = ScanBuffer::new(0);
    for (i, c) in [" ", "\u{a0}", "7", " ", "8", "\u{3000}"].iter().enumerate() {
        scan.on_event(press(c), (i as u128) * MS);
    }
    assert_eq!(scan.on_event(KeyInput::Return, 0), Some("7 8".to_string()));
}

#[test]
fn blank_code_is_not_delivered() {
    let mut scan = ScanBuffer::new(0);
    assert_eq!(scan.on_event(KeyInput::Return, 0), None);
    scan.on_event(press(" "), MS);
    scan.on_event(press("\u{a0}"), 2 * MS);
    assert_eq!(scan.on_event(KeyInput::Return, 0), None);
}

#[test]
fn scan_event_name() {
    assert_eq!(SCAN_EVENT, "scan:code");
}

#[test]
fn trim_agrees_with_the_standard_library() {
    for text in ["", " ", "a", " a", "a ", "\n a b \r\n", "\u{2028}越\u{85}", "\u{200b}x\u{200b}"] {
        assert_eq!(trim(text), text.trim());
    }
}

#[test]
fn decimal_agrees_with_the_standard_library() {
    for n in [0u128, 1, 9, 10, 11, 99, 100, 1_767_225_600_000, u128::MAX] {
        assert_eq!(decimal_text(n), n.to_string());
    }
}

#[test]
fn decimal_texts_differ() {
    assert_ne!(decimal_text(10), decimal_text(100));
    assert_ne!(decimal_text(1), decimal_text(11));
}

#[test]
fn comparing_and_joining() {
    assert!(same_text("忽略", "忽略"));
    assert!(!same_text("ignore", "ignored"));
    assert_eq!(joined("v", "1.0"), "v1.0");
}

#[test]
fn trimming_by_marks() {
    assert_eq!(trim_marked("abcd", &vec![true, false, true, true]), "b");
    assert_eq!(trim_marked("订a单", &vec![false, true, false]), "订a单");
    assert_eq!(trim_marked("ab", &vec![true, true]), "");
    assert_eq!(trim_marked("", &vec![]), "");
}

#[test]
fn trimming_twice_is_trimming_once() {
    let once = trim("  a b\t");
    assert_eq!(once, "a b");
    assert_eq!(trim(&once), once);
}

#[test]
fn only_the_last_burst_is_collected() {
    let mut scan = ScanBuffer::new(0);
    for (i, c) in ["h", "i", " ", "y", "o", "u"].iter().enumerate() {
        scan.on_event(press(c), (i as u128 + 1) * 200 * MS);
    }
    for (i, c) in ["4", "7", "1", "1"].iter().enumerate() {
        scan.on_event(press(c), (3000 + i as u128 * 15) * MS);
    }
    assert_eq!(scan.on_event(KeyInput::Return, 4000 * MS), Some("4711".to_string()));
}

#[test]
fn slow_typing_is_not_a_scan() {
    let mut scan = ScanBuffer::new(0);
    scan.on_event(press("a"), 1000 * MS);
    scan.on_event(press("b"), 1500 * MS);
    assert_eq!(scan.on_event(KeyInput::Return, 2000 * MS), None);
    // Nothing of it is left for the next Return key.
    scan.on_event(press("c"), 2010 * MS);
    assert_eq!(scan.on_event(KeyInput::Return, 2020 * MS), None);
}

#[test]
fn fast_single_character_after_a_scan_is_a_code() {
    let mut scan = ScanBuffer::new(0);
    scan.on_event(press("X"), 100 * MS);
    scan.on_event(press("Y"), 110 * MS);
    assert_eq!(scan.on_event(KeyInput::Return, 120 * MS), Some("XY".to_string()));
    scan.on_event(press("A"), 130 * MS);
    assert_eq!(scan.on_event(KeyInput::Return, 140 * MS), Some("A".to_string()));
    scan.on_event(press("B"), 400 * MS);
    assert_eq!(scan.on_event(KeyInput::Return, 410 * MS), None);
}

#[test]
fn pause_before_the_last_character_gives_no_code() {
    let mut scan = ScanBuffer::new(0);
    scan.on_event(press("1"), 100 * MS);
    scan.on_event(press("2"), 110 * MS);
    scan.on_event(press("3"), 300 * MS);
    assert_eq!(scan.on_event(KeyInput::Return, 310 * MS), None);
}

#[test]
fn control_characters_are_left_out() {
    let mut scan = ScanBuffer::new(0);
    for (i, c) in ["A", "\t", "B", "\u{8}", "\u{7f}", "\u{9f}"].iter().enumerate() {
        scan.on_event(press(c), (100 + i as u128 * 10) * MS);
    }
    assert_eq!(scan.on_event(KeyInput::Return, 200 * MS), Some("AB".to_string()));
}

#[test]
fn control_characters_do_not_move_the_clock() {
    let mut scan = ScanBuffer::new(0);
    scan.on_event(press("A"), 100 * MS);
    scan.on_event(press("\t"), 150 * MS);
    scan.on_event(press("B"), 190 * MS);
    scan.on_event(press("C"), 200 * MS);
    assert_eq!(scan.on_event(KeyInput::Return, 210 * MS), Some("BC".to_string()));
}

#[test]
fn printable_characters() {
    for c in [' ', '~', 'a', '\u{a0}', '越'] {
        assert!(is_printable(c));
    }
    for c in ['\0', '\r', '\u{1f}', '\u{7f}', '\u{80}', '\u{9f}'] {
        assert!(!is_printable(c));
    }
}

#[test]
fn delivering_what_is_left() {
    assert_eq!(delivered(true, String::new()), None);
    assert_eq!(delivered(false, "a".to_string()), None);
    assert_eq!(delivered(true, "a".to_string()), Some("a".to_string()));
}

#[test]
fn white_space_is_the_unicode_property() {
    for u in 0..=0x10FFFFu32 {
        if let Some(c) = char::from_u32(u) {
            assert_eq!(is_white_space(c), c.is_whitespace());
        }
    }
}
