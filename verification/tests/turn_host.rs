use codex_lifecycle::cell::CellId;
use codex_lifecycle::text::is_blank;
use codex_lifecycle::turn_host::notification_item;
use codex_lifecycle::turn_host::notification_result;

#[test]
fn blank_texts_hold_whitespace_alone() {
    assert!(is_blank(""));
    assert!(is_blank(" \t\r\n"));
    assert!(is_blank("\u{a0}\u{2003}"));
    assert!(!is_blank(" a "));
    assert!(!is_blank("."));
}

#[test]
fn every_character_is_blank_that_has_the_white_space_property() {
    let ranges = [
        (0x0009, 0x000d),
        (0x0020, 0x0020),
        (0x0085, 0x0085),
        (0x00a0, 0x00a0),
        (0x1680, 0x1680),
        (0x2000, 0x200a),
        (0x2028, 0x2029),
        (0x202f, 0x202f),
        (0x205f, 0x205f),
        (0x3000, 0x3000),
    ];
    for code in 0..=0x10ffff_u32 {
        if let Some(character) = char::from_u32(code) {
            let listed = ranges
                .iter()
                .any(|(first, last)| *first <= code && code <= *last);
            assert_eq!(is_blank(&character.to_string()), listed, "U+{code:04X}");
        }
    }
}

#[test]
fn blank_notifications_inject_nothing() {
    assert!(notification_item("call".to_string(), " \n ".to_string()).is_none());
    assert!(notification_item("call".to_string(), String::new()).is_none());
}

#[test]
fn notifications_inject_their_untrimmed_text() {
    let item = notification_item("call".to_string(), " notice ".to_string()).expect("item");
    assert_eq!(item.id, None);
    assert_eq!(item.call_id, "call");
    assert_eq!(item.name, Some("exec".to_string()));
    assert_eq!(item.text, " notice ");
}

#[test]
fn notifications_fail_without_a_running_turn() {
    let cell_id = CellId::new("cell-7".to_string());
    assert_eq!(notification_result(&cell_id, None), Ok(()));
    assert_eq!(notification_result(&cell_id, Some(true)), Ok(()));
    assert_eq!(
        notification_result(&cell_id, Some(false)),
        Err("failed to inject exec notify message for cell cell-7: no active turn".to_string())
    );
}
