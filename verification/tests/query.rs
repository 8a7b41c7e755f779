//! Page numbers and URL query reading, through the real `url` crate.

use bahamut::board::BoardCategoryId;
use bahamut::post::PostPageUrlParameter;
use bahamut::query::parse_u16;

#[test]
fn parses_decimal_page_numbers() {
    assert_eq!(parse_u16("0"), Some(0));
    assert_eq!(parse_u16("5"), Some(5));
    assert_eq!(parse_u16("1234"), Some(1234));
    assert_eq!(parse_u16("65535"), Some(65535));
}

#[test]
fn rejects_what_is_not_a_page_number() {
    assert_eq!(parse_u16(""), None);
    assert_eq!(parse_u16("12a"), None);
    assert_eq!(parse_u16("-3"), None);
    assert_eq!(parse_u16(" 7"), None);
    assert_eq!(parse_u16("65536"), None);
    assert_eq!(parse_u16("70000"), None);
}

#[test]
fn reads_thread_key_from_url() {
    let p = PostPageUrlParameter::from_url(
        "https://forum.gamer.com.tw/C.php?bsn=60076&snA=123&tnum=7",
    )
    .expect("a valid url");
    assert_eq!(p.board_id, "60076");
    assert_eq!(p.id, "123");
    assert_eq!(p.floor, 7);
}

#[test]
fn missing_keys_leave_fields_empty() {
    let p = PostPageUrlParameter::from_url("https://forum.gamer.com.tw/C.php?bsn=60076")
        .expect("a valid url");
    assert_eq!(p.board_id, "60076");
    assert_eq!(p.id, "");
    assert_eq!(p.floor, 0);
}

#[test]
fn repeated_keys_take_the_last_value() {
    let p = PostPageUrlParameter::from_url("https://x.invalid/C.php?snA=1&snA=2&bsn=9")
        .expect("a valid url");
    assert_eq!(p.id, "2");
    assert_eq!(p.board_id, "9");
}

#[test]
fn unreadable_floor_counts_as_zero() {
    let p = PostPageUrlParameter::from_url("https://x.invalid/C.php?bsn=1&snA=2&tnum=abc")
        .expect("a valid url");
    assert_eq!(p.floor, 0);
}

#[test]
fn query_values_are_percent_decoded() {
    // The `url` crate really is doing the splitting: the value comes
    // back decoded, not as the raw text handed in.
    let p = PostPageUrlParameter::from_url("https://x.invalid/C.php?snA=a%20b")
        .expect("a valid url");
    assert_eq!(p.id, "a b");
}

#[test]
fn invalid_url_is_refused() {
    assert!(PostPageUrlParameter::from_url("not a url").is_none());
    assert!(PostPageUrlParameter::from_url("").is_none());
}

#[test]
fn category_key_splits_board_and_sub_board() {
    let pairs = vec![
        ("bsn".to_string(), "60076".to_string()),
        ("subbsn".to_string(), "3".to_string()),
    ];
    let id = BoardCategoryId::from_query_pairs(&pairs);
    assert_eq!(id.id, "60076");
    assert_eq!(id.sub_id, "3");
}

#[test]
fn category_key_takes_last_occurrences() {
    let pairs = vec![
        ("subbsn".to_string(), "1".to_string()),
        ("bsn".to_string(), "7".to_string()),
        ("subbsn".to_string(), "2".to_string()),
    ];
    let id = BoardCategoryId::from_query_pairs(&pairs);
    assert_eq!(id.id, "7");
    assert_eq!(id.sub_id, "2");
}

#[test]
fn category_key_tolerates_absence() {
    let id = BoardCategoryId::from_query_pairs(&vec![]);
    assert_eq!(id.id, "");
    assert_eq!(id.sub_id, "");
}
