use axum_todo::text::{push_decimal, push_hex, push_json_string, push_uuid};

fn decimal(n: u64) -> String {
    let mut s = String::new();
    push_decimal(&mut s, n);
    s
}

#[test]
fn decimal_spells_numbers() {
    assert_eq!(decimal(0), "0");
    assert_eq!(decimal(7), "7");
    assert_eq!(decimal(10), "10");
    assert_eq!(decimal(1234567890), "1234567890");
    assert_eq!(decimal(u64::MAX), u64::MAX.to_string());
}

#[test]
fn decimal_appends_to_existing_text() {
    let mut s = String::from("exp=");
    push_decimal(&mut s, 86400);
    assert_eq!(s, "exp=86400");
}

#[test]
fn hex_keeps_the_last_digits() {
    let mut s = String::new();
    push_hex(&mut s, 0xabc, 2);
    assert_eq!(s, "bc");
    let mut t = String::new();
    push_hex(&mut t, 0x1f, 4);
    assert_eq!(t, "001f");
}

#[test]
fn uuid_text_matches_the_uuid_crate() {
    let ids: [u128; 4] = [
        0,
        u128::MAX,
        0x67e5_5044_10b1_426f_9247_bb68_0e5f_e0c8,
        0x0123_4567_89ab_cdef_0011_2233_4455_6677,
    ];
    for id in ids {
        let mut s = String::new();
        push_uuid(&mut s, id);
        assert_eq!(s, uuid::Uuid::from_u128(id).hyphenated().to_string());
    }
}

#[test]
fn json_string_matches_serde_json() {
    let samples = [
        "plain@example.com",
        "quote\"and\\backslash",
        "line\nbreak\ttab\rreturn",
        "\u{8}\u{c}\u{1}\u{1f}\u{7f}",
        "ünïcödé ✓",
        "",
    ];
    for sample in samples {
        let mut s = String::new();
        push_json_string(&mut s, sample);
        assert_eq!(s, serde_json::to_string(sample).unwrap());
    }
}
