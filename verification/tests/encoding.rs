use konbini_core::crypto::encoding::{from_hex, to_hex, to_hex_cased, to_hex_upper, EncodingError};

#[test]
fn hex_of_known_bytes() {
    assert_eq!(to_hex(&[]), "");
    assert_eq!(to_hex_upper(&[]), "");
    assert_eq!(to_hex(&[0x00]), "00");
    assert_eq!(to_hex(&[0xbe, 0xef]), "beef");
    assert_eq!(to_hex_upper(&[0xbe, 0xef]), "BEEF");
    assert_eq!(to_hex(&[0x01, 0x23, 0x45, 0x67, 0x89, 0xab, 0xcd, 0xef]), "0123456789abcdef");
    assert_eq!(to_hex_upper(&[0x01, 0x23, 0x45, 0x67, 0x89, 0xab, 0xcd, 0xef]), "0123456789ABCDEF");
    assert_eq!(to_hex(b"kiwi"), "6b697769");
}

#[test]
fn bytes_of_known_hex() {
    assert_eq!(from_hex(""), Ok(Vec::new()));
    assert_eq!(from_hex("00"), Ok(vec![0]));
    assert_eq!(from_hex("beef"), Ok(vec![0xbe, 0xef]));
    assert_eq!(from_hex("BEEF"), Ok(vec![0xbe, 0xef]));
    assert_eq!(from_hex("bEeF"), Ok(vec![0xbe, 0xef]));
    assert_eq!(from_hex("0123456789abcdefABCDEF"), Ok(vec![
        0x01, 0x23, 0x45, 0x67, 0x89, 0xab, 0xcd, 0xef, 0xab, 0xcd, 0xef,
    ]));
    assert_eq!(from_hex("6b697769"), Ok(b"kiwi".to_vec()));
}

#[test]
fn hex_round_trip_over_every_byte() {
    let all: Vec<u8> = (0..=255u8).collect();
    assert_eq!(from_hex(&to_hex(&all)), Ok(all.clone()));
    assert_eq!(from_hex(&to_hex_upper(&all)), Ok(all.clone()));
    for b in 0..=255u8 {
        assert_eq!(from_hex(&to_hex(&[b])), Ok(vec![b]));
        assert_eq!(from_hex(&to_hex_upper(&[b])), Ok(vec![b]));
    }
    assert_eq!(from_hex(&to_hex(&[])), Ok(Vec::new()));
}

#[test]
fn text_with_another_character_is_refused() {
    assert_eq!(from_hex("zz"), Err(EncodingError));
    assert_eq!(from_hex("0g"), Err(EncodingError));
    assert_eq!(from_hex("g0"), Err(EncodingError));
    assert_eq!(from_hex("12 4"), Err(EncodingError));
    assert_eq!(from_hex("0x12"), Err(EncodingError));
    assert_eq!(from_hex("12\n"), Err(EncodingError));
    assert_eq!(from_hex("/0"), Err(EncodingError));
    assert_eq!(from_hex(":0"), Err(EncodingError));
    assert_eq!(from_hex("@0"), Err(EncodingError));
    assert_eq!(from_hex("G0"), Err(EncodingError));
    assert_eq!(from_hex("`0"), Err(EncodingError));
    assert_eq!(from_hex("é"), Err(EncodingError));
    assert_eq!(from_hex("aé"), Err(EncodingError));
    assert_eq!(from_hex("１２"), Err(EncodingError));
}

#[test]
fn text_of_odd_length_is_refused() {
    assert_eq!(from_hex("a"), Err(EncodingError));
    assert_eq!(from_hex("abc"), Err(EncodingError));
    assert_eq!(from_hex("00112"), Err(EncodingError));
}

#[test]
fn agrees_with_the_hex_crate() {
    let samples: Vec<Vec<u8>> = vec![
        Vec::new(),
        vec![0],
        vec![255],
        (0..=255u8).collect(),
        (0..=255u8).rev().collect(),
        b"some text".to_vec(),
    ];
    for bytes in &samples {
        assert_eq!(to_hex(bytes), hex::encode(bytes));
        assert_eq!(to_hex_upper(bytes), hex::encode_upper(bytes));
    }
    let texts = vec![
        "", "00", "ff", "FF", "fF", "0", "zz", "0g", "abc", "é", "aé", "éa", "12 4", "0123456789abcdefABCDEF",
        "\u{0}\u{0}", "deadbeef", "DEADBEEF", "dead beef",
    ];
    for text in texts {
        assert_eq!(from_hex(text).ok(), hex::decode(text).ok());
    }
}

#[test]
fn case_is_the_callers_choice() {
    assert_eq!(to_hex_cased(&[0xab, 0x0c], false), "ab0c");
    assert_eq!(to_hex_cased(&[0xab, 0x0c], true), "AB0C");
    assert_eq!(to_hex_cased(&[0x12, 0x34], false), to_hex_cased(&[0x12, 0x34], true));
    let all: Vec<u8> = (0..=255u8).collect();
    assert_eq!(to_hex_cased(&all, false), to_hex(&all));
    assert_eq!(to_hex_cased(&all, true), to_hex_upper(&all));
    assert_eq!(to_hex_cased(&all, true), to_hex(&all).to_uppercase());
}
