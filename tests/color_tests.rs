use alacritty_themes::color::{decode_hex, expand_shorthand, hex_to_rgb, HexError, Rgb};

fn rgb(r: u8, g: u8, b: u8) -> Rgb {
    Rgb { r, g, b }
}

#[test]
fn six_digits_with_and_without_prefix() {
    assert_eq!(hex_to_rgb("#ff8000"), rgb(255, 128, 0));
    assert_eq!(hex_to_rgb("0x1a2b3c"), rgb(0x1a, 0x2b, 0x3c));
    assert_eq!(hex_to_rgb("1A2B3C"), rgb(0x1a, 0x2b, 0x3c));
    assert_eq!(hex_to_rgb("#282a36"), rgb(0x28, 0x2a, 0x36));
}

#[test]
fn short_tokens_are_black() {
    assert_eq!(hex_to_rgb(""), rgb(0, 0, 0));
    assert_eq!(hex_to_rgb("f"), rgb(0, 0, 0));
    assert_eq!(hex_to_rgb("#f"), rgb(0, 0, 0));
    assert_eq!(hex_to_rgb("0x"), rgb(0, 0, 0));
}

#[test]
fn garbage_is_black() {
    assert_eq!(hex_to_rgb("zzzzzz"), rgb(0, 0, 0));
    assert_eq!(hex_to_rgb("###"), rgb(0, 0, 0));
    assert_eq!(hex_to_rgb("#1234567"), rgb(0, 0, 0));
    assert_eq!(hex_to_rgb("#ééé"), rgb(0, 0, 0));
    assert_eq!(hex_to_rgb("not a colour at all"), rgb(0, 0, 0));
}

#[test]
fn longer_even_tokens_use_the_first_three_pairs() {
    assert_eq!(hex_to_rgb("#11223344"), rgb(0x11, 0x22, 0x33));
}

#[test]
fn shorthand_repeats_the_first_digit() {
    let abc: Vec<char> = "abcaaa".chars().collect();
    assert_eq!(expand_shorthand("abc"), abc);
    let f: Vec<char> = "ffffff".chars().collect();
    assert_eq!(expand_shorthand("f"), f);
    let six: Vec<char> = "123456".chars().collect();
    assert_eq!(expand_shorthand("123456"), six);
    assert_eq!(expand_shorthand(""), Vec::<char>::new());
    assert_eq!(hex_to_rgb("abc"), rgb(0xab, 0xca, 0xaa));
    assert_eq!(hex_to_rgb("#abc"), rgb(0xab, 0xca, 0xaa));
}

#[test]
fn decode_hex_pairs_and_errors() {
    assert_eq!(decode_hex("00ff10"), Ok(vec![0, 255, 16]));
    assert_eq!(decode_hex(""), Ok(vec![]));
    assert_eq!(decode_hex("abc"), Err(HexError::OddLength));
    assert_eq!(decode_hex("zz"), Err(HexError::InvalidDigit));
    assert_eq!(decode_hex("+f"), Err(HexError::InvalidDigit));
}
