use ime_alt::text::{append_decimal, encode_utf16};

fn std_utf16(s: &str) -> Vec<u16> {
    s.encode_utf16().chain(std::iter::once(0)).collect()
}

#[test]
fn encode_ascii() {
    assert_eq!(encode_utf16("ime-alt"), std_utf16("ime-alt"));
    assert_eq!(encode_utf16("ImeAltClass").len(), 12);
    assert_eq!(encode_utf16(""), vec![0]);
}

#[test]
fn encode_non_ascii() {
    assert_eq!(encode_utf16("あlt"), vec![0x3042, 0x6C, 0x74, 0]);
    assert_eq!(encode_utf16("CapsLock → Ctrl"), std_utf16("CapsLock → Ctrl"));
}

#[test]
fn encode_surrogate_pairs() {
    assert_eq!(encode_utf16("😀"), vec![0xD83D, 0xDE00, 0]);
    assert_eq!(encode_utf16("a\u{10FFFF}\u{10000}b"), std_utf16("a\u{10FFFF}\u{10000}b"));
}

#[test]
fn decimal_numbers() {
    for n in [0u32, 7, 9, 10, 99, 100, 1223, 4096, 4294967295] {
        let mut s = String::from("x=");
        append_decimal(&mut s, n);
        assert_eq!(s, format!("x={}", n));
    }
}
