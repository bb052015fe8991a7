use audio_link::text::{
    chars_of, decimal_text, is_whitespace, parse_number, push_hex, same_text, split_words, trimmed,
};

const SAMPLES: [&str; 12] = [
    "",
    " ",
    "START_UDP 5000\n",
    "  a  b\t\tc \r\n",
    "\u{2003}wide\u{3000}space\u{a0}",
    "no-space",
    "\u{1c}kept\u{1f}",
    "\u{85}next\u{2028}line\u{2029}",
    "a",
    "\n\n",
    "x\u{200b}y",
    "\u{1680}ogham\u{205f}math\u{202f}",
];

fn text(chars: &[char]) -> String {
    chars.iter().collect()
}

#[test]
fn whitespace_is_that_of_the_standard_library() {
    for n in 0..0x11_0000u32 {
        if let Some(c) = char::from_u32(n) {
            assert!(is_whitespace(c) == c.is_whitespace());
        }
    }
}

#[test]
fn trimming_is_that_of_the_standard_library() {
    for sample in SAMPLES {
        assert_eq!(text(&trimmed(&chars_of(sample))), sample.trim());
    }
}

#[test]
fn words_are_those_of_the_standard_library() {
    for sample in SAMPLES {
        let words: Vec<String> = split_words(&chars_of(sample)).iter().map(|w| text(w)).collect();
        let expected: Vec<String> = sample.split_whitespace().map(|w| w.to_string()).collect();
        assert_eq!(words, expected);
    }
}

#[test]
fn numbers_are_parsed_as_by_the_standard_library() {
    let inputs = [
        "", "0", "00", "7", "+7", "++7", "+", "-", "-0", "-7", "255", "256", "0255", "65535",
        "65536", "4294967295", "99999999999999999999", "1e3", " 1", "1 ", "1_000", "0x10", "٣",
    ];
    for input in inputs {
        let chars = chars_of(input);
        let small: Option<u32> = input.parse::<u8>().ok().map(|n| n as u32);
        let medium: Option<u32> = input.parse::<u16>().ok().map(|n| n as u32);
        assert!(parse_number(&chars, 255) == small, "{input} as u8");
        assert!(parse_number(&chars, 65535) == medium, "{input} as u16");
        assert!(parse_number(&chars, u32::MAX) == input.parse::<u32>().ok(), "{input} as u32");
    }
}

#[test]
fn every_port_is_parsed_back() {
    for port in 0..=65535u32 {
        let written = decimal_text(port as u64);
        assert_eq!(written, port.to_string());
        assert!(parse_number(&chars_of(&written), 65535) == Some(port));
    }
}

#[test]
fn large_numbers_are_written() {
    for n in [u64::MAX, u64::MAX - 1, 1_000_000_000_000, 10] {
        assert_eq!(decimal_text(n), n.to_string());
    }
}

#[test]
fn hexadecimal_keeps_its_width() {
    let mut out = String::new();
    push_hex(&mut out, 0xab, 4);
    push_hex(&mut out, 0x1_2345, 4);
    push_hex(&mut out, 0, 1);
    assert_eq!(out, "00AB23450");
}

#[test]
fn texts_are_compared_by_characters() {
    assert!(same_text(&chars_of("quit"), "quit"));
    assert!(!same_text(&chars_of("quit"), "quit "));
    assert!(!same_text(&chars_of("quit"), "Quit"));
}
