use cli_toolbox::text::{
    blank, chars_of, clean_line, concat2, concat3, decimal_text, is_space_char, join, pad_right,
    parse_index, parse_number, precedes, same_text, trim,
};

#[test]
fn concatenation() {
    assert_eq!(concat2("ab", "cd"), "abcd");
    assert_eq!(concat2("", ""), "");
    assert_eq!(concat3("a", "é", "c"), "aéc");
}

#[test]
fn characters() {
    assert_eq!(chars_of("aé\r"), vec!['a', 'é', '\r']);
    assert_eq!(chars_of(""), Vec::<char>::new());
}

#[test]
fn equality_of_text() {
    assert!(same_text("bench", "bench"));
    assert!(!same_text("bench", "Bench"));
    assert!(!same_text("bench", "bench "));
    assert!(same_text("", ""));
    assert!(!same_text("é", "e"));
}

#[test]
fn order_of_text_is_that_of_str() {
    let samples = ["", "a", "A", "ab", "abc", "b", "é", "z", "zz", "10", "9", "日本", "\u{10000}"];
    for a in samples.iter() {
        for b in samples.iter() {
            assert_eq!(precedes(a, b), a < b, "{:?} < {:?}", a, b);
        }
    }
}

#[test]
fn decimal_numerals() {
    assert_eq!(decimal_text(0), "0");
    assert_eq!(decimal_text(7), "7");
    assert_eq!(decimal_text(10), "10");
    assert_eq!(decimal_text(1234567890), "1234567890");
    assert_eq!(decimal_text(u64::MAX), "18446744073709551615");
}

#[test]
fn padding() {
    assert_eq!(pad_right("0)", 5), "0)   ");
    assert_eq!(pad_right("12345", 5), "12345");
    assert_eq!(pad_right("123456", 5), "123456");
    assert_eq!(pad_right("", 3), "   ");
    assert_eq!(pad_right("éé", 4), "éé  ");
    assert_eq!(pad_right("name", 30), format!("{: <30}", "name"));
}

#[test]
fn joining() {
    let none: Vec<String> = vec![];
    assert_eq!(join(&none, ", "), "");
    assert_eq!(join(&vec!["a".to_string()], ", "), "a");
    assert_eq!(join(&vec!["a".to_string(), "b".to_string(), "c".to_string()], ", "), "a, b, c");
    assert_eq!(join(&vec!["".to_string(), "".to_string()], "-"), "-");
}

#[test]
fn carriage_returns_are_dropped() {
    assert_eq!(clean_line("3\r"), "3");
    assert_eq!(clean_line("\rqu\rit\r\r"), "quit");
    assert_eq!(clean_line(" bench "), " bench ");
    assert_eq!(clean_line(""), "");
    assert_eq!(clean_line("\r"), "");
}

#[test]
fn indices_are_read_as_str_parse_reads_them() {
    let samples = [
        "0", "7", "007", "+5", "+", "", "-0", "-1", " 1", "1 ", "1_0", "12a", "++1", "+-1",
        "18446744073709551615", "18446744073709551616", "4294967295", "4294967296",
        "99999999999999999999999", "000000000000000000000000001", "٣", "1.0",
    ];
    for s in samples.iter() {
        assert_eq!(parse_index(s), s.parse::<usize>().ok(), "{:?}", s);
    }
    assert_eq!(parse_index("42"), Some(42));
    assert_eq!(parse_index("bench"), None);
}

#[test]
fn numbers_are_read_as_str_parse_reads_them() {
    let samples = [
        "0", "-0", "+0", "7", "-7", "+7", "-", "+", "", "2147483647", "2147483648",
        "-2147483648", "-2147483649", "--1", "+-1", "-+1", " 1", "1 ", "0x10", "00012", "-00012",
        "99999999999999999999",
    ];
    for s in samples.iter() {
        assert_eq!(parse_number(s), s.parse::<i32>().ok(), "{:?}", s);
    }
    assert_eq!(parse_number("-15"), Some(-15));
}

#[test]
fn white_space_is_that_of_char() {
    for code in 0..=0x10FFFFu32 {
        if let Some(c) = char::from_u32(code) {
            assert_eq!(is_space_char(c), c.is_whitespace(), "U+{:04X}", code);
        }
    }
}

#[test]
fn trimming_is_that_of_str() {
    let samples = [
        "", " ", "   ", "bench", " bench", "bench ", " bench ", "\tbench\r\n", "a b", " a b ",
        "\u{a0}x\u{3000}", " \u{2003} ", "x", " x", "x ", "\r", "é ", " \u{200b} ",
    ];
    for s in samples.iter() {
        assert_eq!(trim(s), s.trim(), "{:?}", s);
        assert_eq!(blank(s), s.trim().is_empty(), "{:?}", s);
    }
    assert_eq!(trim("  3 "), "3");
}
