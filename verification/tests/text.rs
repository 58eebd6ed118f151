use webserver::text::{characters, decimal, ends_with, parse, simple};

#[test]
fn characters_are_those_of_the_text() {
    assert_eq!(characters("aé漢"), vec!['a', 'é', '漢']);
    assert_eq!(characters(""), Vec::<char>::new());
}

#[test]
fn suffixes() {
    let cases = [
        ("readme.md", ".md"),
        (".md", ".md"),
        ("md", ".md"),
        ("readme.mdx", ".md"),
        ("", ".md"),
        ("é.md", ".md"),
        ("anything", ""),
        ("", ""),
        ("a.markdown", ".mdown"),
    ];
    for (text, suffix) in cases {
        assert_eq!(ends_with(text, suffix), text.ends_with(suffix), "{} {}", text, suffix);
    }
}

#[test]
fn numbers_are_read_as_the_standard_library_reads_them() {
    let cases = [
        "000000", "123456", "+12345", "-12345", "+", "-", "", " 12345", "12345 ", "12 456", "1_0000",
        "0x1234", "++1234", "+1+2", "18446744073709551615", "18446744073709551616",
        "99999999999999999999", "184467440737095516150", "00000000000000000000000000007",
        "+18446744073709551615", "+18446744073709551616", "１２３", "12345a",
    ];
    for case in cases {
        assert_eq!(parse(case), case.parse::<u64>().ok(), "{}", case);
    }
}

#[test]
fn numbers_are_written_as_the_standard_library_writes_them() {
    for n in [0, 7, 9, 10, 11, 99, 100, 123456, 1_000_000, u64::MAX - 1, u64::MAX] {
        assert_eq!(decimal(n), n.to_string());
    }
}

#[test]
fn written_numbers_read_back() {
    for n in [0, 5, 10, 999_999, 1_000_000, u64::MAX] {
        assert_eq!(parse(&decimal(n)), Some(n));
    }
}

#[test]
fn simple_form_is_hexadecimal() {
    assert_eq!(simple(0), "00000000000000000000000000000000");
    assert_eq!(simple(0x936da01f_9abd_4d9d_80c7_02af85c822a8), "936da01f9abd4d9d80c702af85c822a8");
    assert_eq!(simple(u128::MAX), "ffffffffffffffffffffffffffffffff");
    assert_eq!(simple(1 << 124), "10000000000000000000000000000000");
    for id in [1u128, 15, 16, 255, 256, 1 << 64, u128::MAX - 1] {
        assert_eq!(simple(id), format!("{:032x}", id));
    }
}

#[test]
fn simple_forms_differ() {
    assert_ne!(simple(1), simple(16));
    assert_eq!(simple(1).len(), simple(u128::MAX).len());
}
