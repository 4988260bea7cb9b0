use print_hex::numeral::str_to_num;

#[test]
fn decimal_numerals() {
    assert_eq!(str_to_num("0"), Some(0));
    assert_eq!(str_to_num("7"), Some(7));
    assert_eq!(str_to_num("16"), Some(16));
    assert_eq!(str_to_num("18"), Some(18));
    assert_eq!(str_to_num("1024"), Some(1024));
    assert_eq!(str_to_num("90"), Some(90));
    assert_eq!(str_to_num("18446744073709551615"), Some(u64::MAX));
}

#[test]
fn hexadecimal_numerals() {
    assert_eq!(str_to_num("0x0"), Some(0));
    assert_eq!(str_to_num("0x10"), Some(16));
    assert_eq!(str_to_num("0X10"), Some(16));
    assert_eq!(str_to_num("0xff"), Some(255));
    assert_eq!(str_to_num("0xFF"), Some(255));
    assert_eq!(str_to_num("0xaBcD"), Some(0xabcd));
    assert_eq!(str_to_num("0x0000000000000000000012"), Some(0x12));
    assert_eq!(str_to_num("0xffffffffffffffff"), Some(u64::MAX));
}

#[test]
fn binary_numerals() {
    assert_eq!(str_to_num("0b0"), Some(0));
    assert_eq!(str_to_num("0b1"), Some(1));
    assert_eq!(str_to_num("0b101"), Some(5));
    assert_eq!(str_to_num("0B1000"), Some(8));
    assert_eq!(
        str_to_num("0b1111111111111111111111111111111111111111111111111111111111111111"),
        Some(u64::MAX)
    );
}

#[test]
fn octal_numerals() {
    assert_eq!(str_to_num("00"), Some(0));
    assert_eq!(str_to_num("07"), Some(7));
    assert_eq!(str_to_num("017"), Some(15));
    assert_eq!(str_to_num("0777"), Some(511));
    assert_eq!(str_to_num("01777777777777777777777"), Some(u64::MAX));
}

#[test]
fn what_is_no_numeral() {
    for token in [
        "", "xyz", "x", "0x", "0X", "0b", "0B", "0xg", "0x1g", "0b2", "0b12", "08", "019", "12a",
        "a12", "1 2", " 12", "12 ", "+5", "-1", "1_000", "0o17", "1.5", "0x-1", "١٢", "１２",
        "0x 1", "ff",
    ] {
        assert_eq!(str_to_num(token), None, "{:?}", token);
    }
}

#[test]
fn numbers_beyond_64_bits_are_no_byte_count() {
    assert_eq!(str_to_num("18446744073709551616"), None);
    assert_eq!(str_to_num("99999999999999999999"), None);
    assert_eq!(str_to_num("184467440737095516150"), None);
    assert_eq!(str_to_num("0x10000000000000000"), None);
    assert_eq!(str_to_num("0xffffffffffffffff0"), None);
    assert_eq!(str_to_num("02000000000000000000000"), None);
    assert_eq!(
        str_to_num("0b10000000000000000000000000000000000000000000000000000000000000000"),
        None
    );
    assert_eq!(str_to_num("18446744073709551616x"), None);
}

#[test]
fn agrees_with_the_standard_parser() {
    for v in [0u64, 1, 2, 7, 8, 9, 10, 15, 16, 17, 255, 256, 4095, 65536, u64::MAX / 3, u64::MAX] {
        assert_eq!(str_to_num(&format!("{}", v)), Some(v));
        assert_eq!(str_to_num(&format!("0x{:x}", v)), Some(v));
        assert_eq!(str_to_num(&format!("0X{:X}", v)), Some(v));
        assert_eq!(str_to_num(&format!("0b{:b}", v)), Some(v));
        assert_eq!(str_to_num(&format!("0{:o}", v)), Some(v));
    }
}
