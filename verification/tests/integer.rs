use form_value::FromFormValue;

#[test]
fn u8_round_trips_every_value() {
    for value in u8::MIN..=u8::MAX {
        let text = value.to_string();
        assert_eq!(<u8 as FromFormValue>::from_form_value(&text), Ok(value));
    }
}

#[test]
fn i8_round_trips_every_value() {
    for value in i8::MIN..=i8::MAX {
        let text = value.to_string();
        assert_eq!(<i8 as FromFormValue>::from_form_value(&text), Ok(value));
    }
}

#[test]
fn u16_round_trips_its_bounds() {
    for value in [u16::MIN, 1, 9, 10, 99, 100, 12345, u16::MAX - 1, u16::MAX] {
        let text = value.to_string();
        assert_eq!(<u16 as FromFormValue>::from_form_value(&text), Ok(value));
    }
}

#[test]
fn i16_round_trips_its_bounds() {
    for value in [i16::MIN, i16::MIN + 1, -100, -1, 0, 1, 100, i16::MAX - 1, i16::MAX] {
        let text = value.to_string();
        assert_eq!(<i16 as FromFormValue>::from_form_value(&text), Ok(value));
    }
}

#[test]
fn u32_round_trips_its_bounds() {
    for value in [u32::MIN, 1, 4_000_000_000, u32::MAX - 1, u32::MAX] {
        let text = value.to_string();
        assert_eq!(<u32 as FromFormValue>::from_form_value(&text), Ok(value));
    }
}

#[test]
fn i32_round_trips_its_bounds() {
    for value in [i32::MIN, i32::MIN + 1, -1, 0, 1, i32::MAX - 1, i32::MAX] {
        let text = value.to_string();
        assert_eq!(<i32 as FromFormValue>::from_form_value(&text), Ok(value));
    }
}

#[test]
fn u64_round_trips_its_bounds() {
    for value in [u64::MIN, 1, 10_000_000_000_000_000_000, u64::MAX - 1, u64::MAX] {
        let text = value.to_string();
        assert_eq!(<u64 as FromFormValue>::from_form_value(&text), Ok(value));
    }
}

#[test]
fn i64_round_trips_its_bounds() {
    for value in [i64::MIN, i64::MIN + 1, -1, 0, 1, i64::MAX - 1, i64::MAX] {
        let text = value.to_string();
        assert_eq!(<i64 as FromFormValue>::from_form_value(&text), Ok(value));
    }
}

#[test]
fn usize_round_trips_its_bounds() {
    for value in [usize::MIN, 1, 21, usize::MAX - 1, usize::MAX] {
        let text = value.to_string();
        assert_eq!(<usize as FromFormValue>::from_form_value(&text), Ok(value));
    }
}

#[test]
fn isize_round_trips_its_bounds() {
    for value in [isize::MIN, isize::MIN + 1, -1, 0, 1, isize::MAX - 1, isize::MAX] {
        let text = value.to_string();
        assert_eq!(<isize as FromFormValue>::from_form_value(&text), Ok(value));
    }
}

#[test]
fn integer_reads_exact_values() {
    assert_eq!(<u8 as FromFormValue>::from_form_value("0"), Ok(0));
    assert_eq!(<u8 as FromFormValue>::from_form_value("255"), Ok(255));
    assert_eq!(<i8 as FromFormValue>::from_form_value("-128"), Ok(-128));
    assert_eq!(<i8 as FromFormValue>::from_form_value("127"), Ok(127));
    assert_eq!(<u16 as FromFormValue>::from_form_value("65535"), Ok(65535));
    assert_eq!(<i16 as FromFormValue>::from_form_value("-32768"), Ok(-32768));
    assert_eq!(<u32 as FromFormValue>::from_form_value("4294967295"), Ok(4294967295));
    assert_eq!(<i32 as FromFormValue>::from_form_value("-2147483648"), Ok(-2147483648));
    assert_eq!(
        <u64 as FromFormValue>::from_form_value("18446744073709551615"),
        Ok(18446744073709551615)
    );
    assert_eq!(
        <i64 as FromFormValue>::from_form_value("-9223372036854775808"),
        Ok(-9223372036854775808)
    );
    assert_eq!(<usize as FromFormValue>::from_form_value("21"), Ok(21));
    assert_eq!(<isize as FromFormValue>::from_form_value("-21"), Ok(-21));
}

#[test]
fn integer_out_of_range_is_rejected_with_itself() {
    assert_eq!(<u8 as FromFormValue>::from_form_value("256"), Err("256"));
    assert_eq!(<i8 as FromFormValue>::from_form_value("128"), Err("128"));
    assert_eq!(<i8 as FromFormValue>::from_form_value("-129"), Err("-129"));
    assert_eq!(<u16 as FromFormValue>::from_form_value("65536"), Err("65536"));
    assert_eq!(<i16 as FromFormValue>::from_form_value("32768"), Err("32768"));
    assert_eq!(<i16 as FromFormValue>::from_form_value("-32769"), Err("-32769"));
    assert_eq!(<u32 as FromFormValue>::from_form_value("4294967296"), Err("4294967296"));
    assert_eq!(<i32 as FromFormValue>::from_form_value("2147483648"), Err("2147483648"));
    assert_eq!(<i32 as FromFormValue>::from_form_value("-2147483649"), Err("-2147483649"));
    assert_eq!(
        <u64 as FromFormValue>::from_form_value("18446744073709551616"),
        Err("18446744073709551616")
    );
    assert_eq!(
        <i64 as FromFormValue>::from_form_value("9223372036854775808"),
        Err("9223372036854775808")
    );
    assert_eq!(
        <i64 as FromFormValue>::from_form_value("-9223372036854775809"),
        Err("-9223372036854775809")
    );
    assert_eq!(
        <usize as FromFormValue>::from_form_value("340282366920938463463374607431768211456"),
        Err("340282366920938463463374607431768211456")
    );
    assert_eq!(
        <isize as FromFormValue>::from_form_value("-340282366920938463463374607431768211456"),
        Err("-340282366920938463463374607431768211456")
    );
}

#[test]
fn integer_rejects_text_that_is_no_number() {
    for raw in ["", "abc", "12a", "a12", "1 2", " 12", "12 ", "1_000", "0x10", "1.0", "1e3", "٣"] {
        assert_eq!(<u8 as FromFormValue>::from_form_value(raw), Err(raw));
        assert_eq!(<i8 as FromFormValue>::from_form_value(raw), Err(raw));
        assert_eq!(<u16 as FromFormValue>::from_form_value(raw), Err(raw));
        assert_eq!(<i16 as FromFormValue>::from_form_value(raw), Err(raw));
        assert_eq!(<u32 as FromFormValue>::from_form_value(raw), Err(raw));
        assert_eq!(<i32 as FromFormValue>::from_form_value(raw), Err(raw));
        assert_eq!(<u64 as FromFormValue>::from_form_value(raw), Err(raw));
        assert_eq!(<i64 as FromFormValue>::from_form_value(raw), Err(raw));
        assert_eq!(<usize as FromFormValue>::from_form_value(raw), Err(raw));
        assert_eq!(<isize as FromFormValue>::from_form_value(raw), Err(raw));
    }
}

#[test]
fn integer_rejects_a_sign_without_digits() {
    assert_eq!(<u32 as FromFormValue>::from_form_value("+"), Err("+"));
    assert_eq!(<u32 as FromFormValue>::from_form_value("-"), Err("-"));
    assert_eq!(<i32 as FromFormValue>::from_form_value("+"), Err("+"));
    assert_eq!(<i32 as FromFormValue>::from_form_value("-"), Err("-"));
}

#[test]
fn integer_rejects_two_signs() {
    assert_eq!(<i32 as FromFormValue>::from_form_value("+-5"), Err("+-5"));
    assert_eq!(<i32 as FromFormValue>::from_form_value("-+5"), Err("-+5"));
    assert_eq!(<i32 as FromFormValue>::from_form_value("--5"), Err("--5"));
    assert_eq!(<i32 as FromFormValue>::from_form_value("++5"), Err("++5"));
}

#[test]
fn integer_takes_a_plus_sign() {
    assert_eq!(<u8 as FromFormValue>::from_form_value("+7"), Ok(7));
    assert_eq!(<i8 as FromFormValue>::from_form_value("+7"), Ok(7));
    assert_eq!(<u64 as FromFormValue>::from_form_value("+0"), Ok(0));
}

#[test]
fn integer_takes_leading_zeros() {
    assert_eq!(<u8 as FromFormValue>::from_form_value("007"), Ok(7));
    assert_eq!(<u8 as FromFormValue>::from_form_value("0000000000000000000000255"), Ok(255));
    assert_eq!(<i8 as FromFormValue>::from_form_value("-0000000000000000000000128"), Ok(-128));
    assert_eq!(
        <u8 as FromFormValue>::from_form_value("0000000000000000000000256"),
        Err("0000000000000000000000256")
    );
}

#[test]
fn unsigned_integer_takes_no_minus_sign() {
    assert_eq!(<u8 as FromFormValue>::from_form_value("-1"), Err("-1"));
    assert_eq!(<u8 as FromFormValue>::from_form_value("-0"), Err("-0"));
    assert_eq!(<u16 as FromFormValue>::from_form_value("-0"), Err("-0"));
    assert_eq!(<u32 as FromFormValue>::from_form_value("-0"), Err("-0"));
    assert_eq!(<u64 as FromFormValue>::from_form_value("-0"), Err("-0"));
    assert_eq!(<usize as FromFormValue>::from_form_value("-0"), Err("-0"));
}

#[test]
fn signed_integer_reads_minus_zero_as_zero() {
    assert_eq!(<i8 as FromFormValue>::from_form_value("-0"), Ok(0));
    assert_eq!(<i16 as FromFormValue>::from_form_value("-0"), Ok(0));
    assert_eq!(<i32 as FromFormValue>::from_form_value("-0"), Ok(0));
    assert_eq!(<i64 as FromFormValue>::from_form_value("-0"), Ok(0));
    assert_eq!(<isize as FromFormValue>::from_form_value("-0"), Ok(0));
}

#[test]
fn integer_rejection_is_the_raw_slice_itself() {
    let raw = String::from("twelve");
    let rejected = <u32 as FromFormValue>::from_form_value(&raw).unwrap_err();
    assert!(std::ptr::eq(rejected, raw.as_str()));
}

#[test]
fn integer_absent_is_required() {
    assert_eq!(<u8 as FromFormValue>::default(), None);
    assert_eq!(<u16 as FromFormValue>::default(), None);
    assert_eq!(<u32 as FromFormValue>::default(), None);
    assert_eq!(<u64 as FromFormValue>::default(), None);
    assert_eq!(<usize as FromFormValue>::default(), None);
    assert_eq!(<i8 as FromFormValue>::default(), None);
    assert_eq!(<i16 as FromFormValue>::default(), None);
    assert_eq!(<i32 as FromFormValue>::default(), None);
    assert_eq!(<i64 as FromFormValue>::default(), None);
    assert_eq!(<isize as FromFormValue>::default(), None);
}

#[test]
fn integer_converts_the_same_way_twice() {
    for raw in ["0", "42", "-42", "+42", "999999999999", "", "x"] {
        assert_eq!(
            <i32 as FromFormValue>::from_form_value(raw),
            <i32 as FromFormValue>::from_form_value(raw)
        );
        assert_eq!(
            <u64 as FromFormValue>::from_form_value(raw),
            <u64 as FromFormValue>::from_form_value(raw)
        );
    }
}
