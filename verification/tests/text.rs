use audyo::text::{parse_u32, push_decimal, push_decimal_pad2};

#[test]
fn decimal_writes_numbers_without_padding() {
    for (n, expected) in [(0u64, "0"), (7, "7"), (10, "10"), (404, "404"), (u64::MAX, "18446744073709551615")] {
        let mut out = String::from("n=");
        push_decimal(&mut out, n);
        assert_eq!(out, format!("n={}", expected));
    }
}

#[test]
fn decimal_pad2_pads_below_ten() {
    for (n, expected) in [(0u64, "00"), (9, "09"), (10, "10"), (59, "59"), (123, "123")] {
        let mut out = String::new();
        push_decimal_pad2(&mut out, n);
        assert_eq!(out, expected);
    }
}

#[test]
fn parse_u32_agrees_with_std() {
    let samples = [
        "", "+", "-", "0", "+0", "-0", "007", "212", "+212", "++1", "1+", " 1", "1 ", "1_000",
        "4294967295", "4294967296", "99999999999999999999999", "12a", "a12", "١٢", "1.5", "0x10",
        "+4294967295", "00000000000000000000001",
    ];
    for sample in samples {
        assert_eq!(parse_u32(sample), sample.parse::<u32>().ok(), "sample {:?}", sample);
    }
}
