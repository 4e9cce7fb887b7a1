use lofi_radio::text::{decimal_len, decimal_string, push_decimal};

#[test]
fn decimal_string_matches_the_usual_numeral() {
    for n in [0u64, 1, 9, 10, 11, 99, 100, 101, 12345, 4294967295, 18446744073709551615] {
        assert_eq!(decimal_string(n), n.to_string());
        assert_eq!(decimal_len(n), n.to_string().len());
    }
    for n in 0u64..2000 {
        assert_eq!(decimal_string(n), n.to_string());
    }
}

#[test]
fn push_decimal_appends() {
    let mut out = String::from("n=");
    push_decimal(&mut out, 407);
    assert_eq!(out, "n=407");
}
