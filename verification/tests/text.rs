use wow_network::text::{append_decimal, first_field_i32, first_field_u32};

#[test]
fn decimals_are_written_without_leading_zeros() {
    for n in [0u32, 7, 10, 99, 100, 123_456, u32::MAX] {
        let mut text = String::from("n=");
        append_decimal(&mut text, n);
        assert_eq!(text, format!("n={n}"));
        assert_eq!(first_field_u32(&text[2..]), n);
    }
}

#[test]
fn first_fields_parse_like_the_standard_library() {
    assert_eq!(first_field_u32("\t12 34"), 12);
    assert_eq!(first_field_u32("-12"), 0);
    assert_eq!(first_field_i32("-12 0"), -12);
    assert_eq!(first_field_i32("+"), 0);
    assert_eq!(first_field_i32("2147483647"), i32::MAX);
}
