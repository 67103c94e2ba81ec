use headless_cli::text::u32_to_string;

#[test]
fn decimal_rendering_matches_std() {
    assert_eq!(u32_to_string(0), "0");
    assert_eq!(u32_to_string(7), "7");
    assert_eq!(u32_to_string(10), "10");
    assert_eq!(u32_to_string(100), "100");
    assert_eq!(u32_to_string(123456789), "123456789");
    assert_eq!(u32_to_string(4294967295), "4294967295");
    for n in [1u32, 9, 11, 99, 101, 1000, 65535, 1 << 31] {
        assert_eq!(u32_to_string(n), n.to_string());
    }
}
