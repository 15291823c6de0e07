use rtxch_lib::fx::SCALE;
use rtxch_lib::utils::parse_values_u64;
use rtxch_lib::utils::parse_values_usize;
use rtxch_lib::utils::color_to_256;

#[test]
fn parse_a_list_of_u64_values() {
    let input = String::from("1, 22, 333");
    assert_eq!(parse_values_u64(&input), vec![1u64, 22, 333]);
}

#[test]
fn parse_a_single_u64_value() {
    let input = String::from("7");
    assert_eq!(parse_values_u64(&input), vec![7u64]);
}

#[test]
fn parse_a_large_u64_value() {
    let input = String::from("18446744073709551615, 0");
    assert_eq!(parse_values_u64(&input), vec![u64::MAX, 0]);
}

#[test]
fn parse_a_list_of_usize_values() {
    let input = String::from("500, 500, 10");
    assert_eq!(parse_values_usize(&input), vec![500usize, 500, 10]);
}

#[test]
fn color_channel_to_byte() {
    assert_eq!(color_to_256(0), 0);
    assert_eq!(color_to_256(SCALE), 255);
    assert_eq!(color_to_256(500_000), 128);
    assert_eq!(color_to_256(-300_000), 0);
    assert_eq!(color_to_256(2 * SCALE), 255);
    assert_eq!(color_to_256(100_000), 26);
}
