use evm_result::decimal::push_decimal;
use evm_result::U256;

fn text(limbs: [u64; 4]) -> String {
    let mut text = String::new();
    push_decimal(&mut text, U256 { limbs });
    text
}

#[test]
fn small_numbers() {
    for value in 0u64..1_000 {
        assert_eq!(text([value, 0, 0, 0]), value.to_string());
    }
}

#[test]
fn numbers_around_limb_bounds() {
    assert_eq!(text([u64::MAX, 0, 0, 0]), "18446744073709551615");
    assert_eq!(text([0, 1, 0, 0]), "18446744073709551616");
    assert_eq!(text([u64::MAX, u64::MAX, 0, 0]), u128::MAX.to_string());
    assert_eq!(text([0, 0, 1, 0]), "340282366920938463463374607431768211456");
    assert_eq!(
        text([0, 0, 0, 1]),
        "6277101735386680763835789423207666416102355444464034512896"
    );
}

#[test]
fn text_is_kept_before_the_number() {
    let mut text = "n = ".to_string();
    push_decimal(&mut text, U256::from_u64(100));
    assert_eq!(text, "n = 100");
}

#[test]
fn decimal_text_reads_back() {
    for value in vec![0u64, 9, 10, 99, 1_000_000_007, u64::MAX] {
        let mut text = String::new();
        push_decimal(&mut text, U256::from_u64(value));
        assert_eq!(text.parse::<u64>(), Ok(value));
    }
}

#[test]
fn division_by_ten() {
    let (quotient, remainder) = U256 { limbs: [5, 1, 0, 0] }.div_rem_ten();
    assert_eq!(quotient, U256 { limbs: [1844674407370955162, 0, 0, 0] });
    assert_eq!(remainder, 1);
    assert!(U256::from_u64(0).is_zero());
    assert!(!U256 { limbs: [0, 0, 0, 1] }.is_zero());
}
