use turret_arena::natural::Natural;

fn power_of_two(exponent: u32) -> Natural {
    let mut n = Natural::one();
    for _ in 0..exponent {
        n = n.double();
    }
    n
}

#[test]
fn zero_and_one_have_one_digit() {
    assert_eq!(Natural::zero().to_string(), "0");
    assert_eq!(Natural::one().to_string(), "1");
    assert_eq!(Natural::zero().digit_count(), 1);
    assert_eq!(Natural::one().digit_count(), 1);
    assert!(Natural::zero().is_zero());
    assert!(!Natural::one().is_zero());
}

#[test]
fn doubling_follows_the_powers_of_two() {
    for exponent in 0..128u32 {
        let expected = 1u128 << exponent;
        assert_eq!(power_of_two(exponent).to_string(), expected.to_string());
    }
}

#[test]
fn doubling_goes_on_past_the_machine_integers() {
    assert_eq!(power_of_two(128).to_string(), "340282366920938463463374607431768211456");
    assert_eq!(
        power_of_two(200).to_string(),
        "1606938044258990275541962092341162602522202993782792835301376"
    );
}

#[test]
fn digit_count_is_the_length_of_the_numeral() {
    for exponent in 0..200u32 {
        let n = power_of_two(exponent);
        assert_eq!(n.digit_count(), n.to_string().len());
    }
    assert_eq!(power_of_two(30).digit_count(), 10);
    assert_eq!(power_of_two(3).digit_count(), 1);
    assert_eq!(power_of_two(4).digit_count(), 2);
}

#[test]
fn mul_small_multiplies() {
    let seven = Natural::one().mul_small(7);
    assert_eq!(seven.to_string(), "7");
    assert_eq!(seven.mul_small(255).to_string(), "1785");
    assert_eq!(seven.mul_small(10).to_string(), "70");
    assert_eq!(seven.mul_small(1).to_string(), "7");
    let mut n = Natural::one();
    let mut expected: u128 = 1;
    for factor in [3u8, 9, 10, 99, 100, 255, 2, 17, 250, 1, 13] {
        n = n.mul_small(factor);
        expected *= factor as u128;
        assert_eq!(n.to_string(), expected.to_string());
    }
}

#[test]
fn mul_small_by_zero_and_of_zero_is_zero() {
    let n = power_of_two(70);
    assert_eq!(n.mul_small(0).to_string(), "0");
    assert!(n.mul_small(0).is_zero());
    assert_eq!(Natural::zero().mul_small(9).to_string(), "0");
    assert_eq!(Natural::zero().double().digit_count(), 1);
}

#[test]
fn clone_keeps_the_number() {
    let n = power_of_two(90);
    let copy = n.clone();
    assert_eq!(copy.to_string(), n.to_string());
    assert_eq!(copy.double().to_string(), power_of_two(91).to_string());
    assert_eq!(n.to_string(), "1237940039285380274899124224");
}
