use game_basics::baseball::{
    possible_digits, secret_from_digits, SecretNumberSetupPlugin, ThreeDigitNumber,
};

#[test]
fn the_pool_holds_the_ten_digits_in_order() {
    assert_eq!(possible_digits(), vec![0, 1, 2, 3, 4, 5, 6, 7, 8, 9]);
}

#[test]
fn the_secret_is_the_first_three_digits() {
    let secret = secret_from_digits(&vec![5, 3, 8, 1, 0, 9, 2, 4, 6, 7]);
    assert_eq!(secret.value, ThreeDigitNumber([5, 3, 8]));
    let secret = secret_from_digits(&vec![7, 7, 1]);
    assert_eq!(secret.value, ThreeDigitNumber([7, 7, 1]));
}

#[test]
fn too_few_digits_give_the_fallback_secret() {
    assert_eq!(secret_from_digits(&vec![]).value, ThreeDigitNumber([0, 0, 0]));
    assert_eq!(secret_from_digits(&vec![4]).value, ThreeDigitNumber([0, 0, 0]));
    assert_eq!(secret_from_digits(&vec![4, 9]).value, ThreeDigitNumber([0, 0, 0]));
}

#[test]
fn a_fresh_secret_has_three_different_digits() {
    for _ in 0..500 {
        let secret = SecretNumberSetupPlugin.build();
        let d = secret.value.0;
        assert!(d[0] <= 9 && d[1] <= 9 && d[2] <= 9);
        assert!(d[0] != d[1] && d[0] != d[2] && d[1] != d[2]);
    }
}

#[test]
fn fresh_secrets_are_shuffled() {
    let unshuffled = ThreeDigitNumber([0, 1, 2]);
    let differing =
        (0..200).filter(|_| SecretNumberSetupPlugin.build().value != unshuffled).count();
    assert!(differing > 0);
}

#[test]
fn fresh_secrets_vary() {
    let first = SecretNumberSetupPlugin.build().value;
    let varied = (0..200).any(|_| SecretNumberSetupPlugin.build().value != first);
    assert!(varied);
}
