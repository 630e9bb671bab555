use zqz::{floor_modulo, relu, round_modulo, Lookup};

#[test]
fn round_modulo_folds_into_the_domain() {
    assert_eq!(round_modulo(0, 8), 0);
    assert_eq!(round_modulo(7, 8), 7);
    assert_eq!(round_modulo(8, 8), 0);
    assert_eq!(round_modulo(105, 8), 1);
    assert_eq!(round_modulo(-1, 8), 7);
    assert_eq!(round_modulo(-8, 8), 0);
    assert_eq!(round_modulo(-13, 8), 3);
    assert_eq!(round_modulo(5, 1), 0);
}

#[test]
fn round_modulo_at_the_ends_of_the_machine() {
    assert_eq!(round_modulo(i128::MAX, 16), 15);
    assert_eq!(round_modulo(i128::MIN, 16), 0);
    assert_eq!(round_modulo(-1, u64::MAX), u64::MAX - 1);
}

#[test]
fn floor_modulo_takes_the_floor_first() {
    assert_eq!(floor_modulo(9, 4, 8), 2);
    assert_eq!(floor_modulo(49, 4, 8), 4);
    assert_eq!(floor_modulo(225, 4, 8), 0);
    assert_eq!(floor_modulo(-1, 2, 8), 7);
    assert_eq!(floor_modulo(-16, 2, 8), 0);
    assert_eq!(floor_modulo(7, 1, 8), 7);
}

#[test]
fn relu_keeps_what_is_positive() {
    assert_eq!(relu(-7), 0);
    assert_eq!(relu(0), 0);
    assert_eq!(relu(3), 3);
    assert_eq!(relu(i64::MIN), 0);
    assert_eq!(relu(i64::MAX), i64::MAX);
}

#[test]
fn tables_at_chosen_points() {
    assert_eq!(Lookup::RoundModulo.apply(11, 8), 3);
    assert_eq!(Lookup::RoundModulo.apply(-3, 8), 5);
    assert_eq!(Lookup::FloorQuarterSquare.apply(11, 8), 6);
    assert_eq!(Lookup::FloorQuarterSquare.apply(-3, 8), 2);
    assert_eq!(Lookup::FloorQuarterSquare.apply(14, 8), 1);
    assert_eq!(Lookup::Relu.apply(-3, 8), 0);
    assert_eq!(Lookup::Relu.apply(5, 8), 5);
    assert_eq!(Lookup::RoundProduct(3).apply(7, 8), 5);
    assert_eq!(Lookup::RoundProduct(0).apply(7, 8), 0);
    assert_eq!(Lookup::MaxWith(5).apply(3, 8), 5);
    assert_eq!(Lookup::MaxWith(13).apply(3, 8), 5);
    assert_eq!(Lookup::MaxWith(13).apply(6, 8), 6);
    assert_eq!(Lookup::MaxWith(2).apply(-4, 8), 2);
}

#[test]
fn tables_at_the_ends_of_the_machine() {
    assert_eq!(Lookup::FloorQuarterSquare.apply(i64::MIN, 8), 0);
    assert_eq!(Lookup::FloorQuarterSquare.apply(i64::MAX, 8), 0);
    assert_eq!(Lookup::RoundProduct(u64::MAX).apply(i64::MIN, 8), 0);
    assert_eq!(Lookup::RoundProduct(u64::MAX).apply(i64::MAX, 8), 1);
    assert_eq!(Lookup::MaxWith(u64::MAX).apply(i64::MAX, u64::MAX), i64::MAX as u64);
}

#[test]
fn difference_of_quarter_squares_is_the_product() {
    for a in 0..16i64 {
        for b in 0..16i64 {
            let high = Lookup::FloorQuarterSquare.apply(a + b, 16) as i64;
            let low = Lookup::FloorQuarterSquare.apply(a - b, 16) as i64;
            assert_eq!(
                Lookup::RoundModulo.apply(high - low, 16),
                ((a * b) % 16) as u64
            );
        }
    }
}
