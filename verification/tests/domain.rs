use zqz::parameters::{bootstrapping_file, keyswitching_file, secret_file};
use zqz::text::decimal_text;
use zqz::{Encoder, Error, KeyRecipe, LweSetting, Parameters, RlweSetting};

const RLWE: RlweSetting = RlweSetting {
    polynomial_size: 1024,
    dimension: 1,
    log2_std_dev: -25,
};

const LWE: LweSetting = LweSetting {
    dimension: 750,
    log2_std_dev: -18,
};

#[test]
fn encoder_of_three_bits() {
    let encoder = Encoder::new(0, 7, 3, 2).unwrap();
    assert_eq!(encoder.lower_bound(), 0);
    assert_eq!(encoder.upper_bound(), 7);
    assert_eq!(encoder.precision_bits(), 3);
    assert_eq!(encoder.padding_bits(), 2);
    assert_eq!(encoder.modulo(), 8);
}

#[test]
fn encoder_at_the_ends() {
    assert_eq!(Encoder::new(0, 0, 0, 1).unwrap().modulo(), 1);
    assert_eq!(
        Encoder::new(0, u32::MAX, 32, 1).unwrap().modulo(),
        1u64 << 32
    );
    assert_eq!(
        Encoder::new(0, 7, 3, usize::MAX).unwrap().padding_bits(),
        usize::MAX
    );
}

#[test]
fn encoder_refuses_what_is_no_domain() {
    assert_eq!(Encoder::new(0, 7, 3, 0), Err(Error::InvalidDomain));
    assert_eq!(Encoder::new(0, 8, 3, 2), Err(Error::InvalidDomain));
    assert_eq!(Encoder::new(0, 6, 3, 2), Err(Error::InvalidDomain));
    assert_eq!(Encoder::new(0, 7, 4, 2), Err(Error::InvalidDomain));
    assert_eq!(Encoder::new(1, 7, 3, 2), Err(Error::InvalidDomain));
    assert_eq!(Encoder::new(0, u32::MAX, 33, 1), Err(Error::InvalidDomain));
    assert_eq!(Encoder::new(0, u32::MAX, 64, 1), Err(Error::InvalidDomain));
    assert_eq!(
        Encoder::new(0, u32::MAX, usize::MAX, 1),
        Err(Error::InvalidDomain)
    );
}

#[test]
fn encoder_reduces_messages() {
    let encoder = Encoder::new(0, 7, 3, 2).unwrap();
    assert_eq!(encoder.reduce(0), 0);
    assert_eq!(encoder.reduce(7), 7);
    assert_eq!(encoder.reduce(8), 0);
    assert_eq!(encoder.reduce(105), 1);
    assert_eq!(encoder.reduce(u64::MAX), 7);
}

#[test]
fn parameters_hold_what_they_were_given() {
    let parameters = Parameters::new(4, 2, 7, 3, 2, 7, RLWE, LWE, true).unwrap();
    assert_eq!(parameters.encoder, Encoder::new(0, 15, 4, 2).unwrap());
    assert_eq!(parameters.encoder.modulo(), 16);
    assert_eq!(parameters.bs_base_log, 7);
    assert_eq!(parameters.bs_level, 3);
    assert_eq!(parameters.ks_base_log, 2);
    assert_eq!(parameters.ks_level, 7);
    assert_eq!(parameters.rlwe_setting, RLWE);
    assert_eq!(parameters.lwe_setting, LWE);
    assert!(parameters.with_ks);
}

#[test]
fn parameters_answer_for_their_domain() {
    let parameters = Parameters::new(4, 2, 7, 3, 2, 7, RLWE, LWE, true).unwrap();
    assert_eq!(parameters.nb_bit_precision(), 4);
    assert_eq!(parameters.nb_bit_padding(), 2);
    assert_eq!(parameters.modulo(), 16);
    assert_eq!(parameters.max(), 15);
    let widest = Parameters::new(32, 1, 7, 3, 2, 7, RLWE, LWE, true).unwrap();
    assert_eq!(widest.modulo(), 1u64 << 32);
    assert_eq!(widest.max(), u32::MAX);
}

#[test]
fn parameters_refuse_what_is_no_domain() {
    assert_eq!(
        Parameters::new(3, 0, 6, 4, 1, 1, RLWE, LWE, false),
        Err(Error::InvalidDomain)
    );
    assert_eq!(
        Parameters::new(33, 2, 6, 4, 1, 1, RLWE, LWE, false),
        Err(Error::InvalidDomain)
    );
    assert!(Parameters::new(32, 1, 6, 4, 1, 1, RLWE, LWE, false).is_ok());
    assert!(Parameters::new(0, 1, 6, 4, 1, 1, RLWE, LWE, false).is_ok());
}

#[test]
fn prefix_without_key_switch() {
    let parameters = Parameters::new(3, 2, 6, 4, 1, 1, RLWE, LWE, false).unwrap();
    assert_eq!(parameters.gen_prefix(), "rlwe_1024_1_bbs_6_lbs_4");
}

#[test]
fn prefix_with_key_switch() {
    let parameters = Parameters::new(3, 2, 7, 3, 2, 7, RLWE, LWE, true).unwrap();
    assert_eq!(
        parameters.gen_prefix(),
        "lwe_750_rlwe_1024_1_bbs_7_lbs_3_bks_2_lks_7"
    );
}

#[test]
fn prefix_of_large_and_of_zero_sizes() {
    let rlwe = RlweSetting {
        polynomial_size: 0,
        dimension: usize::MAX,
        log2_std_dev: 0,
    };
    let parameters = Parameters::new(3, 2, 10, 100, 1, 1, rlwe, LWE, false).unwrap();
    assert_eq!(
        parameters.gen_prefix(),
        format!("rlwe_0_{}_bbs_10_lbs_100", usize::MAX)
    );
}

#[test]
fn decimal_text_of_numbers() {
    assert_eq!(decimal_text(0), "0");
    assert_eq!(decimal_text(7), "7");
    assert_eq!(decimal_text(10), "10");
    assert_eq!(decimal_text(1024), "1024");
    assert_eq!(decimal_text(9_876_543_210), "9876543210");
    assert_eq!(decimal_text(usize::MAX), format!("{}", usize::MAX));
}

#[test]
fn names_of_the_key_files() {
    assert_eq!(secret_file("rlwe_1024_1"), "rlwe_1024_1_secret_key.json");
    assert_eq!(
        bootstrapping_file("rlwe_1024_1"),
        "rlwe_1024_1_bootstrapping_key.txt"
    );
    assert_eq!(
        keyswitching_file("rlwe_1024_1"),
        "rlwe_1024_1_keyswitching_key.txt"
    );
    assert_eq!(secret_file(""), "_secret_key.json");
}

#[test]
fn recipe_follows_the_key_switch() {
    let with = Parameters::new(3, 2, 7, 3, 2, 7, RLWE, LWE, true).unwrap();
    let without = Parameters::new(3, 2, 6, 4, 1, 1, RLWE, LWE, false).unwrap();
    assert_eq!(
        with.recipe(false),
        KeyRecipe {
            secret_sampled: true,
            bootstrapping_filled: true,
            keyswitching_filled: true,
        }
    );
    assert_eq!(
        without.recipe(false),
        KeyRecipe {
            secret_sampled: false,
            bootstrapping_filled: true,
            keyswitching_filled: false,
        }
    );
    let empty = KeyRecipe {
        secret_sampled: false,
        bootstrapping_filled: false,
        keyswitching_filled: false,
    };
    assert_eq!(with.recipe(true), empty);
    assert_eq!(without.recipe(true), empty);
}
