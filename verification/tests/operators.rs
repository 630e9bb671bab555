use zqz::{
    max, setup, Ciphertext, EncryptKey, Error, HomomorphicKey, LweSetting, Max, Operator,
    Parameters, RlweSetting, SecretKey,
};

const RLWE: RlweSetting = RlweSetting {
    polynomial_size: 1024,
    dimension: 1,
    log2_std_dev: -25,
};

const LWE: LweSetting = LweSetting {
    dimension: 1024,
    log2_std_dev: -25,
};

fn keys() -> (SecretKey, HomomorphicKey) {
    setup(1)
}

fn key_with(precision: usize, padding: usize, with_ks: bool, identity: u64) -> EncryptKey {
    let parameters = Parameters::new(precision, padding, 6, 4, 1, 1, RLWE, LWE, with_ks).unwrap();
    EncryptKey::new(&parameters, identity)
}

#[test]
fn setup_makes_the_keys_of_one_key_set() {
    let (sk, hk) = setup(42);
    assert_eq!(sk.evaluation, hk);
    assert_eq!(hk.identity, 42);
    assert!(!hk.key_switch);
    assert_eq!(hk.encoder.modulo(), 8);
    assert_eq!(hk.encoder.padding_bits(), 2);
    assert_eq!(hk.encoder.precision_bits(), 3);
    assert_eq!(hk.encoder.upper_bound(), 7);
}

#[test]
fn round_trip_of_every_residue() {
    let (sk, _) = keys();
    for m in 0..8usize {
        let ct: Ciphertext = sk.encrypt(m);
        assert_eq!(sk.decrypt(&ct), Ok(m));
    }
}

#[test]
fn encryption_reduces_the_message() {
    let (sk, _) = keys();
    assert_eq!(sk.decrypt(&sk.encrypt(8)), Ok(0));
    assert_eq!(sk.decrypt(&sk.encrypt(105)), Ok(1));
    assert_eq!(sk.decrypt(&sk.encrypt(usize::MAX)), Ok(7));
}

#[test]
fn sum_of_every_pair() {
    let (sk, hk) = keys();
    for a in 0..8usize {
        for b in 0..8usize {
            let sum = hk.add(&sk.encrypt(a), &sk.encrypt(b)).unwrap();
            assert_eq!(sk.decrypt(&sum), Ok((a + b) % 8));
        }
    }
}

#[test]
fn difference_of_every_pair() {
    let (sk, hk) = keys();
    for a in 0..8usize {
        for b in 0..8usize {
            let difference = hk.sub(&sk.encrypt(a), &sk.encrypt(b)).unwrap();
            assert_eq!(sk.decrypt(&difference), Ok((a + 8 - b) % 8));
        }
    }
}

#[test]
fn product_of_every_pair() {
    let (sk, hk) = keys();
    for a in 0..8usize {
        for b in 0..8usize {
            let product = hk.mul(&sk.encrypt(a), &sk.encrypt(b)).unwrap();
            assert_eq!(sk.decrypt(&product), Ok((a * b) % 8));
        }
    }
}

#[test]
fn maximum_of_every_pair() {
    let (sk, hk) = keys();
    for a in 0..8usize {
        for b in 0..8usize {
            let larger = hk.max(&sk.encrypt(a), &sk.encrypt(b)).unwrap();
            assert_eq!(sk.decrypt(&larger), Ok(Ord::max(a, b)));
        }
    }
}

#[test]
fn constants_on_the_right() {
    let (sk, hk) = keys();
    for a in 0..8usize {
        for k in [0usize, 1, 2, 7, 8, 21] {
            let ct = sk.encrypt(a);
            assert_eq!(
                sk.decrypt(&hk.add_constant(&ct, k).unwrap()),
                Ok((a + k) % 8)
            );
            assert_eq!(
                sk.decrypt(&hk.sub_constant(&ct, k).unwrap()),
                Ok((a + 24 - k) % 8)
            );
            assert_eq!(
                sk.decrypt(&hk.mul_constant(&ct, k).unwrap()),
                Ok((a * k) % 8)
            );
            assert_eq!(
                sk.decrypt(&hk.max_constant(&ct, k).unwrap()),
                Ok(Ord::max(a, k % 8))
            );
        }
    }
}

#[test]
fn constant_as_large_as_the_machine_allows() {
    let (sk, hk) = keys();
    let ct = sk.encrypt(3);
    assert_eq!(
        sk.decrypt(&hk.add_constant(&ct, usize::MAX).unwrap()),
        Ok(2)
    );
    assert_eq!(
        sk.decrypt(&hk.sub_constant(&ct, usize::MAX).unwrap()),
        Ok(4)
    );
    assert_eq!(
        sk.decrypt(&hk.mul_constant(&ct, usize::MAX).unwrap()),
        Ok(5)
    );
}

#[test]
fn adding_a_constant_is_adding_its_encryption() {
    let (sk, hk) = keys();
    for a in 0..8usize {
        for k in 0..20usize {
            let ct = sk.encrypt(a);
            let shifted = hk.add_constant(&ct, k).unwrap();
            let summed = hk.add(&ct, &sk.encrypt(k)).unwrap();
            assert_eq!(sk.decrypt(&shifted), sk.decrypt(&summed));
        }
    }
}

#[test]
fn in_place_is_the_same_as_returning() {
    let (sk, hk) = keys();
    for a in 0..8usize {
        for b in 0..8usize {
            let left = sk.encrypt(a);
            let right = sk.encrypt(b);

            let mut target = left;
            assert_eq!(hk.add_inplace(&mut target, &right), Ok(()));
            assert_eq!(target, hk.add(&left, &right).unwrap());

            let mut target = left;
            assert_eq!(hk.sub_inplace(&mut target, &right), Ok(()));
            assert_eq!(target, hk.sub(&left, &right).unwrap());

            let mut target = left;
            assert_eq!(hk.mul_inplace(&mut target, &right), Ok(()));
            assert_eq!(target, hk.mul(&left, &right).unwrap());

            let mut target = left;
            assert_eq!(hk.add_constant_inplace(&mut target, b), Ok(()));
            assert_eq!(target, hk.add_constant(&left, b).unwrap());

            let mut target = left;
            assert_eq!(hk.sub_constant_inplace(&mut target, b), Ok(()));
            assert_eq!(target, hk.sub_constant(&left, b).unwrap());

            let mut target = left;
            assert_eq!(hk.mul_constant_inplace(&mut target, b), Ok(()));
            assert_eq!(target, hk.mul_constant(&left, b).unwrap());

            let mut target = left;
            assert_eq!(hk.f_inplace(&mut target, |x| (x * x) as i64 - 3), Ok(()));
            assert_eq!(target, hk.f(&left, |x| (x * x) as i64 - 3).unwrap());
        }
    }
}

#[test]
fn assigning_is_the_same_as_returning() {
    let key = key_with(4, 2, true, 3);
    for a in 0..16usize {
        for b in 0..16usize {
            let left = key.encrypt(a);
            let right = key.encrypt(b);

            let mut target = left;
            assert_eq!(target.add_assign(&right), Ok(()));
            assert_eq!(target, left.add(&right).unwrap());

            let mut target = left;
            assert_eq!(target.sub_assign(&right), Ok(()));
            assert_eq!(target, left.sub(&right).unwrap());

            let mut target = left;
            assert_eq!(target.mul_assign(&right), Ok(()));
            assert_eq!(target, left.mul(&right).unwrap());

            let mut target = left;
            assert_eq!(target.add_constant_assign(b), Ok(()));
            assert_eq!(target, left.add_constant(b).unwrap());

            let mut target = left;
            assert_eq!(target.sub_constant_assign(b), Ok(()));
            assert_eq!(target, left.sub_constant(b).unwrap());

            let mut target = left;
            assert_eq!(target.mul_constant_assign(b), Ok(()));
            assert_eq!(target, left.mul_constant(b).unwrap());
        }
    }
}

#[test]
fn a_failure_in_place_leaves_the_operand() {
    let (sk, hk) = keys();
    let (other, _) = setup(2);
    let left = sk.encrypt(5);
    let right = other.encrypt(6);
    let mut target = left;
    assert_eq!(
        hk.add_inplace(&mut target, &right),
        Err(Error::CapabilityMismatch)
    );
    assert_eq!(target, left);
    assert_eq!(target.mul_assign(&right), Err(Error::CapabilityMismatch));
    assert_eq!(target, left);
    assert_eq!(
        hk.f_inplace(&mut right.clone(), |x| x as i64),
        Err(Error::CapabilityMismatch)
    );
}

#[test]
fn function_of_a_ciphertext() {
    let (sk, hk) = keys();
    for a in 0..8usize {
        let cube = hk
            .f(&sk.encrypt(a), |x| (x * x * x) as i64)
            .unwrap();
        assert_eq!(sk.decrypt(&cube), Ok((a * a * a) % 8));
        let below = sk.encrypt(a).eval(|x| x as i64 - 11);
        assert_eq!(sk.decrypt(&below), Ok((a + 16 - 11) % 8));
    }
}

#[test]
fn maximum_through_the_trait() {
    let (sk, _) = keys();
    let four = sk.encrypt(4);
    let seven = sk.encrypt(7);
    assert_eq!(sk.decrypt(&max(&four, &seven).unwrap()), Ok(7));
    assert_eq!(sk.decrypt(&max(&seven, &four).unwrap()), Ok(7));
    assert_eq!(sk.decrypt(&max(&four, 2usize).unwrap()), Ok(4));
    assert_eq!(sk.decrypt(&max(&four, 6usize).unwrap()), Ok(6));
    assert_eq!(sk.decrypt(&max(6usize, &four).unwrap()), Ok(6));
    assert_eq!(sk.decrypt(&max(13usize, &four).unwrap()), Ok(5));
    assert_eq!(sk.decrypt(&max(&four, 13usize).unwrap()), Ok(5));
}

struct Width(u8);

impl Max<u8> for Width {
    type Output = u8;

    fn max(self, rhs: u8) -> u8 {
        if self.0 >= rhs {
            self.0
        } else {
            rhs
        }
    }
}

#[test]
fn maximum_of_another_type() {
    assert_eq!(max(Width(3), 9), 9);
    assert_eq!(max(Width(12), 9), 12);
}

#[test]
fn other_key_is_refused() {
    let (sk, hk) = keys();
    let (other, other_hk) = setup(2);
    let a = sk.encrypt(1);
    let b = other.encrypt(1);
    assert_eq!(hk.add(&a, &b), Err(Error::CapabilityMismatch));
    assert_eq!(hk.sub(&b, &a), Err(Error::CapabilityMismatch));
    assert_eq!(hk.mul(&b, &b), Err(Error::CapabilityMismatch));
    assert_eq!(hk.max(&a, &b), Err(Error::CapabilityMismatch));
    assert_eq!(hk.add_constant(&b, 1), Err(Error::CapabilityMismatch));
    assert_eq!(hk.f(&b, |x| x as i64), Err(Error::CapabilityMismatch));
    assert_eq!(a.add(&b), Err(Error::CapabilityMismatch));
    assert_eq!(a.max(&b), Err(Error::CapabilityMismatch));
    assert_eq!(max(&a, &b), Err(Error::CapabilityMismatch));
    assert_eq!(sk.decrypt(&b), Err(Error::CapabilityMismatch));
    assert_eq!(other_hk.add(&b, &b).map(|sum| other.decrypt(&sum)), Ok(Ok(2)));
}

#[test]
fn other_encoder_is_refused() {
    let narrow = key_with(3, 2, false, 7);
    let wide = key_with(4, 2, false, 7);
    let switched = key_with(3, 2, true, 7);
    let padded = key_with(3, 3, false, 7);
    let a = narrow.encrypt(1);
    assert_eq!(a.add(&wide.encrypt(1)), Err(Error::CapabilityMismatch));
    assert_eq!(a.add(&switched.encrypt(1)), Err(Error::CapabilityMismatch));
    assert_eq!(a.add(&padded.encrypt(1)), Err(Error::CapabilityMismatch));
    assert_eq!(narrow.decrypt(&wide.encrypt(1)), Err(Error::CapabilityMismatch));
}

#[test]
fn product_needs_two_bits_of_padding() {
    let key = key_with(3, 1, false, 1);
    let a = key.encrypt(3);
    let b = key.encrypt(5);
    assert_eq!(a.mul(&b), Err(Error::EncodingOverflow));
    assert_eq!(
        key.evaluation().mul(&a, &b),
        Err(Error::EncodingOverflow)
    );
    let mut target = a;
    assert_eq!(target.mul_assign(&b), Err(Error::EncodingOverflow));
    assert_eq!(target, a);
    assert_eq!(a.add(&b).map(|r| key.decrypt(&r)), Ok(Ok(0)));
    assert_eq!(a.sub(&b).map(|r| key.decrypt(&r)), Ok(Ok(6)));
    assert_eq!(a.max(&b).map(|r| key.decrypt(&r)), Ok(Ok(5)));
    assert_eq!(a.mul_constant(5).map(|r| key.decrypt(&r)), Ok(Ok(7)));
    assert_eq!(a.max_constant(5).map(|r| key.decrypt(&r)), Ok(Ok(5)));
    assert_eq!(a.add_constant(5).map(|r| key.decrypt(&r)), Ok(Ok(0)));
    assert_eq!(a.sub_constant(5).map(|r| key.decrypt(&r)), Ok(Ok(6)));
}

#[test]
fn plan_decides_before_anything_runs() {
    let narrow = key_with(3, 1, true, 1).evaluation();
    let other = key_with(3, 1, true, 2).evaluation();
    assert_eq!(
        narrow.plan(&narrow, &Operator::Add),
        Ok(Operator::Add.steps(true))
    );
    assert_eq!(
        narrow.plan(&narrow, &Operator::MulConstant(3)),
        Ok(Operator::MulConstant(3).steps(true))
    );
    assert_eq!(
        narrow.plan(&narrow, &Operator::Mul),
        Err(Error::EncodingOverflow)
    );
    assert_eq!(
        narrow.plan(&other, &Operator::Add),
        Err(Error::CapabilityMismatch)
    );
    assert_eq!(
        narrow.plan(&other, &Operator::Mul),
        Err(Error::CapabilityMismatch)
    );
}

#[test]
fn circuit_of_the_demonstration() {
    let key = key_with(3, 2, false, 1);
    let ct1 = key.encrypt(4);
    let ct2 = key.encrypt(7);
    let ct3 = key.encrypt(5);

    let mut ct_res = ct1.mul(&ct2).unwrap();
    ct_res = ct_res.add(&ct3).unwrap();
    ct_res = ct_res.add_constant(2).unwrap();
    ct_res = ct_res.mul_constant(3).unwrap();
    assert_eq!(key.decrypt(&ct_res), Ok(1));

    let ct_max = max(&ct1, &ct2).unwrap();
    assert_eq!(key.decrypt(&ct_max), Ok(7));

    let ct_ev = ct3.eval(|x| (x * x * x) as i64);
    assert_eq!(key.decrypt(&ct_ev), Ok(5));
}

#[test]
fn circuit_of_the_demonstration_modulo_sixteen() {
    let key = key_with(4, 2, true, 1);
    let ct1 = key.encrypt(4);
    let ct2 = key.encrypt(7);
    let ct3 = key.encrypt(5);
    let mut ct_res = ct1.mul(&ct2).unwrap();
    ct_res.add_assign(&ct3).unwrap();
    ct_res.add_constant_assign(2).unwrap();
    ct_res.mul_constant_assign(3).unwrap();
    assert_eq!(key.decrypt(&ct_res), Ok(105 % 16));
}

fn errors_of_one_round(key: &EncryptKey) -> usize {
    let mut cpt: usize = 0;
    let modulo = key.evaluation().encoder.modulo() as usize;
    for m1 in 0..modulo {
        if key.decrypt(&key.encrypt(m1)) != Ok(m1 % modulo) {
            cpt += 1;
        }
        for m2 in 0..modulo {
            let ct1 = key.encrypt(m1);
            let ct2 = key.encrypt(m2);
            let mut sum = ct1;
            sum.add_assign(&ct2).unwrap();
            let mut shifted = ct1;
            shifted.add_constant_assign(m2).unwrap();
            let mut difference = ct1;
            difference.sub_assign(&ct2).unwrap();
            let mut lowered = ct1;
            lowered.sub_constant_assign(m2).unwrap();
            let mut product = ct1;
            product.mul_assign(&ct2).unwrap();
            let mut scaled = ct1;
            scaled.mul_constant_assign(m2).unwrap();
            let results = [
                (ct1.add(&ct2).unwrap(), (m1 + m2) % modulo),
                (sum, (m1 + m2) % modulo),
                (ct1.add_constant(m2).unwrap(), (m1 + m2) % modulo),
                (shifted, (m1 + m2) % modulo),
                (ct1.sub(&ct2).unwrap(), (modulo + m1 - m2) % modulo),
                (difference, (modulo + m1 - m2) % modulo),
                (ct1.sub_constant(m2).unwrap(), (modulo + m1 - m2) % modulo),
                (lowered, (modulo + m1 - m2) % modulo),
                (ct1.mul_constant(m2).unwrap(), (m1 * m2) % modulo),
                (scaled, (m1 * m2) % modulo),
                (ct1.mul(&ct2).unwrap(), (m1 * m2) % modulo),
                (product, (m1 * m2) % modulo),
                (max(&ct1, &ct2).unwrap(), Ord::max(m1, m2)),
                (max(&ct1, m2).unwrap(), Ord::max(m1, m2)),
                (max(m2, &ct1).unwrap(), Ord::max(m1, m2)),
            ];
            for (ct, expected) in results {
                if key.decrypt(&ct) != Ok(expected) {
                    cpt += 1;
                }
            }
        }
    }
    cpt
}

#[test]
fn test_homomorphic_key() {
    let mut cpt: usize = 0;
    cpt += errors_of_one_round(&key_with(3, 2, false, 1));
    cpt += errors_of_one_round(&key_with(3, 2, true, 2));
    cpt += errors_of_one_round(&key_with(4, 2, true, 3));
    if cpt != 0 {
        panic!("{} ERROR(S)!", cpt);
    }
}

#[test]
fn tests_test_homomorphic_key() {
    let (sk, hk) = setup(1);
    let mut cpt: usize = 0;
    for m1 in 0..8usize {
        if sk.decrypt(&sk.encrypt(m1)) != Ok(m1) {
            cpt += 1;
        }
        for m2 in 0..8usize {
            let ct1 = sk.encrypt(m1);
            let ct2 = sk.encrypt(m2);
            let mut sum = ct1;
            hk.add_inplace(&mut sum, &ct2).unwrap();
            let mut shifted = ct1;
            hk.add_constant_inplace(&mut shifted, m2).unwrap();
            let mut difference = ct1;
            hk.sub_inplace(&mut difference, &ct2).unwrap();
            let mut lowered = ct1;
            hk.sub_constant_inplace(&mut lowered, m2).unwrap();
            let mut product = ct1;
            hk.mul_inplace(&mut product, &ct2).unwrap();
            let mut scaled = ct1;
            hk.mul_constant_inplace(&mut scaled, m2).unwrap();
            let results = [
                (hk.add(&ct1, &ct2).unwrap(), (m1 + m2) % 8),
                (sum, (m1 + m2) % 8),
                (hk.add_constant(&ct1, m2).unwrap(), (m1 + m2) % 8),
                (shifted, (m1 + m2) % 8),
                (hk.sub(&ct1, &ct2).unwrap(), (8 + m1 - m2) % 8),
                (difference, (8 + m1 - m2) % 8),
                (hk.sub_constant(&ct1, m2).unwrap(), (8 + m1 - m2) % 8),
                (lowered, (8 + m1 - m2) % 8),
                (hk.mul_constant(&ct1, m2).unwrap(), (m1 * m2) % 8),
                (scaled, (m1 * m2) % 8),
                (hk.mul(&ct1, &ct2).unwrap(), (m1 * m2) % 8),
                (product, (m1 * m2) % 8),
                (hk.max(&ct1, &ct2).unwrap(), Ord::max(m1, m2)),
            ];
            for (ct, expected) in results {
                if sk.decrypt(&ct) != Ok(expected) {
                    cpt += 1;
                }
            }
        }
    }
    if cpt != 0 {
        panic!("{} ERROR(S)!", cpt);
    }
}
