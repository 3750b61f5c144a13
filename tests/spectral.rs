use seismic_forward::spectral::{next_power_of_2, SpectralPlan};

#[test]
fn test_next_power_of_2() {
    assert_eq!(next_power_of_2(1), 1);
    assert_eq!(next_power_of_2(2), 2);
    assert_eq!(next_power_of_2(3), 4);
    assert_eq!(next_power_of_2(100), 128);
    assert_eq!(next_power_of_2(256), 256);
    assert_eq!(next_power_of_2(257), 512);
}

#[test]
fn next_power_of_2_of_zero_is_one() {
    assert_eq!(next_power_of_2(0), 1);
}

#[test]
fn next_power_of_2_keeps_every_power_of_two() {
    let mut p: usize = 1;
    for _ in 0..63 {
        assert_eq!(next_power_of_2(p), p);
        p *= 2;
    }
    assert_eq!(next_power_of_2(1usize << 63), 1usize << 63);
}

#[test]
fn next_power_of_2_is_smallest_above() {
    for n in 2usize..2000 {
        let r = next_power_of_2(n);
        assert!(r.is_power_of_two());
        assert!(r >= n);
        assert!(r / 2 < n);
    }
    assert_eq!(next_power_of_2((1usize << 62) + 1), 1usize << 63);
}

#[test]
fn plan_of_three_by_three_samples() {
    let plan = SpectralPlan::for_lengths(3, 3).unwrap();
    assert_eq!(plan.output_len, 5);
    assert_eq!(plan.transform_len, 8);
}

#[test]
fn plan_of_hundred_by_fifty_samples() {
    let plan = SpectralPlan::for_lengths(100, 50).unwrap();
    assert_eq!(plan.output_len, 149);
    assert_eq!(plan.transform_len, 256);
}

#[test]
fn plan_of_empty_input_is_none() {
    assert_eq!(SpectralPlan::for_lengths(0, 2), None);
    assert_eq!(SpectralPlan::for_lengths(2, 0), None);
    assert_eq!(SpectralPlan::for_lengths(0, 0), None);
}

#[test]
fn plan_is_symmetric_in_its_inputs() {
    assert_eq!(SpectralPlan::for_lengths(3, 2), SpectralPlan::for_lengths(2, 3));
    assert_eq!(SpectralPlan::for_lengths(3, 2).unwrap().output_len, 4);
    assert_eq!(SpectralPlan::for_lengths(3, 2).unwrap().transform_len, 4);
}

#[test]
fn plan_of_single_samples() {
    let plan = SpectralPlan::for_lengths(1, 1).unwrap();
    assert_eq!(plan.output_len, 1);
    assert_eq!(plan.transform_len, 1);
}

#[test]
fn plan_with_exact_power_of_two_output() {
    let plan = SpectralPlan::for_lengths(64, 65).unwrap();
    assert_eq!(plan.output_len, 128);
    assert_eq!(plan.transform_len, 128);
}
