use kdf_oracle::cases::{build_hkdf_case, build_pbkdf2_case};
use kdf_oracle::clamp_output_length;
use kdf_oracle::stream::SeededStream;
use kdf_oracle::{HKDF_FALLBACK_OKM, HKDF_MAX_OKM};

#[test]
fn empty_input_gives_degenerate_hkdf_case() {
    let data: Vec<u8> = Vec::new();
    let mut st = SeededStream::new(&data);
    let case = build_hkdf_case(&data, &mut st);
    assert_eq!(case.ikm.len(), 0);
    assert_eq!(case.salt.len(), 0);
    assert_eq!(case.info.len(), 0);
    assert_eq!(case.okm_len, HKDF_FALLBACK_OKM);
}

#[test]
fn empty_input_gives_degenerate_pbkdf2_case() {
    let data: Vec<u8> = Vec::new();
    let mut st = SeededStream::new(&data);
    let _ = build_hkdf_case(&data, &mut st);
    let case = build_pbkdf2_case(&data, &mut st);
    assert_eq!(case.password.len(), 0);
    assert_eq!(case.salt.len(), 0);
    assert!(case.dk_len >= 1 && case.dk_len <= 65535);
    assert!(case.iterations >= 1 && case.iterations <= 65535);
    // The first two integer draws of the all-zero seed's stream, narrowed to
    // 16 bits: the low half of the first two ChaCha20 keystream words.
    assert_eq!(case.dk_len, 47222);
    assert_eq!(case.iterations, 61856);
}

#[test]
fn pbkdf2_draws_follow_the_stream() {
    let data: Vec<u8> = vec![0u8; 512];
    let mut st = SeededStream::new(&data);
    let _ = build_hkdf_case(&data, &mut st);
    let case = build_pbkdf2_case(&data, &mut st);
    assert_eq!(case.dk_len, 456);
    assert_eq!(case.iterations, 28470);

    let data: Vec<u8> = vec![0xFF];
    let mut st = SeededStream::new(&data);
    let _ = build_hkdf_case(&data, &mut st);
    let case = build_pbkdf2_case(&data, &mut st);
    assert_eq!(case.dk_len, 57423);
    assert_eq!(case.iterations, 6392);
}

#[test]
fn single_byte_input_drives_info_length() {
    let data: Vec<u8> = vec![0xFF];
    let mut st = SeededStream::new(&data);
    let case = build_hkdf_case(&data, &mut st);
    assert_eq!(case.ikm.len(), 0);
    assert_eq!(case.salt.len(), 0);
    assert_eq!(case.info.len(), 255);
    assert!(case.info.iter().all(|&b| b == 0));
    assert_eq!(case.okm_len, HKDF_FALLBACK_OKM);
}

#[test]
fn long_zero_input_takes_natural_lengths() {
    let data: Vec<u8> = vec![0u8; 512];
    let mut st = SeededStream::new(&data);
    let case = build_hkdf_case(&data, &mut st);
    assert_eq!(case.ikm.len(), 256);
    assert_eq!(case.salt.len(), 128);
    assert_eq!(case.info.len(), 0);
    assert_eq!(case.okm_len, 256);
}

#[test]
fn secret_and_salt_lengths_follow_division() {
    let data: Vec<u8> = vec![7u8; 103];
    let mut st = SeededStream::new(&data);
    let hkdf_case = build_hkdf_case(&data, &mut st);
    assert_eq!(hkdf_case.ikm.len(), 51);
    assert_eq!(hkdf_case.salt.len(), 25);
    let pbkdf2_case = build_pbkdf2_case(&data, &mut st);
    assert_eq!(pbkdf2_case.password.len(), 51);
    assert_eq!(pbkdf2_case.salt.len(), 25);
}

#[test]
fn oversized_natural_length_falls_back() {
    let data: Vec<u8> = vec![1u8; 40000];
    let mut st = SeededStream::new(&data);
    let case = build_hkdf_case(&data, &mut st);
    assert_eq!(case.ikm.len(), 20000);
    assert_eq!(case.okm_len, HKDF_FALLBACK_OKM);
}

#[test]
fn clamp_keeps_natural_value_in_range() {
    assert_eq!(clamp_output_length(5, HKDF_MAX_OKM, HKDF_FALLBACK_OKM), 5);
    assert_eq!(clamp_output_length(1, HKDF_MAX_OKM, HKDF_FALLBACK_OKM), 1);
    assert_eq!(clamp_output_length(HKDF_MAX_OKM, HKDF_MAX_OKM, HKDF_FALLBACK_OKM), HKDF_MAX_OKM);
}

#[test]
fn clamp_substitutes_fallback_out_of_range() {
    assert_eq!(clamp_output_length(0, HKDF_MAX_OKM, HKDF_FALLBACK_OKM), HKDF_FALLBACK_OKM);
    assert_eq!(
        clamp_output_length(HKDF_MAX_OKM + 1, HKDF_MAX_OKM, HKDF_FALLBACK_OKM),
        HKDF_FALLBACK_OKM
    );
}

#[test]
fn stream_fill_is_not_all_zero() {
    let data: Vec<u8> = vec![0xAB; 64];
    let mut st = SeededStream::new(&data);
    let case = build_hkdf_case(&data, &mut st);
    assert_eq!(case.ikm.len(), 32);
    assert!(case.ikm.iter().any(|&b| b != 0));
}

#[test]
fn builder_is_deterministic_across_fresh_streams() {
    let data: Vec<u8> = (0u8..=255u8).collect();
    let mut st1 = SeededStream::new(&data);
    let hkdf1 = build_hkdf_case(&data, &mut st1);
    let pbkdf21 = build_pbkdf2_case(&data, &mut st1);
    let mut st2 = SeededStream::new(&data);
    let hkdf2 = build_hkdf_case(&data, &mut st2);
    let pbkdf22 = build_pbkdf2_case(&data, &mut st2);
    assert_eq!(hkdf1.ikm, hkdf2.ikm);
    assert_eq!(hkdf1.salt, hkdf2.salt);
    assert_eq!(hkdf1.info, hkdf2.info);
    assert_eq!(hkdf1.okm_len, hkdf2.okm_len);
    assert_eq!(pbkdf21.password, pbkdf22.password);
    assert_eq!(pbkdf21.salt, pbkdf22.salt);
    assert_eq!(pbkdf21.dk_len, pbkdf22.dk_len);
    assert_eq!(pbkdf21.iterations, pbkdf22.iterations);
}

#[test]
fn different_inputs_give_different_material() {
    let a: Vec<u8> = vec![1u8; 64];
    let b: Vec<u8> = vec![2u8; 64];
    let mut st_a = SeededStream::new(&a);
    let mut st_b = SeededStream::new(&b);
    let case_a = build_hkdf_case(&a, &mut st_a);
    let case_b = build_hkdf_case(&b, &mut st_b);
    assert_ne!(case_a.ikm, case_b.ikm);
}
