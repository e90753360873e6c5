use kdf_oracle::stream::{make_seed, SeededStream};

#[test]
fn seed_of_empty_input_is_all_zero() {
    let seed = make_seed(&[]);
    assert_eq!(seed, vec![0u8; 32]);
}

#[test]
fn seed_is_input_prefix_zero_padded() {
    let seed = make_seed(&[1, 2, 3]);
    let mut expected = vec![0u8; 32];
    expected[0] = 1;
    expected[1] = 2;
    expected[2] = 3;
    assert_eq!(seed, expected);
}

#[test]
fn seed_takes_only_the_first_32_bytes() {
    let long: Vec<u8> = (0u8..64u8).collect();
    let seed = make_seed(&long);
    assert_eq!(seed, (0u8..32u8).collect::<Vec<u8>>());
}

#[test]
fn fresh_streams_replay_the_same_bytes() {
    let data = vec![0xC3u8; 16];
    let mut st1 = SeededStream::new(&data);
    let mut st2 = SeededStream::new(&data);
    assert_eq!(st1.fill(10), st2.fill(10));
    assert_eq!(st1.next_u32(), st2.next_u32());
}

#[test]
fn the_stream_advances_between_draws() {
    let data = vec![0x5Au8; 16];
    let mut st = SeededStream::new(&data);
    let first = st.fill(16);
    let second = st.fill(16);
    assert_ne!(first, second);
}

#[test]
fn fill_returns_the_requested_length() {
    let mut st = SeededStream::new(&[9, 8, 7]);
    assert_eq!(st.fill(0).len(), 0);
    assert_eq!(st.fill(1).len(), 1);
    assert_eq!(st.fill(1000).len(), 1000);
}
