use kvbench::key::write_key;

fn key(x: u64, klen: usize) -> Vec<u8> {
    let mut k = vec![0xaa; 3];
    write_key(x, klen, &mut k);
    k
}

#[test]
fn key_of_short_length_keeps_low_bytes() {
    assert_eq!(key(0x0102_0304_0506_0708, 4), vec![5, 6, 7, 8]);
    assert_eq!(key(0x0102_0304_0506_0708, 1), vec![8]);
    assert_eq!(key(99, 4), vec![0, 0, 0, 99]);
}

#[test]
fn key_of_eight_bytes_is_the_big_endian_encoding() {
    assert_eq!(key(0x0102_0304_0506_0708, 8), vec![1, 2, 3, 4, 5, 6, 7, 8]);
    assert_eq!(key(u64::MAX, 8), vec![255; 8]);
    assert_eq!(key(0, 8), vec![0; 8]);
    for x in [0u64, 1, 255, 256, 65_535, 1 << 40, u64::MAX - 1] {
        assert_eq!(key(x, 8), x.to_be_bytes().to_vec());
    }
}

#[test]
fn key_of_long_length_is_padded_with_zeros() {
    assert_eq!(key(258, 10), vec![0, 0, 0, 0, 0, 0, 1, 2, 0, 0]);
    let k = key(u64::MAX, 20);
    assert_eq!(k.len(), 20);
    assert_eq!(&k[..8], &[255u8; 8]);
    assert_eq!(&k[8..], &[0u8; 12]);
}

#[test]
fn key_of_no_length_is_empty() {
    assert_eq!(key(12345, 0), Vec::<u8>::new());
}

#[test]
fn key_overwrites_what_the_buffer_held() {
    let mut k = vec![7u8; 64];
    write_key(1, 2, &mut k);
    assert_eq!(k, vec![0, 1]);
}

#[test]
fn keys_sort_as_their_numbers() {
    let numbers = [0u64, 1, 2, 99, 100, 255, 256, 257, 65_535, 65_536, 1 << 32, u64::MAX];
    for klen in [8usize, 9, 10, 16] {
        for &x in &numbers {
            for &y in &numbers {
                assert_eq!(key(x, klen).cmp(&key(y, klen)), x.cmp(&y));
            }
        }
    }
    let small = [0u64, 1, 2, 99, 100, 255, 256, 257, 65_535];
    for &x in &small {
        for &y in &small {
            assert_eq!(key(x, 2).cmp(&key(y, 2)), x.cmp(&y));
        }
    }
}

#[test]
fn short_keys_of_large_numbers_collide() {
    assert_eq!(key(1, 1), vec![1]);
    assert_eq!(key(256, 1), vec![0]);
    assert_eq!(key(257, 1), key(1, 1));
}
