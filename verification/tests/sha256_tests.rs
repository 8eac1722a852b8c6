use sha2::{
    add_mod, big_sig_0, big_sig_1, bytes_to_words, ch, chunkify, lil_sig_0, lil_sig_1, maj,
    pad_message, rot_r, sha256, sha256_bytes, try_sha256_bytes,
};

fn run_test_case(message: &str, hash: &str) {
    let parsed: Vec<u32> = hash.split(' ').map(|x| u32::from_str_radix(x, 16).unwrap()).collect();
    assert_eq!(parsed, sha256(message));
}

#[test]
fn simple_test() {
    let hash = "BA7816BF 8F01CFEA 414140DE 5DAE2223 B00361A3 96177A9C B410FF61 F20015AD";
    run_test_case("abc", hash);
}

#[test]
fn long_test() {
    let message = "abcdbcdecdefdefgefghfghighijhijkijkljklmklmnlmnomnopnopq";
    let hash = "248D6A61 D20638B8 E5C02693 0C3E6039 A33CE459 64FF2167 F6ECEDD4 19DB06C1";
    run_test_case(message, hash);
}

#[test]
fn empty_message() {
    let hash = "E3B0C442 98FC1C14 9AFBF4C8 996FB924 27AE41E4 649B934C A495991B 7852B855";
    run_test_case("", hash);
}

#[test]
fn boundary_55_bytes() {
    // 55 bytes: the 0x80 byte lands exactly on the 56-mod-64 boundary,
    // so the message still fits one block.
    let message = "a".repeat(55);
    assert_eq!(message.len(), 55);
    let expected: [u32; 8] = [
        0x9F4390F8, 0xD30C2DD9, 0x2EC9F095, 0xB65E2B9A, 0xE9B0A925, 0xA5258E24, 0x1C9F1E91,
        0x0F734318,
    ];
    assert_eq!(sha256(&message), expected);
}

#[test]
fn boundary_56_bytes() {
    // 56 bytes: the length field no longer fits, forcing an extra
    // all-padding block.
    let message = "a".repeat(56);
    assert_eq!(message.len(), 56);
    let expected: [u32; 8] = [
        0xB35439A4, 0xAC6F0948, 0xB6D6F9E3, 0xC6AF0F5F, 0x590CE20F, 0x1BDE7090, 0xEF797068,
        0x6EC6738A,
    ];
    assert_eq!(sha256(&message), expected);
}

#[test]
fn one_full_block_message() {
    let message = "a".repeat(64);
    let expected: [u32; 8] = [
        0xFFE054FE, 0x7AE0CB6D, 0xC65C3AF9, 0xB61D5209, 0xF439851D, 0xB43D0BA5, 0x997337DF,
        0x154668EB,
    ];
    assert_eq!(sha256(&message), expected);
}

#[test]
fn multi_block_1000_bytes() {
    let mut message: Vec<u8> = Vec::new();
    for i in 0..1000usize {
        message.push((i % 251) as u8);
    }
    let expected: [u32; 8] = [
        0x4E4C294B, 0x331F7A20, 0x99A379BE, 0xC34B9F9F, 0xC03DC46A, 0xB465D998, 0xF4D683DA,
        0x53487E6D,
    ];
    assert_eq!(sha256_bytes(&message), expected);
}

#[test]
fn deterministic_eight_words() {
    let first = sha256("determinism check");
    let second = sha256("determinism check");
    assert_eq!(first, second);
    assert_eq!(first.len(), 8);
}

#[test]
fn avalanche_smoke() {
    // "abc" and "abd" differ in a single input bit; a large fraction of
    // the 256 output bits should flip.
    let d1 = sha256("abc");
    let d2 = sha256("abd");
    assert_ne!(d1, d2);
    let mut flipped: u32 = 0;
    for i in 0..8usize {
        flipped += (d1[i] ^ d2[i]).count_ones();
    }
    assert!(flipped > 64);
}

#[test]
fn padding_length_is_multiple_of_64() {
    for len in [0usize, 1, 3, 54, 55, 56, 57, 63, 64, 100, 1000] {
        let message = vec![0x61u8; len];
        let padded = pad_message(&message);
        assert!(padded.len() > 0);
        assert_eq!(padded.len() % 64, 0);
        assert_eq!(padded[len], 0x80);
        let bits: u64 = (len as u64) * 8;
        let tail = &padded[padded.len() - 8..];
        let mut encoded: u64 = 0;
        for i in 0..8usize {
            encoded = (encoded << 8) | (tail[i] as u64);
        }
        assert_eq!(encoded, bits);
    }
}

#[test]
fn chunkify_single_block() {
    let words = chunkify("abc".as_bytes());
    assert_eq!(words.len(), 16);
    assert_eq!(words[0], 0x61626380);
    for i in 1..15usize {
        assert_eq!(words[i], 0);
    }
    assert_eq!(words[15], 24);
}

#[test]
fn bytes_to_words_big_endian() {
    let bytes: Vec<u8> = vec![0, 1, 2, 3, 4, 5, 6, 7];
    let words = bytes_to_words(&bytes);
    assert_eq!(words, vec![0x00010203, 0x04050607]);
}

#[test]
fn rotate_right_exact() {
    assert_eq!(rot_r(0x12345678, 4), 0x81234567);
    assert_eq!(rot_r(1, 1), 0x80000000);
    assert_eq!(rot_r(0x80000000, 31), 1);
}

#[test]
fn mixing_functions_exact() {
    let x: u32 = 0x12345678;
    let y: u32 = 0x9ABCDEF0;
    let z: u32 = 0x0F1E2D3C;
    assert_eq!(ch(x, y, z), 0x1F3E7F74);
    assert_eq!(maj(x, y, z), 0x1A3C5E78);
    assert_eq!(big_sig_0(x), 0x66146474);
    assert_eq!(big_sig_1(x), 0x3561ABDA);
    assert_eq!(lil_sig_0(x), 0xE7FCE6EE);
    assert_eq!(lil_sig_1(x), 0xA1F78649);
}

#[test]
fn word_addition_wraps() {
    assert_eq!(add_mod(0xFFFFFFFF, 1), 0);
    assert_eq!(add_mod(0x80000000, 0x80000000), 0);
    assert_eq!(add_mod(2, 3), 5);
}

#[test]
fn try_sha256_accepts_ordinary_input() {
    let digest = try_sha256_bytes("abc".as_bytes()).unwrap();
    let expected: [u32; 8] = [
        0xBA7816BF, 0x8F01CFEA, 0x414140DE, 0x5DAE2223, 0xB00361A3, 0x96177A9C, 0xB410FF61,
        0xF20015AD,
    ];
    assert_eq!(digest, expected);
}
