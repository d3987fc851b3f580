use cryptoctx::crypto::{
    crypto_finalize, crypto_init, crypto_update, CryptoContext, CryptoResult,
};
use cryptoctx::{SHA256_ALG_ID, SHA3_256_ALG_ID};

const SHA256_HELLO: [u8; 32] = [
    0x2c, 0xf2, 0x4d, 0xba, 0x5f, 0xb0, 0xa3, 0x0e, 0x26, 0xe8, 0x3b, 0x2a, 0xc5, 0xb9, 0xe2,
    0x9e, 0x1b, 0x16, 0x1e, 0x5c, 0x1f, 0xa7, 0x42, 0x5e, 0x73, 0x04, 0x33, 0x62, 0x93, 0x8b,
    0x98, 0x24,
];

const SHA3_256_HELLO: [u8; 32] = [
    0x33, 0x38, 0xbe, 0x69, 0x4f, 0x50, 0xc5, 0xf3, 0x38, 0x81, 0x49, 0x86, 0xcd, 0xf0, 0x68,
    0x64, 0x53, 0xa8, 0x88, 0xb8, 0x4f, 0x42, 0x4d, 0x79, 0x2a, 0xf4, 0xb9, 0x20, 0x23, 0x98,
    0xf3, 0x92,
];

const SHA256_EMPTY: [u8; 32] = [
    0xe3, 0xb0, 0xc4, 0x42, 0x98, 0xfc, 0x1c, 0x14, 0x9a, 0xfb, 0xf4, 0xc8, 0x99, 0x6f, 0xb9,
    0x24, 0x27, 0xae, 0x41, 0xe4, 0x64, 0x9b, 0x93, 0x4c, 0xa4, 0x95, 0x99, 0x1b, 0x78, 0x52,
    0xb8, 0x55,
];

const SHA3_256_EMPTY: [u8; 32] = [
    0xa7, 0xff, 0xc6, 0xf8, 0xbf, 0x1e, 0xd7, 0x66, 0x51, 0xc1, 0x47, 0x56, 0xa0, 0x61, 0xd6,
    0x62, 0xf5, 0x80, 0xff, 0x4d, 0xe4, 0x3b, 0x49, 0xfa, 0x82, 0xd8, 0x0a, 0x4b, 0x80, 0xf8,
    0x43, 0x4a,
];

fn one_shot(algorithm_id: u32, input: &[u8]) -> [u8; 32] {
    let mut state = CryptoContext::new();
    assert_eq!(
        crypto_init(Some(&mut state), algorithm_id),
        CryptoResult::Success
    );
    assert_eq!(
        crypto_update(Some(&mut state), Some(input)),
        CryptoResult::Success
    );
    let mut digest = [0u8; 32];
    assert_eq!(
        crypto_finalize(Some(&mut state), Some(&mut digest[..])),
        CryptoResult::Success
    );
    digest
}

#[test]
fn test_sha3_256() {
    let mut state = CryptoContext::new();
    assert_eq!(
        crypto_init(Some(&mut state), SHA3_256_ALG_ID),
        CryptoResult::Success
    );

    // Update with the string "hello"
    let input = b"hello";
    assert_eq!(
        crypto_update(Some(&mut state), Some(&input[..])),
        CryptoResult::Success
    );

    // Finalize and get the digest
    let mut digest = [0u8; 32];
    assert_eq!(
        crypto_finalize(Some(&mut state), Some(&mut digest[..])),
        CryptoResult::Success
    );

    // Expected output of SHA3_256 of hello string (utf8)
    assert_eq!(digest, SHA3_256_HELLO);
}

#[test]
fn test_sha256() {
    let mut state = CryptoContext::new();
    assert_eq!(
        crypto_init(Some(&mut state), SHA256_ALG_ID),
        CryptoResult::Success
    );

    // Update with the string "hello"
    let input = b"hello";
    assert_eq!(
        crypto_update(Some(&mut state), Some(&input[..])),
        CryptoResult::Success
    );

    // Finalize and get the digest
    let mut digest = [0u8; 32];
    assert_eq!(
        crypto_finalize(Some(&mut state), Some(&mut digest[..])),
        CryptoResult::Success
    );

    // Expected output of SHA256 of hello string (utf8)
    assert_eq!(digest, SHA256_HELLO);
}

#[test]
fn empty_input_digests() {
    // init followed directly by finalize yields the digest of the empty input
    let mut state = CryptoContext::new();
    assert_eq!(
        crypto_init(Some(&mut state), SHA256_ALG_ID),
        CryptoResult::Success
    );
    let mut digest = [0u8; 32];
    assert_eq!(
        crypto_finalize(Some(&mut state), Some(&mut digest[..])),
        CryptoResult::Success
    );
    assert_eq!(digest, SHA256_EMPTY);

    assert_eq!(
        crypto_init(Some(&mut state), SHA3_256_ALG_ID),
        CryptoResult::Success
    );
    let mut digest = [0u8; 32];
    assert_eq!(
        crypto_finalize(Some(&mut state), Some(&mut digest[..])),
        CryptoResult::Success
    );
    assert_eq!(digest, SHA3_256_EMPTY);
}

#[test]
fn split_update_equals_one_shot() {
    for &alg in &[SHA256_ALG_ID, SHA3_256_ALG_ID] {
        let mut state = CryptoContext::new();
        assert_eq!(crypto_init(Some(&mut state), alg), CryptoResult::Success);
        assert_eq!(
            crypto_update(Some(&mut state), Some(&b"he"[..])),
            CryptoResult::Success
        );
        assert_eq!(
            crypto_update(Some(&mut state), Some(&b"llo"[..])),
            CryptoResult::Success
        );
        let mut split_digest = [0u8; 32];
        assert_eq!(
            crypto_finalize(Some(&mut state), Some(&mut split_digest[..])),
            CryptoResult::Success
        );
        assert_eq!(split_digest, one_shot(alg, b"hello"));
    }
}

#[test]
fn zero_length_update_is_a_no_op() {
    let mut state = CryptoContext::new();
    assert_eq!(
        crypto_init(Some(&mut state), SHA256_ALG_ID),
        CryptoResult::Success
    );
    assert_eq!(
        crypto_update(Some(&mut state), Some(&b""[..])),
        CryptoResult::Success
    );
    let mut digest = [0u8; 32];
    assert_eq!(
        crypto_finalize(Some(&mut state), Some(&mut digest[..])),
        CryptoResult::Success
    );
    assert_eq!(digest, SHA256_EMPTY);
}

#[test]
fn finalize_resets_the_state() {
    // after a finalize the context hashes only the bytes fed afterwards
    let mut state = CryptoContext::new();
    assert_eq!(
        crypto_init(Some(&mut state), SHA256_ALG_ID),
        CryptoResult::Success
    );
    assert_eq!(
        crypto_update(Some(&mut state), Some(&b"abc"[..])),
        CryptoResult::Success
    );
    let mut first = [0u8; 32];
    assert_eq!(
        crypto_finalize(Some(&mut state), Some(&mut first[..])),
        CryptoResult::Success
    );
    assert_eq!(
        crypto_update(Some(&mut state), Some(&b"hello"[..])),
        CryptoResult::Success
    );
    let mut second = [0u8; 32];
    assert_eq!(
        crypto_finalize(Some(&mut state), Some(&mut second[..])),
        CryptoResult::Success
    );
    assert_eq!(second, SHA256_HELLO);
}

#[test]
fn unsupported_algorithm_ids_are_rejected() {
    let mut state = CryptoContext::new();
    // the next unused identifier after the registered ones
    assert_eq!(
        crypto_init(Some(&mut state), 2),
        CryptoResult::BadOrUnsupportedAlgorithm
    );
    assert_eq!(
        crypto_init(Some(&mut state), 3),
        CryptoResult::BadOrUnsupportedAlgorithm
    );
    // a negative value cast to the identifier type, also its maximum
    assert_eq!(
        crypto_init(Some(&mut state), 0u32.wrapping_sub(1)),
        CryptoResult::BadOrUnsupportedAlgorithm
    );
    assert_eq!(
        crypto_init(Some(&mut state), u32::MAX),
        CryptoResult::BadOrUnsupportedAlgorithm
    );
}

#[test]
fn null_pointers_are_rejected() {
    assert_eq!(
        crypto_init(None, SHA256_ALG_ID),
        CryptoResult::PointerCannotBeNull
    );

    let mut state = CryptoContext::new();
    assert_eq!(
        crypto_init(Some(&mut state), SHA256_ALG_ID),
        CryptoResult::Success
    );
    assert_eq!(
        crypto_update(None, Some(&b"hello"[..])),
        CryptoResult::PointerCannotBeNull
    );
    assert_eq!(
        crypto_update(Some(&mut state), None),
        CryptoResult::PointerCannotBeNull
    );
    // a null input pointer is an error even for a zero-length update
    assert_eq!(
        crypto_update(Some(&mut state), None),
        CryptoResult::PointerCannotBeNull
    );
    let mut digest = [0u8; 32];
    assert_eq!(
        crypto_finalize(None, Some(&mut digest[..])),
        CryptoResult::PointerCannotBeNull
    );
    assert_eq!(
        crypto_finalize(Some(&mut state), None),
        CryptoResult::PointerCannotBeNull
    );
    // none of the failures disturbed the context
    assert_eq!(
        crypto_update(Some(&mut state), Some(&b"hello"[..])),
        CryptoResult::Success
    );
    assert_eq!(
        crypto_finalize(Some(&mut state), Some(&mut digest[..])),
        CryptoResult::Success
    );
    assert_eq!(digest, SHA256_HELLO);
}

#[test]
fn wrong_output_length_is_rejected() {
    let mut state = CryptoContext::new();
    assert_eq!(
        crypto_init(Some(&mut state), SHA256_ALG_ID),
        CryptoResult::Success
    );
    assert_eq!(
        crypto_update(Some(&mut state), Some(&b"hello"[..])),
        CryptoResult::Success
    );

    // one byte short and one byte long: rejected, buffer untouched
    let mut short = [0u8; 31];
    assert_eq!(
        crypto_finalize(Some(&mut state), Some(&mut short[..])),
        CryptoResult::BadBufferOutputSize
    );
    assert_eq!(short, [0u8; 31]);
    let mut long = [0u8; 33];
    assert_eq!(
        crypto_finalize(Some(&mut state), Some(&mut long[..])),
        CryptoResult::BadBufferOutputSize
    );
    assert_eq!(long, [0u8; 33]);

    // the rejections did not consume the fed input
    let mut digest = [0u8; 32];
    assert_eq!(
        crypto_finalize(Some(&mut state), Some(&mut digest[..])),
        CryptoResult::Success
    );
    assert_eq!(digest, SHA256_HELLO);
}

#[test]
fn uninitialized_context_is_reported() {
    let mut state = CryptoContext::new();
    assert_eq!(
        crypto_update(Some(&mut state), Some(&b"hello"[..])),
        CryptoResult::UninitializedOrCorruptedContext
    );
    let mut digest = [0u8; 32];
    assert_eq!(
        crypto_finalize(Some(&mut state), Some(&mut digest[..])),
        CryptoResult::UninitializedOrCorruptedContext
    );
    assert_eq!(digest, [0u8; 32]);
}

#[test]
fn reinit_switches_the_algorithm() {
    let mut state = CryptoContext::new();
    assert_eq!(
        crypto_init(Some(&mut state), SHA256_ALG_ID),
        CryptoResult::Success
    );
    assert_eq!(
        crypto_update(Some(&mut state), Some(&b"discarded"[..])),
        CryptoResult::Success
    );
    // a new init discards the old state without warning
    assert_eq!(
        crypto_init(Some(&mut state), SHA3_256_ALG_ID),
        CryptoResult::Success
    );
    assert_eq!(
        crypto_update(Some(&mut state), Some(&b"hello"[..])),
        CryptoResult::Success
    );
    let mut digest = [0u8; 32];
    assert_eq!(
        crypto_finalize(Some(&mut state), Some(&mut digest[..])),
        CryptoResult::Success
    );
    assert_eq!(digest, SHA3_256_HELLO);
}
