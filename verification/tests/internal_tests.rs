use cryptoctx::internal_hash_context::InternalHashContext;
use cryptoctx::{SHA256_ALG_ID, SHA3_256_ALG_ID};

const SHA256_HELLO: [u8; 32] = [
    0x2c, 0xf2, 0x4d, 0xba, 0x5f, 0xb0, 0xa3, 0x0e, 0x26, 0xe8, 0x3b, 0x2a, 0xc5, 0xb9, 0xe2,
    0x9e, 0x1b, 0x16, 0x1e, 0x5c, 0x1f, 0xa7, 0x42, 0x5e, 0x73, 0x04, 0x33, 0x62, 0x93, 0x8b,
    0x98, 0x24,
];

#[test]
fn registry_is_total() {
    assert!(InternalHashContext::new(SHA256_ALG_ID).is_some());
    assert!(InternalHashContext::new(SHA3_256_ALG_ID).is_some());
    assert!(InternalHashContext::new(2).is_none());
    assert!(InternalHashContext::new(u32::MAX).is_none());
}

#[test]
fn internal_state_streams_and_resets() {
    let mut ctx = InternalHashContext::new(SHA256_ALG_ID).unwrap();
    assert_eq!(ctx.output_size(), 32);
    ctx.udpate(b"he");
    ctx.udpate(b"llo");
    let mut digest = [0u8; 32];
    ctx.finalize(&mut digest[..]);
    assert_eq!(digest, SHA256_HELLO);
    // the state reset by finalize accepts a fresh sequence
    ctx.udpate(b"hello");
    let mut second = [0u8; 32];
    ctx.finalize(&mut second[..]);
    assert_eq!(second, SHA256_HELLO);
}
