use stm32h750xx_mt25_ql512_dfm::verify::{
    chunk_matches, verify_length, ReadChunk, VerifyStep, VERIFY_MISMATCH,
};
use stm32h750xx_mt25_ql512_dfm::Algorithm;

/// Drives the verification steps against a flash image, recording the
/// chunks read.
fn run(address: u32, size: u32, data: Option<&[u8]>, flash: &[u8]) -> (Vec<ReadChunk>, VerifyStep) {
    let (alg, _) = Algorithm::new();
    let mut reads = Vec::new();
    let mut step = alg.verify_start(address, size, data);
    while let VerifyStep::Read(chunk) = step {
        reads.push(chunk);
        let bytes = &flash[chunk.offset..chunk.offset + chunk.len];
        step = alg.verify(address, size, data, chunk, bytes);
    }
    (reads, step)
}

#[test]
fn length_is_smaller_of_size_and_data() {
    let d = [1u8; 10];
    assert_eq!(verify_length(4, Some(&d)), 4);
    assert_eq!(verify_length(40, Some(&d)), 10);
    assert_eq!(verify_length(40, None), 0);
}

#[test]
fn chunk_compare() {
    let data = [1u8, 2, 3, 4, 5];
    let c = ReadChunk { address: 0, offset: 2, len: 3 };
    assert!(chunk_matches(&[3, 4, 5, 9], &data, c));
    assert!(!chunk_matches(&[3, 4, 6], &data, c));
}

#[test]
fn verify_matching_reads_every_chunk() {
    let data: Vec<u8> = (0..150u32).map(|i| (i * 7) as u8).collect();
    let (reads, out) = run(0x9000_0000, 150, Some(&data), &data);
    assert_eq!(out, VerifyStep::Matched);
    assert_eq!(
        reads,
        vec![
            ReadChunk { address: 0x9000_0000, offset: 0, len: 64 },
            ReadChunk { address: 0x9000_0040, offset: 64, len: 64 },
            ReadChunk { address: 0x9000_0080, offset: 128, len: 22 },
        ]
    );
}

#[test]
fn verify_stops_at_first_differing_chunk() {
    let data: Vec<u8> = (0..200u32).map(|i| i as u8).collect();
    let mut flash = data.clone();
    flash[70] ^= 0xFF;
    let (reads, out) = run(0x9000_0000, 200, Some(&data), &flash);
    assert_eq!(out, VerifyStep::Mismatch);
    // the second chunk differs; the third and fourth are never read
    assert_eq!(reads.len(), 2);
    assert_eq!(reads[1], ReadChunk { address: 0x9000_0040, offset: 64, len: 64 });
}

#[test]
fn verify_mismatch_in_last_chunk() {
    let data: Vec<u8> = (0..200u32).map(|i| i as u8).collect();
    let mut flash = data.clone();
    flash[199] ^= 0xFF;
    let (reads, out) = run(0x9000_0000, 200, Some(&data), &flash);
    assert_eq!(out, VerifyStep::Mismatch);
    assert_eq!(reads.len(), 4);
}

#[test]
fn verify_only_compares_requested_size() {
    let data = [1u8, 2, 3, 4];
    let flash = [1u8, 2, 0xFF, 0xFF];
    assert_eq!(run(0x9000_0000, 2, Some(&data), &flash).1, VerifyStep::Matched);
    assert_eq!(run(0x9000_0000, 3, Some(&data), &flash).1, VerifyStep::Mismatch);
}

#[test]
fn verify_without_data_compares_nothing() {
    let (reads, out) = run(0x9000_0000, 100, None, &[]);
    assert_eq!(out, VerifyStep::Matched);
    assert!(reads.is_empty());
}

#[test]
fn verify_near_top_of_address_space() {
    // the last chunk starts at 0xFFFF_FFC0 and fits; only chunk starts are computed
    let data = [0xAAu8; 100];
    let (reads, out) = run(0xFFFF_FF80, 100, Some(&data), &data);
    assert_eq!(out, VerifyStep::Matched);
    assert_eq!(reads[1].address, 0xFFFF_FFC0);
}

#[test]
fn finished_verification_result() {
    assert_eq!(VerifyStep::Matched.outcome(), Ok(()));
    assert_eq!(VerifyStep::Mismatch.outcome(), Err(VERIFY_MISMATCH));
    assert_eq!(VERIFY_MISMATCH, 1);
    let data = [1u8, 2, 3];
    let (_, out) = run(0x9000_0000, 3, Some(&data), &[1, 2, 4]);
    assert_eq!(out.outcome(), Err(1));
}
