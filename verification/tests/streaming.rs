use sha1::Sha1;

fn hex(bytes: &[u8]) -> String {
    let mut text = String::new();
    for byte in bytes {
        text.push_str(&format!("{:02x}", byte));
    }
    text
}

fn varied(count: usize) -> Vec<u8> {
    (0..count).map(|i| (i % 251) as u8).collect()
}

fn in_chunks(message: &[u8], size: usize) -> [u8; 20] {
    let mut engine = Sha1::new();
    for chunk in message.chunks(size) {
        engine.update(chunk);
    }
    engine.fixed_result()
}

#[test]
fn new_engine_gives_the_empty_digest() {
    assert_eq!(hex(&Sha1::new().fixed_result()), "da39a3ee5e6b4b0d3255bfef95601890afd80709");
}

#[test]
fn default_engine_is_a_new_engine() {
    assert_eq!(Sha1::default().fixed_result(), Sha1::new().fixed_result());
    let mut engine = Sha1::default();
    engine.update(b"abc");
    assert_eq!(hex(&engine.fixed_result()), "a9993e364706816aba3e25717850c26c9cd0d89d");
}

#[test]
fn update_then_result() {
    let mut engine = Sha1::new();
    engine.update(b"hello world");
    assert_eq!(hex(&engine.fixed_result()), "2aae6c35c94fcfb415dbe95f408b9ce91ee846ed");
}

#[test]
fn finalize_agrees_with_fixed_result() {
    let mut first = Sha1::new();
    first.update(b"hello world");
    let mut second = Sha1::new();
    second.update(b"hello world");
    assert_eq!(first.finalize(), second.fixed_result());
    assert_eq!(hex(&Sha1::new().finalize()), "da39a3ee5e6b4b0d3255bfef95601890afd80709");
}

#[test]
fn empty_updates_change_nothing() {
    let mut engine = Sha1::new();
    engine.update(b"");
    engine.update(b"abc");
    engine.update(b"");
    assert_eq!(hex(&engine.fixed_result()), "a9993e364706816aba3e25717850c26c9cd0d89d");
}

#[test]
fn two_updates_equal_one() {
    let mut engine = Sha1::new();
    engine.update(b"hello ");
    engine.update(b"world");
    assert_eq!(hex(&engine.fixed_result()), "2aae6c35c94fcfb415dbe95f408b9ce91ee846ed");
}

#[test]
fn every_split_point_gives_the_same_digest() {
    let message = varied(200);
    let whole = Sha1::digest(&message);
    assert_eq!(hex(&whole), "54d11e99127d159799dbce10f51a75e697780478");
    for cut in 0..=message.len() {
        let mut engine = Sha1::new();
        engine.update(&message[..cut]);
        engine.update(&message[cut..]);
        assert_eq!(engine.fixed_result(), whole);
    }
}

#[test]
fn every_chunk_size_gives_the_same_digest() {
    let message = varied(1000);
    let whole = Sha1::digest(&message);
    assert_eq!(hex(&whole), "c9c960a0b925474fab83942cc27d504fc24ac37b");
    for size in [1, 2, 3, 7, 55, 56, 63, 64, 65, 127, 128, 129, 999, 1000] {
        assert_eq!(in_chunks(&message, size), whole);
    }
}

#[test]
fn byte_by_byte_across_block_boundaries() {
    for length in [55, 56, 63, 64, 65, 128] {
        let message = vec![b'a'; length];
        assert_eq!(in_chunks(&message, 1), Sha1::digest(&message));
    }
    assert_eq!(hex(&in_chunks(&vec![b'a'; 64], 1)), "0098ba824b5c16427bd7a1122a5a442a25ec644d");
}

#[test]
fn chain_takes_input_and_hands_the_engine_on() {
    let digest = Sha1::new().chain(b"hello").chain(b" ").chain(b"world").fixed_result();
    assert_eq!(hex(&digest), "2aae6c35c94fcfb415dbe95f408b9ce91ee846ed");
}

#[test]
fn reset_restores_a_new_engine() {
    let mut engine = Sha1::new();
    engine.update(&varied(200));
    engine.reset();
    engine.update(b"abc");
    assert_eq!(hex(&engine.fixed_result()), "a9993e364706816aba3e25717850c26c9cd0d89d");
}

#[test]
fn reset_with_bytes_pending_gives_the_empty_digest() {
    let mut engine = Sha1::new();
    engine.update(b"pending");
    engine.reset();
    assert_eq!(hex(&engine.fixed_result()), "da39a3ee5e6b4b0d3255bfef95601890afd80709");
}

#[test]
fn reset_of_a_new_engine_changes_nothing() {
    let mut engine = Sha1::new();
    engine.reset();
    engine.reset();
    engine.update(b"hello world");
    assert_eq!(hex(&engine.fixed_result()), "2aae6c35c94fcfb415dbe95f408b9ce91ee846ed");
}

#[test]
fn finalize_reset_gives_the_digest_and_a_new_engine() {
    let mut engine = Sha1::new();
    engine.update(b"abc");
    assert_eq!(hex(&engine.finalize_reset()), "a9993e364706816aba3e25717850c26c9cd0d89d");
    assert_eq!(hex(&engine.finalize_reset()), "da39a3ee5e6b4b0d3255bfef95601890afd80709");
    engine.update(b"hello world");
    assert_eq!(hex(&engine.finalize_reset()), "2aae6c35c94fcfb415dbe95f408b9ce91ee846ed");
}

#[test]
fn clones_go_on_independently() {
    let mut first = Sha1::new();
    first.update(b"hello ");
    let mut copy = first.clone();
    first.update(b"world");
    copy.update(b"there");
    assert_eq!(hex(&first.fixed_result()), "2aae6c35c94fcfb415dbe95f408b9ce91ee846ed");
    assert_eq!(hex(&copy.fixed_result()), "6e71b3cac15d32fe2d36c270887df9479c25c640");
}

#[test]
fn clone_keeps_the_state_it_was_taken_at() {
    let mut first = Sha1::new();
    first.update(&varied(100));
    let copy = first.clone();
    first.update(b"more");
    assert_eq!(copy.fixed_result(), Sha1::digest(&varied(100)));
    let mut longer = varied(100);
    longer.extend_from_slice(b"more");
    assert_eq!(first.fixed_result(), Sha1::digest(&longer));
}

#[test]
fn clone_of_a_finished_prefix_is_a_checkpoint() {
    let mut engine = Sha1::new();
    engine.update(b"hello ");
    let checkpoint = engine.clone();
    assert_eq!(hex(&engine.fixed_result()), "c4d871ad13ad00fde9a7bb7ff7ed2543aec54241");
    assert_eq!(
        hex(&checkpoint.chain(b"world").fixed_result()),
        "2aae6c35c94fcfb415dbe95f408b9ce91ee846ed"
    );
}
