use wasefire_core::rng::{Api, Board};

#[test]
fn fill_bytes_fills_the_whole_buffer() {
    let mut board = Board;
    let mut buffer = vec![0u8; 32];
    assert_eq!(board.fill_bytes(&mut buffer), Ok(()));
    assert_eq!(buffer.len(), 32);
}

#[test]
fn fill_bytes_draws_fresh_randomness() {
    let mut board = Board;
    let mut first = vec![0u8; 32];
    let mut second = vec![0u8; 32];
    assert_eq!(board.fill_bytes(&mut first), Ok(()));
    assert_eq!(board.fill_bytes(&mut second), Ok(()));
    // 32 fresh random bytes collide with negligible probability.
    assert_ne!(first, second);
}

#[test]
fn fill_bytes_accepts_an_empty_buffer() {
    let mut board = Board;
    let mut buffer: Vec<u8> = vec![];
    assert_eq!(board.fill_bytes(&mut buffer), Ok(()));
    assert!(buffer.is_empty());
}
