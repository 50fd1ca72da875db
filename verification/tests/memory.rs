use rvsim::error::Error;
use rvsim::mem::{Mem, DEFAULT_CAPACITY};

#[test]
fn new_memory_is_zeroed() {
    let mem = Mem::new();
    assert_eq!(DEFAULT_CAPACITY, 8096);
    assert_eq!(mem.capacity(), 8096);
    let all = mem.get(0).unwrap();
    assert_eq!(all.len(), 8096);
    assert!(all.iter().all(|&b| b == 0));
}

#[test]
fn with_capacity_sets_size() {
    let mem = Mem::with_capacity(16);
    assert_eq!(mem.capacity(), 16);
    assert_eq!(mem.get(0).unwrap(), &[0u8; 16][..]);
    let empty = Mem::with_capacity(0);
    assert_eq!(empty.capacity(), 0);
    assert_eq!(empty.get(0), Err(Error::OutOfBounds));
}

#[test]
fn load_copies_from_address_zero() {
    let mut mem = Mem::with_capacity(8);
    assert_eq!(mem.memcpy_origin(vec![1, 2, 3]), Ok(()));
    assert_eq!(mem.get(0).unwrap(), &[1u8, 2, 3, 0, 0, 0, 0, 0][..]);
    assert_eq!(mem.capacity(), 8);
    // A second image overwrites only as far as it reaches.
    assert_eq!(mem.memcpy_origin(vec![9]), Ok(()));
    assert_eq!(mem.get(0).unwrap(), &[9u8, 2, 3, 0, 0, 0, 0, 0][..]);
    assert_eq!(mem.memcpy_origin(Vec::new()), Ok(()));
    assert_eq!(mem.get(0).unwrap(), &[9u8, 2, 3, 0, 0, 0, 0, 0][..]);
}

#[test]
fn load_of_full_size_fits() {
    let mut mem = Mem::with_capacity(4);
    assert_eq!(mem.memcpy_origin(vec![4, 3, 2, 1]), Ok(()));
    assert_eq!(mem.get(0).unwrap(), &[4u8, 3, 2, 1][..]);
}

#[test]
fn load_longer_than_memory_is_refused() {
    let mut mem = Mem::with_capacity(4);
    assert_eq!(mem.memcpy_origin(vec![7, 7]), Ok(()));
    assert_eq!(mem.memcpy_origin(vec![1, 2, 3, 4, 5]), Err(Error::OutOfBounds));
    assert_eq!(mem.get(0).unwrap(), &[7u8, 7, 0, 0][..]);

    let mut big = Mem::new();
    assert_eq!(big.memcpy_origin(vec![1; 8097]), Err(Error::OutOfBounds));
    assert!(big.get(0).unwrap().iter().all(|&b| b == 0));
    assert_eq!(big.memcpy_origin(vec![1; 8096]), Ok(()));
    assert!(big.get(0).unwrap().iter().all(|&b| b == 1));
}

#[test]
fn window_runs_to_the_end() {
    let mut mem = Mem::with_capacity(6);
    mem.memcpy_origin(vec![10, 11, 12, 13, 14, 15]).unwrap();
    assert_eq!(mem.get(0).unwrap(), &[10u8, 11, 12, 13, 14, 15][..]);
    assert_eq!(mem.get(2).unwrap(), &[12u8, 13, 14, 15][..]);
    assert_eq!(mem.get(5).unwrap(), &[15u8][..]);
}

#[test]
fn window_at_or_past_capacity_is_out_of_bounds() {
    let mem = Mem::with_capacity(6);
    assert_eq!(mem.get(6), Err(Error::OutOfBounds));
    assert_eq!(mem.get(7), Err(Error::OutOfBounds));
    assert_eq!(mem.get(u64::MAX), Err(Error::OutOfBounds));
    let default = Mem::new();
    assert!(default.get(8095).is_ok());
    assert_eq!(default.get(8096), Err(Error::OutOfBounds));
}

#[test]
fn write_stores_inside_bounds() {
    let mut mem = Mem::with_capacity(8);
    assert_eq!(mem.write(2, &[1, 2, 3]), Ok(()));
    assert_eq!(mem.get(0).unwrap(), &[0u8, 0, 1, 2, 3, 0, 0, 0][..]);
    assert_eq!(mem.write(5, &[4, 5, 6]), Ok(()));
    assert_eq!(mem.get(0).unwrap(), &[0u8, 0, 1, 2, 3, 4, 5, 6][..]);
    assert_eq!(mem.write(7, &[]), Ok(()));
    assert_eq!(mem.get(0).unwrap(), &[0u8, 0, 1, 2, 3, 4, 5, 6][..]);
}

#[test]
fn write_past_the_end_stores_nothing() {
    let mut mem = Mem::with_capacity(8);
    mem.write(0, &[1, 1, 1, 1, 1, 1, 1, 1]).unwrap();
    assert_eq!(mem.write(6, &[9, 9, 9]), Err(Error::OutOfBounds));
    assert_eq!(mem.write(8, &[9]), Err(Error::OutOfBounds));
    assert_eq!(mem.write(u64::MAX, &[9]), Err(Error::OutOfBounds));
    assert_eq!(mem.write(u64::MAX, &[9, 9]), Err(Error::OutOfBounds));
    assert_eq!(mem.write(0, &[9; 9]), Err(Error::OutOfBounds));
    assert_eq!(mem.get(0).unwrap(), &[1u8; 8][..]);
}
