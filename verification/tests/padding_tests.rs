use da_gas_oracle::extend_bytes_with_random;

#[test]
fn zero_extra_returns_input_unchanged() {
    let data = vec![0xde, 0xad, 0xbe, 0xef];
    let padded = extend_bytes_with_random(data.clone(), 0);
    assert_eq!(padded, data);
}

#[test]
fn zero_extra_on_empty_input() {
    let padded = extend_bytes_with_random(Vec::new(), 0);
    assert!(padded.is_empty());
}

#[test]
fn padding_grows_by_extra_and_keeps_prefix() {
    let data = vec![1u8, 2, 3];
    let padded = extend_bytes_with_random(data.clone(), 5);
    assert_eq!(padded.len(), data.len() + 5);
    assert_eq!(&padded[..data.len()], &data[..]);
}

#[test]
fn padding_empty_input() {
    let padded = extend_bytes_with_random(Vec::new(), 7);
    assert_eq!(padded.len(), 7);
}

#[test]
fn padding_large_extra() {
    let data = vec![42u8; 100];
    let padded = extend_bytes_with_random(data.clone(), 100_000);
    assert_eq!(padded.len(), 100_100);
    assert_eq!(&padded[..100], &data[..]);
}

#[test]
fn filler_is_reproducible() {
    let a = extend_bytes_with_random(vec![5u8, 6], 32);
    let b = extend_bytes_with_random(vec![9u8], 32);
    // The filler depends only on the position, not on the calldata.
    assert_eq!(&a[2..], &b[1..]);
}

#[test]
fn filler_is_not_trivial() {
    let padded = extend_bytes_with_random(Vec::new(), 64);
    let first = padded[0];
    // Constant filler would be discounted by a DA compressor; the generator
    // must produce varied bytes.
    assert!(padded.iter().any(|&b| b != first));
}
