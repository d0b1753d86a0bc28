use acir_backend::buffer::{decode, decode_layers, encode, Buffer};
use acir_backend::errors::BackendError;

#[test]
fn round_trip_bytes() {
    let payload = vec![1u8, 2, 3];
    let framed = encode(&payload).unwrap();
    assert_eq!(framed, vec![0u8, 0, 0, 3, 1, 2, 3]);
    let decoded = decode(&framed).unwrap();
    assert_eq!(decoded.to_vec(), payload);
}

#[test]
fn round_trip_empty() {
    let framed = encode(&[]).unwrap();
    assert_eq!(framed, vec![0u8, 0, 0, 0]);
    let decoded = decode(&framed).unwrap();
    assert_eq!(decoded.to_vec(), Vec::<u8>::new());
}

#[test]
fn prefix_is_big_endian() {
    let payload = vec![7u8; 300];
    let framed = encode(&payload).unwrap();
    assert_eq!(&framed[..4], &[0u8, 0, 1, 44]);
    assert_eq!(framed.len(), 304);
}

#[test]
fn decode_short_header_fails() {
    assert_eq!(decode(&[]).unwrap_err(), BackendError::MalformedBuffer);
    assert_eq!(decode(&[0u8, 0, 0]).unwrap_err(), BackendError::MalformedBuffer);
}

#[test]
fn decode_declared_length_underrun_fails() {
    // The header declares five payload bytes; only two are available.
    let source = vec![0u8, 0, 0, 5, 1, 2];
    assert_eq!(decode(&source).unwrap_err(), BackendError::MalformedBuffer);
}

#[test]
fn decode_ignores_trailing_bytes() {
    let source = vec![0u8, 0, 0, 1, 9, 99, 99];
    assert_eq!(decode(&source).unwrap().to_vec(), vec![9u8]);
}

#[test]
fn double_wrapped_payload_needs_two_passes() {
    let payload = vec![4u8, 5, 6];
    let once = encode(&payload).unwrap();
    let twice = encode(&once).unwrap();
    assert_eq!(decode_layers(&twice, 2).unwrap().to_vec(), payload);
    // One pass peels only the outer frame.
    assert_eq!(decode_layers(&twice, 1).unwrap().to_vec(), once);
}

#[test]
fn decode_layers_zero_passes_through() {
    let bytes = vec![1u8, 2];
    assert_eq!(decode_layers(&bytes, 0).unwrap().to_vec(), bytes);
}

#[test]
fn decode_layers_fails_on_missing_layer() {
    let payload = vec![4u8, 5, 6];
    let once = encode(&payload).unwrap();
    assert_eq!(
        decode_layers(&once, 2).unwrap_err(),
        BackendError::MalformedBuffer
    );
}

#[test]
fn buffer_accessors_expose_payload() {
    let buf = Buffer::new(vec![1u8, 2, 3]);
    assert_eq!(buf.as_slice(), &[1u8, 2, 3]);
    assert_eq!(buf.to_vec(), vec![1u8, 2, 3]);
}
