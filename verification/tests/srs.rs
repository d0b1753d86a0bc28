use acir_backend::errors::BackendError;
use acir_backend::srs::{srs_init, Srs};

#[test]
fn srs_accepts_matching_point_data() {
    // Two G1 points at 64 bytes each, and the fixed G2 set.
    let srs = Srs::new(2, vec![1u8; 128], vec![2u8; 128]).unwrap();
    assert_eq!(srs.num_points, 2);
    assert_eq!(srs.g1_data.len(), 128);
    assert_eq!(srs.g2_data.len(), 128);
}

#[test]
fn srs_rejects_short_g1_run() {
    let err = Srs::new(2, vec![1u8; 127], vec![2u8; 128]).unwrap_err();
    assert_eq!(err, BackendError::MalformedBuffer);
}

#[test]
fn srs_rejects_wrong_g2_size() {
    let err = Srs::new(1, vec![1u8; 64], vec![2u8; 64]).unwrap_err();
    assert_eq!(err, BackendError::MalformedBuffer);
}

#[test]
fn srs_init_frames_both_point_sets() {
    let srs = Srs::new(1, vec![7u8; 64], vec![9u8; 128]).unwrap();
    let (g1_framed, g2_framed) = srs_init(&srs).unwrap();
    assert_eq!(&g1_framed[..4], &[0u8, 0, 0, 64]);
    assert_eq!(&g1_framed[4..], &[7u8; 64]);
    assert_eq!(&g2_framed[..4], &[0u8, 0, 0, 128]);
    assert_eq!(&g2_framed[4..], &[9u8; 128]);
}
