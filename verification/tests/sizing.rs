use acir_backend::sizing::{get_circuit_sizes, srs_points_for, subgroup_size_for, u32_from_be_bytes};

#[test]
fn counts_are_read_big_endian() {
    // Engine-reported counts are big-endian byte runs whatever the host is.
    let (sizes, diag) = get_circuit_sizes(
        &[0, 0, 0, 4],
        &[0, 0, 1, 0],
        &[1, 0, 0, 0],
        Some(String::from("advisory")),
    );
    assert_eq!(sizes.exact, 4);
    assert_eq!(sizes.total, 256);
    assert_eq!(sizes.subgroup, 0x0100_0000);
    assert_eq!(diag, Some(String::from("advisory")));
}

#[test]
fn zeroed_reply_is_returned_as_zeros() {
    let (sizes, diag) = get_circuit_sizes(
        &[0, 0, 0, 0],
        &[0, 0, 0, 0],
        &[0, 0, 0, 0],
        Some(String::from("engine failed")),
    );
    assert_eq!((sizes.exact, sizes.total, sizes.subgroup), (0, 0, 0));
    assert!(diag.is_some());
}

#[test]
fn be_reading_matches_known_words() {
    assert_eq!(u32_from_be_bytes(&[0, 0, 0, 1]), 1);
    assert_eq!(u32_from_be_bytes(&[0xde, 0xad, 0xbe, 0xef]), 0xdead_beef);
    assert_eq!(u32_from_be_bytes(&[0xff, 0xff, 0xff, 0xff]), u32::MAX);
}

#[test]
fn subgroup_is_smallest_covering_power_of_two() {
    assert_eq!(subgroup_size_for(0), 1);
    assert_eq!(subgroup_size_for(1), 1);
    assert_eq!(subgroup_size_for(2), 2);
    assert_eq!(subgroup_size_for(3), 4);
    assert_eq!(subgroup_size_for(4), 4);
    assert_eq!(subgroup_size_for(5), 8);
    assert_eq!(subgroup_size_for(1025), 2048);
    assert_eq!(subgroup_size_for(0x8000_0000), 0x8000_0000);
}

#[test]
fn srs_point_count_is_subgroup_plus_one() {
    assert_eq!(srs_points_for(4), 5);
    assert_eq!(srs_points_for(1000), 1025);
}
