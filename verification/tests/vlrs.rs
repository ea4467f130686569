use whitebox_lidar::error::LasError;
use whitebox_lidar::vlr::Vlr;

fn padded(text: &str, len: usize) -> Vec<u8> {
    let mut out = text.as_bytes().to_vec();
    out.resize(len, 0);
    out
}

fn vlr(user: &str, record_id: u16, payload: &[u8]) -> Vlr {
    Vlr::new(0, &padded(user, 16), record_id, &padded("a description", 32), payload.to_vec())
        .unwrap()
}

fn descriptor(user: &str, record_id: u16, declared: u16) -> Vec<u8> {
    let mut out = vec![0xAA, 0xBB];
    out.extend_from_slice(&padded(user, 16));
    out.extend_from_slice(&record_id.to_le_bytes());
    out.extend_from_slice(&declared.to_le_bytes());
    out.extend_from_slice(&padded("a description", 32));
    out
}

#[test]
fn a_record_is_made_only_of_fields_of_the_right_lengths() {
    assert!(Vlr::new(0, &[0; 16], 1, &[0; 32], vec![]).is_some());
    assert!(Vlr::new(0, &[0; 15], 1, &[0; 32], vec![]).is_none());
    assert!(Vlr::new(0, &[0; 17], 1, &[0; 32], vec![]).is_none());
    assert!(Vlr::new(0, &[0; 16], 1, &[0; 31], vec![]).is_none());
    assert!(Vlr::new(0, &[0; 16], 1, &[0; 32], vec![0; 65535]).is_some());
    assert!(Vlr::new(0, &[0; 16], 1, &[0; 32], vec![0; 65536]).is_none());
}

#[test]
fn a_record_gives_its_fields() {
    let v = Vlr::new(7, &padded("LASF_Projection", 16), 34735, &padded("keys", 32), vec![1, 2, 3])
        .unwrap();
    assert_eq!(v.reserved(), 7);
    assert_eq!(v.user_id(), &padded("LASF_Projection", 16));
    assert_eq!(v.record_id(), 34735);
    assert_eq!(v.description(), &padded("keys", 32));
    assert_eq!(v.payload(), &vec![1, 2, 3]);
    assert_eq!(v.byte_len(), 57);
    assert_eq!(v.clone(), v);
}

#[test]
fn a_record_is_written_as_descriptor_and_payload() {
    let mut out = vec![9];
    vlr("LASF_Spec", 4, &[10, 20, 30]).write(&mut out);
    let mut expected = vec![9, 0, 0];
    expected.extend_from_slice(&padded("LASF_Spec", 16));
    expected.extend_from_slice(&[4, 0, 3, 0]);
    expected.extend_from_slice(&padded("a description", 32));
    expected.extend_from_slice(&[10, 20, 30]);
    assert_eq!(out, expected);
}

#[test]
fn parse_all_reads_the_records_in_their_order() {
    let mut bytes = vec![0xEE; 5];
    bytes.extend_from_slice(&descriptor("first", 1, 3));
    bytes.extend_from_slice(&[1, 2, 3]);
    bytes.extend_from_slice(&descriptor("second", 2, 0));
    bytes.extend_from_slice(&descriptor("third", 3, 2));
    bytes.extend_from_slice(&[4, 5]);
    bytes.extend_from_slice(&[0xDD; 10]);
    let vlrs = Vlr::parse_all(&bytes, 3, 5).unwrap();
    assert_eq!(vlrs.len(), 3);
    assert_eq!(vlrs[0].reserved(), 0xBBAA);
    assert_eq!(vlrs[0].user_id(), &padded("first", 16));
    assert_eq!(vlrs[0].record_id(), 1);
    assert_eq!(vlrs[0].description(), &padded("a description", 32));
    assert_eq!(vlrs[0].payload(), &vec![1, 2, 3]);
    assert_eq!(vlrs[1].user_id(), &padded("second", 16));
    assert!(vlrs[1].payload().is_empty());
    assert_eq!(vlrs[2].record_id(), 3);
    assert_eq!(vlrs[2].payload(), &vec![4, 5]);
    assert_eq!(Vlr::parse_all(&bytes, 2, 5).unwrap().len(), 2);
    assert!(Vlr::parse_all(&bytes, 0, 5).unwrap().is_empty());
    assert!(Vlr::parse_all(&bytes, 0, 5000).unwrap().is_empty());
}

#[test]
fn parse_all_of_a_chain_whose_first_payload_is_cut_short() {
    let mut bytes = descriptor("first", 1, 54);
    bytes.extend_from_slice(&[7; 40]);
    assert_eq!(Vlr::parse_all(&bytes, 2, 0), Err(LasError::TruncatedVlr));
    assert_eq!(Vlr::parse_all(&bytes, 1, 0), Err(LasError::TruncatedVlr));
}

#[test]
fn a_record_cut_short_leaves_the_ones_before_it_readable() {
    let mut bytes = descriptor("good", 1, 4);
    bytes.extend_from_slice(&[1, 2, 3, 4]);
    bytes.extend_from_slice(&descriptor("cut", 2, 54));
    bytes.extend_from_slice(&[7; 40]);
    assert_eq!(Vlr::parse_all(&bytes, 2, 0), Err(LasError::TruncatedVlr));
    let first = Vlr::parse_all(&bytes, 1, 0).unwrap();
    assert_eq!(first.len(), 1);
    assert_eq!(first[0].user_id(), &padded("good", 16));
    assert_eq!(first[0].payload(), &vec![1, 2, 3, 4]);
}

#[test]
fn parse_all_fails_where_a_descriptor_does_not_fit() {
    let bytes = descriptor("first", 1, 0);
    assert_eq!(Vlr::parse_all(&bytes[..53], 1, 0), Err(LasError::TruncatedVlr));
    assert_eq!(Vlr::parse_all(&bytes, 1, 1), Err(LasError::TruncatedVlr));
    assert_eq!(Vlr::parse_all(&bytes, 2, 0), Err(LasError::TruncatedVlr));
    assert_eq!(Vlr::parse_all(&bytes, 1, 55), Err(LasError::TruncatedVlr));
    assert_eq!(Vlr::parse_all(&[], 1, 0), Err(LasError::TruncatedVlr));
    assert!(Vlr::parse_all(&bytes, 1, 0).is_ok());
}

#[test]
fn parse_all_reads_back_what_write_all_wrote() {
    let vlrs = vec![
        vlr("LASF_Projection", 34735, &[1, 2, 3, 4, 5, 6, 7, 8]),
        vlr("LASF_Spec", 4, &[]),
        vlr("LASF_Projection", 34737, b"NAD83|"),
    ];
    let mut bytes = vec![1, 2, 3];
    Vlr::write_all(&vlrs, &mut bytes);
    assert_eq!(bytes.len(), 3 + 3 * 54 + 8 + 6);
    assert_eq!(Vlr::parse_all(&bytes, 3, 3), Ok(vlrs));
}

#[test]
fn records_are_found_by_owner_and_record_id() {
    let vlrs = vec![
        vlr("LASF_Projection", 34735, &[1]),
        vlr("LASF_Spec", 4, &[2]),
        vlr("LASF_Projection", 34735, &[3]),
        vlr("LASF_Projection", 34737, &[4]),
        vlr("0123456789abcdef", 1, &[5]),
    ];
    assert_eq!(Vlr::find_all(&vlrs, b"LASF_Projection", 34735), vec![0, 2]);
    assert_eq!(Vlr::find_all(&vlrs, b"LASF_Projection", 34737), vec![3]);
    assert_eq!(Vlr::find_all(&vlrs, b"LASF_Spec", 4), vec![1]);
    assert_eq!(Vlr::find_all(&vlrs, b"LASF_Spec", 5), Vec::<usize>::new());
    assert_eq!(Vlr::find_all(&vlrs, b"LASF", 4), Vec::<usize>::new());
    assert_eq!(Vlr::find_all(&vlrs, b"0123456789abcdef", 1), vec![4]);
    assert_eq!(Vlr::find_all(&vlrs, b"0123456789abcdefg", 1), Vec::<usize>::new());
    assert_eq!(Vlr::find_all(&vec![], b"LASF_Spec", 4), Vec::<usize>::new());
    assert!(vlrs[1].is_named(b"LASF_Spec", 4));
    assert!(vlrs[1].is_named(&padded("LASF_Spec", 16), 4));
    assert!(!vlrs[1].is_named(b"LASF_Spe", 4));
}
