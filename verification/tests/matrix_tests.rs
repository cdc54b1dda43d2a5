use polyview::matrix::{AlignmentError, AlignmentMatrix, Record};

fn record(id: &str, symbols: &[u8]) -> Record {
    Record { id: id.to_string(), symbols: symbols.to_vec() }
}

#[test]
fn zero_records_fail_as_empty_alignment() {
    let result = AlignmentMatrix::build(&Vec::new(), &String::new());
    assert_eq!(result.err(), Some(AlignmentError::EmptyAlignment));
}

#[test]
fn zero_width_records_fail_as_empty_alignment() {
    let records = vec![record("a", b""), record("b", b"")];
    let result = AlignmentMatrix::build(&records, &String::new());
    assert_eq!(result.err(), Some(AlignmentError::EmptyAlignment));
}

#[test]
fn length_mismatch_names_the_offending_record() {
    let records = vec![
        record("a", b"ACGTACGTAC"),
        record("b", b"TTGTACGTAC"),
        record("c", b"ACGTACG"),
    ];
    let result = AlignmentMatrix::build(&records, &String::new());
    assert_eq!(
        result.err(),
        Some(AlignmentError::AlignmentLengthMismatch { index: 2, length: 7, width: 10 }),
    );
}

#[test]
fn absent_reference_name_selects_the_first_record() {
    let records = vec![
        record("alpha", b"ACGTACGTAC"),
        record("beta", b"ACGTACGTTT"),
        record("gamma", b"ACGTACGTGG"),
    ];
    let m = AlignmentMatrix::build(&records, &String::new()).unwrap();
    assert_eq!(m.reference_index(), 0);
}

#[test]
fn matching_reference_name_selects_that_record() {
    let records = vec![
        record("alpha", b"ACGTACGTAC"),
        record("beta", b"ACGTACGTTT"),
        record("gamma", b"ACGTACGTGG"),
    ];
    let m = AlignmentMatrix::build(&records, &"gamma".to_string()).unwrap();
    assert_eq!(m.reference_index(), 2);
}

#[test]
fn unknown_reference_name_falls_back_to_the_first_record() {
    let records = vec![record("alpha", b"AC"), record("beta", b"GT")];
    let m = AlignmentMatrix::build(&records, &"delta".to_string()).unwrap();
    assert_eq!(m.reference_index(), 0);
}

#[test]
fn build_records_metrics_and_symbols() {
    let records = vec![record("id", b"ACG"), record("longer_id", b"T-C")];
    let m = AlignmentMatrix::build(&records, &String::new()).unwrap();
    assert_eq!(m.row_count(), 2);
    assert_eq!(m.width(), 3);
    assert_eq!(m.max_id_width(), 9);
    assert_eq!(m.id_at(0).as_str(), "id");
    assert_eq!(m.id_at(1).as_str(), "longer_id");
    assert_eq!(m.symbol_at(0, 0), b'A');
    assert_eq!(m.symbol_at(0, 2), b'G');
    assert_eq!(m.symbol_at(1, 0), b'T');
    assert_eq!(m.symbol_at(1, 1), b'-');
}
