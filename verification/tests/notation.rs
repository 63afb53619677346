use googlesheets::util::{get_a1_notation, get_column_notation, RangeError, MAX_COLUMN};

#[test]
fn column_beyond_last_supported_is_out_of_range() {
    assert_eq!(MAX_COLUMN, 18277);
    assert_eq!(get_column_notation(18278), Err(RangeError::OutOfRange));
    assert_eq!(get_column_notation(usize::MAX), Err(RangeError::OutOfRange));
}

#[test]
fn column_digit_length_boundaries() {
    // the last two-letter block boundary
    assert_eq!(get_column_notation(675).unwrap(), "YZ");
    assert_eq!(get_column_notation(676).unwrap(), "ZA");
    assert_eq!(get_column_notation(700).unwrap(), "ZY");
    // three-letter names start right after "ZZ"
    assert_eq!(get_column_notation(728).unwrap(), "ABA");
    // carries across the middle letter
    assert_eq!(get_column_notation(1352).unwrap(), "AZA");
    assert_eq!(get_column_notation(1377).unwrap(), "AZZ");
    assert_eq!(get_column_notation(1378).unwrap(), "BAA");
    // carries into the leading letter near the top of the range
    assert_eq!(get_column_notation(17575).unwrap(), "YYZ");
    assert_eq!(get_column_notation(17576).unwrap(), "YZA");
    assert_eq!(get_column_notation(17602).unwrap(), "ZAA");
    assert_eq!(get_column_notation(18251).unwrap(), "ZYZ");
}

#[test]
fn range_with_unsupported_column_is_out_of_range() {
    assert_eq!(
        get_a1_notation(Some(18278), Some(0), Some(0), Some(0)),
        Err(RangeError::OutOfRange)
    );
    assert_eq!(
        get_a1_notation(Some(0), Some(0), Some(18278), Some(0)),
        Err(RangeError::OutOfRange)
    );
    assert_eq!(
        get_a1_notation(None, Some(0), Some(18278), Some(1)),
        Err(RangeError::OutOfRange)
    );
    assert_eq!(
        get_a1_notation(Some(18278), None, Some(18278), None),
        Err(RangeError::OutOfRange)
    );
}

#[test]
fn unrecognized_shapes_are_invalid() {
    assert_eq!(
        get_a1_notation(None, None, None, None),
        Err(RangeError::InvalidRangeShape)
    );
    assert_eq!(
        get_a1_notation(Some(0), Some(0), None, None),
        Err(RangeError::InvalidRangeShape)
    );
    assert_eq!(
        get_a1_notation(Some(0), None, None, Some(0)),
        Err(RangeError::InvalidRangeShape)
    );
    assert_eq!(
        get_a1_notation(None, None, Some(2), Some(2)),
        Err(RangeError::InvalidRangeShape)
    );
    assert_eq!(
        get_a1_notation(None, Some(1), Some(2), None),
        Err(RangeError::InvalidRangeShape)
    );
    assert_eq!(
        get_a1_notation(None, None, None, Some(4)),
        Err(RangeError::InvalidRangeShape)
    );
}

#[test]
fn rectangle_and_row_ranges() {
    assert_eq!(
        get_a1_notation(Some(0), Some(0), Some(2), Some(2)).unwrap(),
        "A1:C3"
    );
    assert_eq!(get_a1_notation(None, Some(4), None, Some(8)).unwrap(), "5:9");
    assert_eq!(
        get_a1_notation(None, Some(4), Some(2), Some(8)).unwrap(),
        "5:C9"
    );
}

#[test]
fn multi_digit_row_labels() {
    assert_eq!(
        get_a1_notation(None, Some(98), None, Some(99999)).unwrap(),
        "99:100000"
    );
    assert_eq!(
        get_a1_notation(Some(701), Some(9), Some(702), Some(10419)).unwrap(),
        "ZZ10:AAA10420"
    );
}
