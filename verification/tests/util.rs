use googlesheets::util::{get_a1_notation, get_column_notation};

#[test]
fn it_works() {
    assert_eq!(2 + 2, 4);
}

#[test]
fn test_column_notation_single_letters() {
    assert_eq!(get_column_notation(0).unwrap(), "A");
    assert_eq!(get_column_notation(3).unwrap(), "D");
    assert_eq!(get_column_notation(25).unwrap(), "Z");
}

#[test]
fn test_column_notation_double_letters() {
    assert_eq!(get_column_notation(26).unwrap(), "AA");
    assert_eq!(get_column_notation(27).unwrap(), "AB");
    assert_eq!(get_column_notation(52).unwrap(), "BA");
    assert_eq!(get_column_notation(701).unwrap(), "ZZ");
}

#[test]
fn test_column_notation_high() {
    assert_eq!(get_column_notation(702).unwrap(), "AAA");
    assert_eq!(get_column_notation(703).unwrap(), "AAB");
    assert_eq!(get_column_notation(1567).unwrap(), "BHH");
    assert_eq!(get_column_notation(720).unwrap(), "AAS");
    assert_eq!(get_column_notation(14838).unwrap(), "UXS");
    assert_eq!(get_column_notation(17439).unwrap(), "YTT");
    assert_eq!(get_column_notation(18276).unwrap(), "ZZY");
    // highest possible column -- column ZZZ at #18277
    assert_eq!(get_column_notation(18277).unwrap(), "ZZZ");
}

#[test]
fn test_a1_notation_001() {
    assert_eq!(
        get_a1_notation(Some(0), Some(0), Some(0), Some(0)).unwrap(),
        String::from("A1:A1")
    );
}

#[test]
fn test_a1_notation_002() {
    assert_eq!(
        get_a1_notation(Some(0), None, Some(0), Some(0)).unwrap(),
        String::from("A1:A")
    );
    assert_eq!(
        get_a1_notation(Some(0), Some(0), Some(0), None).unwrap(),
        String::from("A1:A")
    );
}

#[test]
fn test_a1_notation_003() {
    assert_eq!(
        get_a1_notation(Some(0), Some(1), Some(1), Some(4)).unwrap(),
        String::from("A2:B5")
    );
}

#[test]
fn test_a1_notation_004() {
    assert_eq!(
        get_a1_notation(Some(0), None, Some(3), None).unwrap(),
        String::from("A:D")
    );
}

#[test]
fn test_a1_notation_005() {
    assert_eq!(
        get_a1_notation(None, Some(9), Some(3), Some(17)).unwrap(),
        String::from("10:D18"),
    );

    assert_eq!(
        get_a1_notation(None, Some(9), None, Some(17)).unwrap(),
        String::from("10:18"),
    );
}
