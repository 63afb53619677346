//! The A1 range-notation codec.
//!
//! Columns are named in a bijective base-26 numeral system over the 26
//! uppercase letters: there is no zero digit, so the one-letter names
//! cover column indices `[0, 25]`, the two-letter names `[26, 701]`,
//! and the three-letter names `[702, 18277]`.  Rows are printed
//! 1-indexed.  Both encoders are total over their stated domains and
//! report invalid input with a typed error instead of panicking.

use vstd::prelude::*;
use vstd::string::StringExecFns;

verus! {

/// The largest column index this codec supports: the last three-letter
/// column name.
pub const MAX_COLUMN: usize = 18277;

/// A failure of the codec, surfaced to the immediate caller.
#[derive(Clone, Copy, Debug, PartialEq, Eq, Structural)]
pub enum RangeError {
    /// The column index exceeds [`MAX_COLUMN`].
    OutOfRange,
    /// The coordinate tuple matches none of the recognized range shapes.
    InvalidRangeShape,
}

/// The letter used for digit `d` of a column name, `'A'` for 0 through
/// `'Z'` for 25.
pub open spec fn col_letter(d: int) -> char {
    if d == 0 {
        'A'
    } else if d == 1 {
        'B'
    } else if d == 2 {
        'C'
    } else if d == 3 {
        'D'
    } else if d == 4 {
        'E'
    } else if d == 5 {
        'F'
    } else if d == 6 {
        'G'
    } else if d == 7 {
        'H'
    } else if d == 8 {
        'I'
    } else if d == 9 {
        'J'
    } else if d == 10 {
        'K'
    } else if d == 11 {
        'L'
    } else if d == 12 {
        'M'
    } else if d == 13 {
        'N'
    } else if d == 14 {
        'O'
    } else if d == 15 {
        'P'
    } else if d == 16 {
        'Q'
    } else if d == 17 {
        'R'
    } else if d == 18 {
        'S'
    } else if d == 19 {
        'T'
    } else if d == 20 {
        'U'
    } else if d == 21 {
        'V'
    } else if d == 22 {
        'W'
    } else if d == 23 {
        'X'
    } else if d == 24 {
        'Y'
    } else {
        'Z'
    }
}

/// The column name of index `c` in the bijective base-26 system: the
/// last digit is `c % 26`, and the remaining digits are the name of
/// `c / 26 - 1` (the `- 1` is the carry correction for a numeral
/// system without a zero digit).
pub open spec fn col_name(c: int) -> Seq<char>
    decreases c,
{
    if c < 26 {
        seq![col_letter(c)]
    } else {
        col_name(c / 26 - 1) + seq![col_letter(c % 26)]
    }
}

/// The one-letter string for digit `d` of a column name.
fn letter_str(d: usize) -> (r: &'static str)
    requires
        d < 26,
    ensures
        r@ == seq![col_letter(d as int)],
{
    if d == 0 {
        proof {
            reveal_strlit("A");
            assert("A"@ =~= seq![col_letter(d as int)]);
        }
        "A"
    } else if d == 1 {
        proof {
            reveal_strlit("B");
            assert("B"@ =~= seq![col_letter(d as int)]);
        }
        "B"
    } else if d == 2 {
        proof {
            reveal_strlit("C");
            assert("C"@ =~= seq![col_letter(d as int)]);
        }
        "C"
    } else if d == 3 {
        proof {
            reveal_strlit("D");
            assert("D"@ =~= seq![col_letter(d as int)]);
        }
        "D"
    } else if d == 4 {
        proof {
            reveal_strlit("E");
            assert("E"@ =~= seq![col_letter(d as int)]);
        }
        "E"
    } else if d == 5 {
        proof {
            reveal_strlit("F");
            assert("F"@ =~= seq![col_letter(d as int)]);
        }
        "F"
    } else if d == 6 {
        proof {
            reveal_strlit("G");
            assert("G"@ =~= seq![col_letter(d as int)]);
        }
        "G"
    } else if d == 7 {
        proof {
            reveal_strlit("H");
            assert("H"@ =~= seq![col_letter(d as int)]);
        }
        "H"
    } else if d == 8 {
        proof {
            reveal_strlit("I");
            assert("I"@ =~= seq![col_letter(d as int)]);
        }
        "I"
    } else if d == 9 {
        proof {
            reveal_strlit("J");
            assert("J"@ =~= seq![col_letter(d as int)]);
        }
        "J"
    } else if d == 10 {
        proof {
            reveal_strlit("K");
            assert("K"@ =~= seq![col_letter(d as int)]);
        }
        "K"
    } else if d == 11 {
        proof {
            reveal_strlit("L");
            assert("L"@ =~= seq![col_letter(d as int)]);
        }
        "L"
    } else if d == 12 {
        proof {
            reveal_strlit("M");
            assert("M"@ =~= seq![col_letter(d as int)]);
        }
        "M"
    } else if d == 13 {
        proof {
            reveal_strlit("N");
            assert("N"@ =~= seq![col_letter(d as int)]);
        }
        "N"
    } else if d == 14 {
        proof {
            reveal_strlit("O");
            assert("O"@ =~= seq![col_letter(d as int)]);
        }
        "O"
    } else if d == 15 {
        proof {
            reveal_strlit("P");
            assert("P"@ =~= seq![col_letter(d as int)]);
        }
        "P"
    } else if d == 16 {
        proof {
            reveal_strlit("Q");
            assert("Q"@ =~= seq![col_letter(d as int)]);
        }
        "Q"
    } else if d == 17 {
        proof {
            reveal_strlit("R");
            assert("R"@ =~= seq![col_letter(d as int)]);
        }
        "R"
    } else if d == 18 {
        proof {
            reveal_strlit("S");
            assert("S"@ =~= seq![col_letter(d as int)]);
        }
        "S"
    } else if d == 19 {
        proof {
            reveal_strlit("T");
            assert("T"@ =~= seq![col_letter(d as int)]);
        }
        "T"
    } else if d == 20 {
        proof {
            reveal_strlit("U");
            assert("U"@ =~= seq![col_letter(d as int)]);
        }
        "U"
    } else if d == 21 {
        proof {
            reveal_strlit("V");
            assert("V"@ =~= seq![col_letter(d as int)]);
        }
        "V"
    } else if d == 22 {
        proof {
            reveal_strlit("W");
            assert("W"@ =~= seq![col_letter(d as int)]);
        }
        "W"
    } else if d == 23 {
        proof {
            reveal_strlit("X");
            assert("X"@ =~= seq![col_letter(d as int)]);
        }
        "X"
    } else if d == 24 {
        proof {
            reveal_strlit("Y");
            assert("Y"@ =~= seq![col_letter(d as int)]);
        }
        "Y"
    } else {
        proof {
            reveal_strlit("Z");
            assert("Z"@ =~= seq![col_letter(d as int)]);
        }
        "Z"
    }
}

/// The column name of `column`, for indices the codec supports.
fn column_name(column: usize) -> (s: String)
    requires
        column <= MAX_COLUMN,
    ensures
        s@ == col_name(column as int),
{
    if column < 26 {
        String::from_str(letter_str(column))
    } else if column < 702 {
        let s = String::from_str(letter_str(column / 26 - 1)).concat(letter_str(column % 26));
        proof {
            assert(column / 26 - 1 < 26);
            assert(col_name(column as int) == col_name(column as int / 26 - 1) + seq![
                col_letter(column as int % 26),
            ]);
            assert(col_name(column as int / 26 - 1) == seq![col_letter(column as int / 26 - 1)]);
            assert(s@ =~= col_name(column as int));
        }
        s
    } else {
        let m = column / 26 - 1;
        let s = String::from_str(letter_str(m / 26 - 1)).concat(letter_str(m % 26)).concat(
            letter_str(column % 26),
        );
        proof {
            assert(26 <= m < 702);
            assert(m / 26 - 1 < 26);
            assert(col_name(column as int) == col_name(column as int / 26 - 1) + seq![
                col_letter(column as int % 26),
            ]);
            assert(m as int == column as int / 26 - 1);
            assert(col_name(m as int) == col_name(m as int / 26 - 1) + seq![
                col_letter(m as int % 26),
            ]);
            assert(col_name(m as int / 26 - 1) == seq![col_letter(m as int / 26 - 1)]);
            assert(s@ =~= col_name(column as int));
        }
        s
    }
}

/// The character for decimal digit `d`, `'0'` through `'9'`.
pub open spec fn dec_digit(d: int) -> char {
    if d == 0 {
        '0'
    } else if d == 1 {
        '1'
    } else if d == 2 {
        '2'
    } else if d == 3 {
        '3'
    } else if d == 4 {
        '4'
    } else if d == 5 {
        '5'
    } else if d == 6 {
        '6'
    } else if d == 7 {
        '7'
    } else if d == 8 {
        '8'
    } else {
        '9'
    }
}

/// The usual decimal numeral of a non-negative integer, most
/// significant digit first, without leading zeros.
pub open spec fn dec_rep(n: int) -> Seq<char>
    decreases n,
{
    if n < 10 {
        seq![dec_digit(n)]
    } else {
        dec_rep(n / 10) + seq![dec_digit(n % 10)]
    }
}

/// The one-character string for decimal digit `d`.
fn digit_str(d: u128) -> (r: &'static str)
    requires
        d < 10,
    ensures
        r@ == seq![dec_digit(d as int)],
{
    if d == 0 {
        proof {
            reveal_strlit("0");
            assert("0"@ =~= seq![dec_digit(d as int)]);
        }
        "0"
    } else if d == 1 {
        proof {
            reveal_strlit("1");
            assert("1"@ =~= seq![dec_digit(d as int)]);
        }
        "1"
    } else if d == 2 {
        proof {
            reveal_strlit("2");
            assert("2"@ =~= seq![dec_digit(d as int)]);
        }
        "2"
    } else if d == 3 {
        proof {
            reveal_strlit("3");
            assert("3"@ =~= seq![dec_digit(d as int)]);
        }
        "3"
    } else if d == 4 {
        proof {
            reveal_strlit("4");
            assert("4"@ =~= seq![dec_digit(d as int)]);
        }
        "4"
    } else if d == 5 {
        proof {
            reveal_strlit("5");
            assert("5"@ =~= seq![dec_digit(d as int)]);
        }
        "5"
    } else if d == 6 {
        proof {
            reveal_strlit("6");
            assert("6"@ =~= seq![dec_digit(d as int)]);
        }
        "6"
    } else if d == 7 {
        proof {
            reveal_strlit("7");
            assert("7"@ =~= seq![dec_digit(d as int)]);
        }
        "7"
    } else if d == 8 {
        proof {
            reveal_strlit("8");
            assert("8"@ =~= seq![dec_digit(d as int)]);
        }
        "8"
    } else {
        proof {
            reveal_strlit("9");
            assert("9"@ =~= seq![dec_digit(d as int)]);
        }
        "9"
    }
}

/// The decimal numeral of `n` as a `String`.
fn decimal_string(n: u128) -> (s: String)
    ensures
        s@ == dec_rep(n as int),
    decreases n,
{
    if n < 10 {
        String::from_str(digit_str(n))
    } else {
        let s = decimal_string(n / 10).concat(digit_str(n % 10));
        proof {
            assert(s@ =~= dec_rep(n as int));
        }
        s
    }
}

/// The decimal numeral of an integer, with a leading minus sign when
/// it is negative.
pub open spec fn int_rep(n: int) -> Seq<char> {
    if n < 0 {
        seq!['-'] + dec_rep(-n)
    } else {
        dec_rep(n)
    }
}

/// The decimal numeral of `n` as a `String`.
pub(crate) fn int_string(n: i32) -> (s: String)
    ensures
        s@ == int_rep(n as int),
{
    if n >= 0 {
        decimal_string(n as u128)
    } else {
        let mag = -(n as i64);
        let s = String::from_str(minus_str()).concat(decimal_string(mag as u128).as_str());
        proof {
            assert(s@ =~= int_rep(n as int));
        }
        s
    }
}

/// The one-character minus sign.
fn minus_str() -> (r: &'static str)
    ensures
        r@ == seq!['-'],
{
    proof {
        reveal_strlit("-");
        assert("-"@ =~= seq!['-']);
    }
    "-"
}

/// The 1-indexed row label for a zero-indexed row number.
fn row_label(row: usize) -> (s: String)
    ensures
        s@ == dec_rep(row as int + 1),
{
    decimal_string(row as u128 + 1)
}

/// Column notation ("A", "AB", "BHH", ...) for a zero-indexed column
/// number: `Ok` exactly when `column` does not exceed [`MAX_COLUMN`],
/// and `OutOfRange` otherwise.
pub fn get_column_notation(column: usize) -> (r: Result<String, RangeError>)
    ensures
        column <= MAX_COLUMN ==> (r matches Ok(s) && s@ == col_name(column as int)),
        column > MAX_COLUMN ==> (r matches Err(e) && e == RangeError::OutOfRange),
{
    if column <= MAX_COLUMN {
        Ok(column_name(column))
    } else {
        Err(RangeError::OutOfRange)
    }
}

/// The digit value of a column-name letter: the inverse of
/// [`col_letter`], `0` for `'A'` through `25` for `'Z'`.
pub open spec fn letter_val(ch: char) -> int {
    if ch == 'A' {
        0
    } else if ch == 'B' {
        1
    } else if ch == 'C' {
        2
    } else if ch == 'D' {
        3
    } else if ch == 'E' {
        4
    } else if ch == 'F' {
        5
    } else if ch == 'G' {
        6
    } else if ch == 'H' {
        7
    } else if ch == 'I' {
        8
    } else if ch == 'J' {
        9
    } else if ch == 'K' {
        10
    } else if ch == 'L' {
        11
    } else if ch == 'M' {
        12
    } else if ch == 'N' {
        13
    } else if ch == 'O' {
        14
    } else if ch == 'P' {
        15
    } else if ch == 'Q' {
        16
    } else if ch == 'R' {
        17
    } else if ch == 'S' {
        18
    } else if ch == 'T' {
        19
    } else if ch == 'U' {
        20
    } else if ch == 'V' {
        21
    } else if ch == 'W' {
        22
    } else if ch == 'X' {
        23
    } else if ch == 'Y' {
        24
    } else {
        25
    }
}

/// The column index a name stands for, read digit by digit; the empty
/// name decodes to `-1` so that appending a digit `d` to a name of
/// value `v` gives value `(v + 1) * 26 + d`, as the bijective base-26
/// system demands.
pub open spec fn col_value(s: Seq<char>) -> int
    decreases s.len(),
{
    if s.len() == 0 {
        -1
    } else {
        (col_value(s.drop_last()) + 1) * 26 + letter_val(s.last())
    }
}

/// Decoding a column name recovers the column index: [`col_value`] is
/// a left inverse of [`col_name`] on every non-negative index.
pub proof fn lemma_col_name_value(c: int)
    requires
        c >= 0,
    ensures
        col_value(col_name(c)) == c,
    decreases c,
{
    if c < 26 {
        assert(col_name(c) == seq![col_letter(c)]);
        assert(seq![col_letter(c)].drop_last() =~= Seq::<char>::empty());
        assert(col_value(Seq::<char>::empty()) == -1);
        assert(seq![col_letter(c)].last() == col_letter(c));
        assert(letter_val(col_letter(c)) == c);
        assert(col_value(col_name(c)) == (-1 + 1) * 26 + letter_val(col_letter(c)));
    } else {
        let m = c / 26 - 1;
        lemma_col_name_value(m);
        assert(col_name(c) == col_name(m) + seq![col_letter(c % 26)]);
        assert((col_name(m) + seq![col_letter(c % 26)]).drop_last() =~= col_name(m));
        assert((col_name(m) + seq![col_letter(c % 26)]).last() == col_letter(c % 26));
        assert(letter_val(col_letter(c % 26)) == c % 26);
        assert(col_value(col_name(c)) == (m + 1) * 26 + c % 26);
        assert((m + 1) * 26 == 26 * (c / 26));
    }
}

/// The column encoder is injective: no two distinct supported column
/// indices produce the same name.
pub proof fn lemma_col_name_injective(c1: int, c2: int)
    requires
        0 <= c1 <= MAX_COLUMN,
        0 <= c2 <= MAX_COLUMN,
        c1 != c2,
    ensures
        col_name(c1) != col_name(c2),
{
    lemma_col_name_value(c1);
    lemma_col_name_value(c2);
}

/// Whether a coordinate tuple matches one of the recognized range
/// shapes.  The shapes are, in the priority order the builder applies:
/// a cell extending down its column (with a non-canonical alias that
/// carries the row on the end bound), a fully bounded rectangle, a
/// whole-column range, a row range with a column floor on the end
/// bound, and a whole-row range.
pub open spec fn shape_valid(
    start_column: Option<usize>,
    start_row: Option<usize>,
    end_column: Option<usize>,
    end_row: Option<usize>,
) -> bool {
    match (start_column, start_row, end_column, end_row) {
        (Some(_), Some(_), Some(_), None) => true,
        (Some(_), None, Some(_), Some(_)) => true,
        (Some(_), Some(_), Some(_), Some(_)) => true,
        (Some(_), None, Some(_), None) => true,
        (None, Some(_), Some(_), Some(_)) => true,
        (None, Some(_), None, Some(_)) => true,
        _ => false,
    }
}

/// Whether every column index present in the tuple is one the column
/// encoder supports.
pub open spec fn columns_in_range(start_column: Option<usize>, end_column: Option<usize>) -> bool {
    &&& (start_column matches Some(c) ==> c <= MAX_COLUMN)
    &&& (end_column matches Some(c) ==> c <= MAX_COLUMN)
}

/// The notation produced for a tuple of a recognized shape: column
/// names from [`col_name`], rows printed 1-indexed, the two bounds
/// separated by a colon.
pub open spec fn a1_rep(
    start_column: Option<usize>,
    start_row: Option<usize>,
    end_column: Option<usize>,
    end_row: Option<usize>,
) -> Seq<char> {
    match (start_column, start_row, end_column, end_row) {
        (Some(sc), Some(r), Some(ec), None) => col_name(sc as int) + dec_rep(r as int + 1)
            + seq![':'] + col_name(ec as int),
        (Some(sc), None, Some(ec), Some(r)) => col_name(sc as int) + dec_rep(r as int + 1)
            + seq![':'] + col_name(ec as int),
        (Some(sc), Some(sr), Some(ec), Some(er)) => col_name(sc as int) + dec_rep(sr as int + 1)
            + seq![':'] + col_name(ec as int) + dec_rep(er as int + 1),
        (Some(sc), None, Some(ec), None) => col_name(sc as int) + seq![':'] + col_name(ec as int),
        (None, Some(sr), Some(ec), Some(er)) => dec_rep(sr as int + 1) + seq![':'] + col_name(
            ec as int,
        ) + dec_rep(er as int + 1),
        (None, Some(sr), None, Some(er)) => dec_rep(sr as int + 1) + seq![':'] + dec_rep(
            er as int + 1,
        ),
        _ => Seq::empty(),
    }
}

/// The one-character colon separator.
fn colon_str() -> (r: &'static str)
    ensures
        r@ == seq![':'],
{
    proof {
        reveal_strlit(":");
        assert(":"@ =~= seq![':']);
    }
    ":"
}

/// A1 notation for a range given by four independently optional
/// zero-indexed coordinates.
///
/// Returns `Ok` exactly when the tuple matches one of the recognized
/// shapes and every column present is supported; the string is then
/// [`a1_rep`] of the tuple.  A tuple of an unrecognized shape gives
/// `InvalidRangeShape`; a recognized shape with a column beyond
/// [`MAX_COLUMN`] gives `OutOfRange`.
pub fn get_a1_notation(
    start_column: Option<usize>,
    start_row: Option<usize>,
    end_column: Option<usize>,
    end_row: Option<usize>,
) -> (r: Result<String, RangeError>)
    ensures
        shape_valid(start_column, start_row, end_column, end_row) && columns_in_range(
            start_column,
            end_column,
        ) ==> (r matches Ok(s) && s@ == a1_rep(start_column, start_row, end_column, end_row)),
        shape_valid(start_column, start_row, end_column, end_row) && !columns_in_range(
            start_column,
            end_column,
        ) ==> (r matches Err(e) && e == RangeError::OutOfRange),
        !shape_valid(start_column, start_row, end_column, end_row) ==> (r matches Err(e) && e
            == RangeError::InvalidRangeShape),
{
    match (start_column, start_row, end_column, end_row) {
        // "A5:A" refers to all the cells of the first column from row 5 onward;
        // "A:A5" is not a canonical shape but is accepted as an alias of it.
        (Some(sc), Some(r), Some(ec), None) | (Some(sc), None, Some(ec), Some(r)) => {
            if sc > MAX_COLUMN || ec > MAX_COLUMN {
                Err(RangeError::OutOfRange)
            } else {
                Ok(
                    column_name(sc).concat(row_label(r).as_str()).concat(colon_str()).concat(
                        column_name(ec).as_str(),
                    ),
                )
            }
        },
        // "A1:B2" refers to a fully bounded rectangle.
        (Some(sc), Some(sr), Some(ec), Some(er)) => {
            if sc > MAX_COLUMN || ec > MAX_COLUMN {
                Err(RangeError::OutOfRange)
            } else {
                Ok(
                    column_name(sc).concat(row_label(sr).as_str()).concat(colon_str()).concat(
                        column_name(ec).as_str(),
                    ).concat(row_label(er).as_str()),
                )
            }
        },
        // "A:B" refers to all the cells of the named columns.
        (Some(sc), None, Some(ec), None) => {
            if sc > MAX_COLUMN || ec > MAX_COLUMN {
                Err(RangeError::OutOfRange)
            } else {
                Ok(column_name(sc).concat(colon_str()).concat(column_name(ec).as_str()))
            }
        },
        // "10:D18" refers to all cells of rows 10 through 18 up to column D.
        (None, Some(sr), Some(ec), Some(er)) => {
            if ec > MAX_COLUMN {
                Err(RangeError::OutOfRange)
            } else {
                Ok(
                    row_label(sr).concat(colon_str()).concat(column_name(ec).as_str()).concat(
                        row_label(er).as_str(),
                    ),
                )
            }
        },
        // "10:18" refers to all cells of rows 10 through 18.
        (None, Some(sr), None, Some(er)) => Ok(
            row_label(sr).concat(colon_str()).concat(row_label(er).as_str()),
        ),
        _ => Err(RangeError::InvalidRangeShape),
    }
}

} // verus!
