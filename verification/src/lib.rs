//! A client library for a spreadsheet web API.
//!
//! The heart of the crate is the A1 range-notation codec in [`util`]:
//! it turns zero-indexed row/column coordinates into the textual range
//! notation the wire protocol uses to address a region of a sheet, and
//! its behaviour is fully specified and machine-checked.  This file
//! holds the plain data types that request and response bodies are
//! built from.

use vstd::prelude::*;
use vstd::string::StringExecFns;

pub mod util;

verus! {

/// Use for any request that needs an empty body.
#[derive(Clone, Copy, Debug, PartialEq, Eq, Structural)]
pub struct EmptyBody {}

/// The major dimension a block of values runs along.
#[derive(Clone, Copy, Debug, PartialEq, Eq, Structural)]
pub enum Dimension {
    /// Operates on the rows of a sheet.
    ROWS,
    /// Operates on the columns of a sheet.
    COLUMNS,
}

/// Data within a range of the spreadsheet.
#[derive(Clone, Debug)]
pub struct ValueRange {
    /// The range the values cover, in A1 notation.
    ///
    /// For output, this range indicates the entire requested range,
    /// even though the values will exclude trailing rows and columns.
    /// When appending values, this field represents the range to
    /// search for a table, after which values will be appended.
    pub range: Option<String>,
    /// The values.
    pub values: Option<Vec<Vec<String>>>,
    /// The major dimension of the values: row by row, or column by
    /// column.  When writing, an absent value is read as row by row.
    pub major_dimension: Option<Dimension>,
}

impl Default for ValueRange {
    /// An empty value range: every field absent.
    fn default() -> (d: Self)
        ensures
            d.range is None,
            d.values is None,
            d.major_dimension is None,
    {
        ValueRange { range: None, values: None, major_dimension: None }
    }
}

/// The response returned from updating values.
#[derive(Clone, Debug)]
pub struct UpdateValuesResponse {
    /// The spreadsheet the update was applied to.
    pub spreadsheet_id: Option<String>,
    /// The number of columns where at least one cell was updated.
    pub updated_columns: Option<i32>,
    /// The range the update was applied to, in A1 notation.
    pub updated_range: Option<String>,
    /// The number of rows where at least one cell was updated.
    pub updated_rows: Option<i32>,
    /// The values of the cells after the update.
    pub updated_data: Option<ValueRange>,
    /// The number of cells updated.
    pub updated_cells: Option<i32>,
}

/// The counter an update report prints: the field's value, or zero
/// where the response left it absent.
pub open spec fn count_or_zero(field: Option<i32>) -> int {
    match field {
        Some(v) => v as int,
        None => 0,
    }
}

/// The text an update response is reported with: each counter printed
/// in decimal, absent counters printed as zero.
pub open spec fn update_report_rep(response: UpdateValuesResponse) -> Seq<char> {
    crate::util::int_rep(count_or_zero(response.updated_columns)) + " columns; "@
        + crate::util::int_rep(count_or_zero(response.updated_rows)) + " rows; and "@
        + crate::util::int_rep(count_or_zero(response.updated_cells)) + " total cells updated"@
}

impl Default for UpdateValuesResponse {
    /// An empty response: every field absent.
    fn default() -> (d: Self)
        ensures
            d.spreadsheet_id is None,
            d.updated_columns is None,
            d.updated_range is None,
            d.updated_rows is None,
            d.updated_data is None,
            d.updated_cells is None,
    {
        UpdateValuesResponse {
            spreadsheet_id: None,
            updated_columns: None,
            updated_range: None,
            updated_rows: None,
            updated_data: None,
            updated_cells: None,
        }
    }
}

impl UpdateValuesResponse {
    /// A one-line report of how many columns, rows and cells the
    /// update touched.
    pub fn to_text(&self) -> (s: String)
        ensures
            s@ == update_report_rep(*self),
    {
        let s = crate::util::int_string(self.updated_columns.unwrap_or(0)).concat(
            " columns; ",
        ).concat(crate::util::int_string(self.updated_rows.unwrap_or(0)).as_str()).concat(
            " rows; and ",
        ).concat(crate::util::int_string(self.updated_cells.unwrap_or(0)).as_str()).concat(
            " total cells updated",
        );
        proof {
            assert(s@ =~= update_report_rep(*self));
        }
        s
    }
}

/// The response returned from batch-updating values.
#[derive(Clone, Debug)]
pub struct BatchUpdateValuesResponse {
    /// The spreadsheet the updates were applied to.
    pub spreadsheet_id: Option<String>,
    /// The total number of rows where at least one cell in the row was
    /// updated.
    pub total_updated_rows: Option<i32>,
    /// The total number of columns where at least one cell in the
    /// column was updated.
    pub total_updated_columns: Option<i32>,
    /// The total number of cells updated.
    pub total_updated_cells: Option<i32>,
    /// The total number of sheets where at least one cell in the sheet
    /// was updated.
    pub total_updated_sheets: Option<i32>,
    /// One [`UpdateValuesResponse`] per requested range, in the same
    /// order as the requests appeared.
    pub responses: Vec<UpdateValuesResponse>,
}

impl Default for BatchUpdateValuesResponse {
    /// An empty response: every field absent and no per-range
    /// responses.
    fn default() -> (d: Self)
        ensures
            d.spreadsheet_id is None,
            d.total_updated_rows is None,
            d.total_updated_columns is None,
            d.total_updated_cells is None,
            d.total_updated_sheets is None,
            d.responses@ =~= Seq::<UpdateValuesResponse>::empty(),
    {
        BatchUpdateValuesResponse {
            spreadsheet_id: None,
            total_updated_rows: None,
            total_updated_columns: None,
            total_updated_cells: None,
            total_updated_sheets: None,
            responses: Vec::new(),
        }
    }
}

/// The browser link to a sheet: the document viewer's address with the
/// sheet's identifier as its path segment.
pub fn sheet_link(sheet_id: &str) -> (s: String)
    ensures
        s@ == "https://docs.google.com/spreadsheets/d/"@ + sheet_id@ + "/"@,
{
    String::from_str("https://docs.google.com/spreadsheets/d/").concat(sheet_id).concat("/")
}

} // verus!
