//! Values as the storage engine hands them over, and typed reads of a row.

use vstd::prelude::*;
use crate::failure::{Failure, FailureView};

verus! {

/// One column of one row. Reals and blobs are told apart from the rest but
/// not carried: no record of this crate holds one.
#[derive(Debug, Clone, PartialEq, Eq)]
pub enum SqlValue {
    Null,
    Integer(i64),
    Real,
    Text(String),
    Blob,
}

/// Mathematical model of a [`SqlValue`].
pub enum SqlValueView {
    Null,
    Integer(i64),
    Real,
    Text(Seq<char>),
    Blob,
}

impl View for SqlValue {
    type V = SqlValueView;

    open spec fn view(&self) -> SqlValueView {
        match self {
            SqlValue::Null => SqlValueView::Null,
            SqlValue::Integer(n) => SqlValueView::Integer(*n),
            SqlValue::Real => SqlValueView::Real,
            SqlValue::Text(text) => SqlValueView::Text(text@),
            SqlValue::Blob => SqlValueView::Blob,
        }
    }
}

impl DeepView for SqlValue {
    type V = SqlValueView;

    open spec fn deep_view(&self) -> SqlValueView {
        self@
    }
}

/// A row as a sequence of columns.
pub type RowView = Seq<SqlValueView>;

/// The integer in column `index` of `row`.
pub open spec fn integer_in(row: RowView, index: usize) -> Result<i64, FailureView> {
    if index < row.len() && row[index as int] is Integer {
        Ok(row[index as int]->Integer_0)
    } else {
        Err(FailureView::Column { index })
    }
}

/// The integer in column `index` of `row`, where it fits in 32 bits.
pub open spec fn small_integer_in(row: RowView, index: usize) -> Result<i32, FailureView> {
    match integer_in(row, index) {
        Ok(n) => if i32::MIN <= n <= i32::MAX {
            Ok(n as i32)
        } else {
            Err(FailureView::Column { index })
        },
        Err(failure) => Err(failure),
    }
}

/// The text in column `index` of `row`.
pub open spec fn text_in(row: RowView, index: usize) -> Result<Seq<char>, FailureView> {
    if index < row.len() && row[index as int] is Text {
        Ok(row[index as int]->Text_0)
    } else {
        Err(FailureView::Column { index })
    }
}

/// Reads column `index` of `row` as an integer.
pub fn integer_at(row: &Vec<SqlValue>, index: usize) -> (r: Result<i64, Failure>)
    ensures
        crate::failure::result_view(r) == integer_in(row.deep_view(), index),
{
    if index < row.len() {
        match &row[index] {
            SqlValue::Integer(n) => Ok(*n),
            _ => Err(Failure::Column { index }),
        }
    } else {
        Err(Failure::Column { index })
    }
}

/// Reads column `index` of `row` as an integer of 32 bits.
pub fn small_integer_at(row: &Vec<SqlValue>, index: usize) -> (r: Result<i32, Failure>)
    ensures
        crate::failure::result_view(r) == small_integer_in(row.deep_view(), index),
{
    match integer_at(row, index) {
        Ok(n) => {
            if -2147483648 <= n && n <= 2147483647 {
                Ok(n as i32)
            } else {
                Err(Failure::Column { index })
            }
        },
        Err(failure) => Err(failure),
    }
}

/// Reads column `index` of `row` as text.
pub fn text_at(row: &Vec<SqlValue>, index: usize) -> (r: Result<String, Failure>)
    ensures
        crate::failure::result_view(r) == text_in(row.deep_view(), index),
{
    if index < row.len() {
        match &row[index] {
            SqlValue::Text(text) => Ok(text.clone()),
            _ => Err(Failure::Column { index }),
        }
    } else {
        Err(Failure::Column { index })
    }
}

} // verus!
