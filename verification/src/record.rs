//! Records read from rows: one, at most one, or all of a result.

use vstd::prelude::*;
use crate::failure::{result_view, Failure, FailureView};
use crate::value::{RowView, SqlValue};

verus! {

/// A record that a row of the store can be read as.
pub trait Record: DeepView + Sized {
    /// The record that `row` holds, or the first column that does not fit.
    spec fn of_row(row: RowView) -> Result<<Self as DeepView>::V, FailureView>;

    /// Reads `row` as this record, column by column from the left.
    fn from_row(row: &Vec<SqlValue>) -> (r: Result<Self, Failure>)
        ensures
            result_view(r) == Self::of_row(row.deep_view()),
    ;
}

/// The records of `rows` in order, or the failure of the first row that holds none.
pub open spec fn all_of_rows<T: Record>(rows: Seq<RowView>) -> Result<
    Seq<<T as DeepView>::V>,
    FailureView,
>
    decreases rows.len(),
{
    if rows.len() == 0 {
        Ok(Seq::empty())
    } else {
        match all_of_rows::<T>(rows.drop_last()) {
            Err(failure) => Err(failure),
            Ok(front) => match T::of_row(rows.last()) {
                Err(failure) => Err(failure),
                Ok(record) => Ok(front.push(record)),
            },
        }
    }
}

/// The record of the first row; a result without rows is a failure.
pub open spec fn first_of_rows<T: Record>(rows: Seq<RowView>) -> Result<
    <T as DeepView>::V,
    FailureView,
> {
    if rows.len() == 0 {
        Err(FailureView::NotFound)
    } else {
        T::of_row(rows[0])
    }
}

/// The record of the first row, if there is a row.
pub open spec fn optional_of_rows<T: Record>(rows: Seq<RowView>) -> Result<
    Option<<T as DeepView>::V>,
    FailureView,
> {
    if rows.len() == 0 {
        Ok(None)
    } else {
        match T::of_row(rows[0]) {
            Ok(record) => Ok(Some(record)),
            Err(failure) => Err(failure),
        }
    }
}

/// Reads every row of a result.
pub fn read_all<T: Record>(rows: &Vec<Vec<SqlValue>>) -> (r: Result<Vec<T>, Failure>)
    ensures
        result_view(r) == all_of_rows::<T>(rows.deep_view()),
{
    let mut records: Vec<T> = Vec::new();
    let mut i: usize = 0;
    assert(records.deep_view() =~= Seq::empty());
    while i < rows.len()
        invariant
            0 <= i <= rows@.len(),
            all_of_rows::<T>(rows.deep_view().take(i as int)) == Ok::<
                Seq<<T as DeepView>::V>,
                FailureView,
            >(records.deep_view()),
        decreases rows@.len() - i,
    {
        let ghost before = rows.deep_view().take(i as int);
        let ghost after = rows.deep_view().take(i + 1);
        assert(after.drop_last() =~= before);
        match T::from_row(&rows[i]) {
            Ok(record) => {
                let ghost earlier = records.deep_view();
                records.push(record);
                assert(records.deep_view() =~= earlier.push(record.deep_view()));
            },
            Err(failure) => {
                proof {
                    lemma_failure_stays::<T>(rows.deep_view(), i + 1);
                }
                return Err(failure);
            },
        }
        i = i + 1;
    }
    assert(rows.deep_view().take(rows@.len() as int) =~= rows.deep_view());
    Ok(records)
}

/// Reads the first row of a result that must have one.
pub fn read_first<T: Record>(rows: &Vec<Vec<SqlValue>>) -> (r: Result<T, Failure>)
    ensures
        result_view(r) == first_of_rows::<T>(rows.deep_view()),
{
    if rows.len() == 0 {
        Err(Failure::NotFound)
    } else {
        T::from_row(&rows[0])
    }
}

/// Reads the first row of a result that may have none.
pub fn read_optional<T: Record>(rows: &Vec<Vec<SqlValue>>) -> (r: Result<Option<T>, Failure>)
    ensures
        result_view(r) == optional_of_rows::<T>(rows.deep_view()),
{
    if rows.len() == 0 {
        Ok(None)
    } else {
        match T::from_row(&rows[0]) {
            Ok(record) => Ok(Some(record)),
            Err(failure) => Err(failure),
        }
    }
}

/// Reading all rows keeps their number and their order: the record at each
/// place is the record of the row at that place. Where a row holds no record,
/// the failure is that of the first such row.
pub proof fn lemma_all_of_rows<T: Record>(rows: Seq<RowView>)
    ensures
        match all_of_rows::<T>(rows) {
            Ok(records) => {
                &&& records.len() == rows.len()
                &&& forall|i: int|
                    0 <= i < rows.len() ==> T::of_row(#[trigger] rows[i]) == Ok::<
                        <T as DeepView>::V,
                        FailureView,
                    >(records[i])
            },
            Err(failure) => exists|i: int|
                {
                    &&& 0 <= i < rows.len()
                    &&& T::of_row(#[trigger] rows[i]) == Err::<<T as DeepView>::V, FailureView>(
                        failure,
                    )
                    &&& forall|j: int| 0 <= j < i ==> T::of_row(#[trigger] rows[j]) is Ok
                },
        },
    decreases rows.len(),
{
    if rows.len() > 0 {
        let front = rows.drop_last();
        lemma_all_of_rows::<T>(front);
        match all_of_rows::<T>(front) {
            Ok(records) => {
                match T::of_row(rows.last()) {
                    Ok(record) => {
                        let all = records.push(record);
                        assert forall|i: int| 0 <= i < rows.len() implies T::of_row(
                            #[trigger] rows[i],
                        ) == Ok::<<T as DeepView>::V, FailureView>(all[i]) by {
                            if i < front.len() {
                                assert(front[i] == rows[i]);
                            }
                        }
                    },
                    Err(failure) => {
                        let last = rows.len() - 1;
                        assert forall|j: int| 0 <= j < last implies T::of_row(
                            #[trigger] rows[j],
                        ) is Ok by {
                            assert(front[j] == rows[j]);
                        }
                    },
                }
            },
            Err(failure) => {
                let i = choose|i: int|
                    {
                        &&& 0 <= i < front.len()
                        &&& T::of_row(#[trigger] front[i]) == Err::<
                            <T as DeepView>::V,
                            FailureView,
                        >(failure)
                        &&& forall|j: int| 0 <= j < i ==> T::of_row(#[trigger] front[j]) is Ok
                    };
                assert forall|j: int| 0 <= j < i implies T::of_row(#[trigger] rows[j]) is Ok by {
                    assert(front[j] == rows[j]);
                }
            },
        }
    }
}

/// A failure among the first `n` rows is the failure of the whole result.
proof fn lemma_failure_stays<T: Record>(rows: Seq<RowView>, n: int)
    requires
        0 <= n <= rows.len(),
        all_of_rows::<T>(rows.take(n)) is Err,
    ensures
        all_of_rows::<T>(rows) == all_of_rows::<T>(rows.take(n)),
    decreases rows.len() - n,
{
    if n == rows.len() {
        assert(rows.take(n) =~= rows);
    } else {
        assert(rows.take(n + 1).drop_last() =~= rows.take(n));
        lemma_failure_stays::<T>(rows, n + 1);
    }
}

} // verus!
