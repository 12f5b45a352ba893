//! Alignment per day: how many behaviors a day has and what they score together.
//!
//! A day's average is `total / count`. Both are kept as integers, so
//! nothing is rounded before the figure is shown.

use vstd::prelude::*;
use crate::failure::{Failure, FailureView};
use crate::protocol::{fetch, Action, Pending, Shape, Step};
use crate::record::Record;
use crate::statement::{Query, QueryView};
use crate::value::{integer_at, integer_in, text_at, text_in, RowView, SqlValue};

verus! {

/// The window of [`AlignmentTrend`]s that is asked for when none is given, in days.
pub const DEFAULT_TREND_DAYS: i32 = 14;

/// One day of a date range: the sum and the number of its alignment scores.
#[derive(Debug, Clone, PartialEq, Eq)]
pub struct DayAlignment {
    pub date: String,
    pub score_total: i64,
    pub count: i64,
}

/// Mathematical model of a [`DayAlignment`].
pub struct DayAlignmentView {
    pub date: Seq<char>,
    pub score_total: i64,
    pub count: i64,
}

impl View for DayAlignment {
    type V = DayAlignmentView;

    open spec fn view(&self) -> DayAlignmentView {
        DayAlignmentView { date: self.date@, score_total: self.score_total, count: self.count }
    }
}

impl DeepView for DayAlignment {
    type V = DayAlignmentView;

    open spec fn deep_view(&self) -> DayAlignmentView {
        self@
    }
}

impl Record for DayAlignment {
    /// Columns: `date`, the sum of the day's scores, the number of its behaviors.
    open spec fn of_row(row: RowView) -> Result<DayAlignmentView, FailureView> {
        match text_in(row, 0) {
            Err(failure) => Err(failure),
            Ok(date) => match integer_in(row, 1) {
                Err(failure) => Err(failure),
                Ok(score_total) => match integer_in(row, 2) {
                    Err(failure) => Err(failure),
                    Ok(count) => Ok(DayAlignmentView { date, score_total, count }),
                },
            },
        }
    }

    fn from_row(row: &Vec<SqlValue>) -> (r: Result<DayAlignment, Failure>) {
        let date = text_at(row, 0)?;
        let score_total = integer_at(row, 1)?;
        let count = integer_at(row, 2)?;
        Ok(DayAlignment { date, score_total, count })
    }
}

/// One day of the recent past: the sum and the number of its alignment scores.
#[derive(Debug, Clone, PartialEq, Eq)]
pub struct AlignmentTrend {
    pub date: String,
    pub alignment_total: i64,
    pub behavior_count: i64,
}

/// Mathematical model of an [`AlignmentTrend`].
pub struct AlignmentTrendView {
    pub date: Seq<char>,
    pub alignment_total: i64,
    pub behavior_count: i64,
}

impl View for AlignmentTrend {
    type V = AlignmentTrendView;

    open spec fn view(&self) -> AlignmentTrendView {
        AlignmentTrendView {
            date: self.date@,
            alignment_total: self.alignment_total,
            behavior_count: self.behavior_count,
        }
    }
}

impl DeepView for AlignmentTrend {
    type V = AlignmentTrendView;

    open spec fn deep_view(&self) -> AlignmentTrendView {
        self@
    }
}

impl Record for AlignmentTrend {
    /// Columns: `date`, the sum of the day's scores, the number of its behaviors.
    open spec fn of_row(row: RowView) -> Result<AlignmentTrendView, FailureView> {
        match text_in(row, 0) {
            Err(failure) => Err(failure),
            Ok(date) => match integer_in(row, 1) {
                Err(failure) => Err(failure),
                Ok(alignment_total) => match integer_in(row, 2) {
                    Err(failure) => Err(failure),
                    Ok(behavior_count) => Ok(
                        AlignmentTrendView { date, alignment_total, behavior_count },
                    ),
                },
            },
        }
    }

    fn from_row(row: &Vec<SqlValue>) -> (r: Result<AlignmentTrend, Failure>) {
        let date = text_at(row, 0)?;
        let alignment_total = integer_at(row, 1)?;
        let behavior_count = integer_at(row, 2)?;
        Ok(AlignmentTrend { date, alignment_total, behavior_count })
    }
}

/// The window that is asked for: the one given, or the default.
pub open spec fn trend_days(days: Option<i32>) -> i32 {
    match days {
        Some(days) => days,
        None => DEFAULT_TREND_DAYS,
    }
}

/// Sums up the alignment of identity `identity_id` for each day from
/// `from_date` to `to_date` that has a behavior, earliest day first.
pub fn get_weekly_alignment(identity_id: i64, from_date: String, to_date: String) -> (step: Step)
    ensures
        step@ == fetch(
            QueryView::AlignmentByDay { identity_id, from_date: from_date@, to_date: to_date@ },
            Shape::Alignment,
        ),
{
    Step::Perform {
        action: Action::Fetch(Query::AlignmentByDay { identity_id, from_date, to_date }),
        then: Pending::Rows(Shape::Alignment),
    }
}

/// Sums up the alignment of identity `identity_id` for each of the last
/// `days` days that has a behavior, 14 where `days` is left out, earliest day
/// first.
pub fn get_alignment_trends(identity_id: i64, days: Option<i32>) -> (step: Step)
    ensures
        step@ == fetch(
            QueryView::AlignmentSince { identity_id, days: trend_days(days) },
            Shape::Trends,
        ),
{
    let days = match days {
        Some(days) => days,
        None => DEFAULT_TREND_DAYS,
    };
    Step::Perform {
        action: Action::Fetch(Query::AlignmentSince { identity_id, days }),
        then: Pending::Rows(Shape::Trends),
    }
}

} // verus!
