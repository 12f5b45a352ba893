//! Why a command did not produce its reply.

use vstd::prelude::*;

verus! {

/// The ways a command fails. Validation failures are found before the host is
/// asked for anything; the others answer to what the host reported.
#[derive(Debug, Clone, PartialEq, Eq)]
pub enum Failure {
    /// Validation: the alignment score lies outside 1 to 10.
    ScoreOutOfRange,
    /// Validation: the credential for the completion API is empty.
    MissingApiKey,
    /// Not found: the row that the command was to return does not exist.
    NotFound,
    /// Storage: a row came back whose column `index` does not hold what the
    /// record needs, or that has no such column.
    Column { index: usize },
    /// Storage: the engine refused a statement; its message, verbatim.
    Storage(String),
    /// Completion API: no response arrived; the client's message, verbatim.
    Transport(String),
    /// Completion API: it answered with a non-success status; the response body.
    Api(String),
    /// Completion API: the response body is not a JSON document.
    Undecodable,
    /// Completion API: the response holds no text at `choices[0].message.content`.
    InvalidResponse,
    /// The host reported an event that the pending step does not wait for.
    Protocol,
}

/// Mathematical model of a [`Failure`].
pub enum FailureView {
    ScoreOutOfRange,
    MissingApiKey,
    NotFound,
    Column { index: usize },
    Storage(Seq<char>),
    Transport(Seq<char>),
    Api(Seq<char>),
    Undecodable,
    InvalidResponse,
    Protocol,
}

impl View for Failure {
    type V = FailureView;

    open spec fn view(&self) -> FailureView {
        match self {
            Failure::ScoreOutOfRange => FailureView::ScoreOutOfRange,
            Failure::MissingApiKey => FailureView::MissingApiKey,
            Failure::NotFound => FailureView::NotFound,
            Failure::Column { index } => FailureView::Column { index: *index },
            Failure::Storage(text) => FailureView::Storage(text@),
            Failure::Transport(text) => FailureView::Transport(text@),
            Failure::Api(body) => FailureView::Api(body@),
            Failure::Undecodable => FailureView::Undecodable,
            Failure::InvalidResponse => FailureView::InvalidResponse,
            Failure::Protocol => FailureView::Protocol,
        }
    }
}

impl DeepView for Failure {
    type V = FailureView;

    open spec fn deep_view(&self) -> FailureView {
        self@
    }
}

impl FailureView {
    /// The one line of text that the user is shown for this failure.
    pub open spec fn message(self) -> Seq<char> {
        match self {
            FailureView::ScoreOutOfRange => "alignment_score must be between 1 and 10"@,
            FailureView::MissingApiKey => "OpenAI API key is required"@,
            FailureView::NotFound => "Query returned no rows"@,
            FailureView::Column { index } => "Invalid column type at index: "@
                + crate::text::natural(index as nat),
            FailureView::Storage(text) => text,
            FailureView::Transport(text) => text,
            FailureView::Api(body) => "OpenAI API error: "@ + body,
            FailureView::Undecodable => "error decoding response body"@,
            FailureView::InvalidResponse => "Invalid OpenAI response"@,
            FailureView::Protocol => "Unexpected event for the pending step"@,
        }
    }

    /// Whether the failure is one of input validation.
    pub open spec fn is_validation(self) -> bool {
        self is ScoreOutOfRange || self is MissingApiKey
    }
}

impl Failure {
    /// The one line of text that the user is shown for this failure.
    pub fn message(&self) -> (text: String)
        ensures
            text@ == self@.message(),
    {
        match self {
            Failure::ScoreOutOfRange => "alignment_score must be between 1 and 10".to_string(),
            Failure::MissingApiKey => "OpenAI API key is required".to_string(),
            Failure::NotFound => "Query returned no rows".to_string(),
            Failure::Column { index } => {
                let mut text = "Invalid column type at index: ".to_string();
                text.append(crate::text::natural_text(*index as u64).as_str());
                text
            },
            Failure::Storage(text) => text.clone(),
            Failure::Transport(text) => text.clone(),
            Failure::Api(body) => {
                let mut text = "OpenAI API error: ".to_string();
                text.append(body.as_str());
                text
            },
            Failure::Undecodable => "error decoding response body".to_string(),
            Failure::InvalidResponse => "Invalid OpenAI response".to_string(),
            Failure::Protocol => "Unexpected event for the pending step".to_string(),
        }
    }

    /// Whether the failure is one of input validation.
    pub fn is_validation(&self) -> (r: bool)
        ensures
            r == self@.is_validation(),
    {
        match self {
            Failure::ScoreOutOfRange => true,
            Failure::MissingApiKey => true,
            _ => false,
        }
    }
}

/// The model of a result: the model of what it holds, either way.
pub open spec fn result_view<T: DeepView, E: DeepView>(r: Result<T, E>) -> Result<T::V, E::V> {
    match r {
        Ok(value) => Ok(value.deep_view()),
        Err(error) => Err(error.deep_view()),
    }
}

} // verus!
