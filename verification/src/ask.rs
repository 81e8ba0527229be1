//! Questions that one statement answers: whether a file, a resource or an
//! image exists.

use vstd::prelude::*;
use crate::datalith_errors::DatalithReadError;
use crate::datalith_errors::SqlErrorKind;
use crate::operation::Operation;
use crate::step::Reply;
use crate::step::ReplyView;
use crate::step::Statement;
use crate::step::StatementView;
use crate::step::Step;
use crate::step::StepView;

verus! {

/// Asking the metadata store a question that it answers with yes or no.
#[derive(Clone, Copy, Debug, PartialEq, Eq, Structural)]
pub enum Ask {
    /// Asked.
    Asking,
    /// Ended.
    Finished,
}

impl View for Ask {
    type V = Ask;

    open spec fn view(&self) -> Ask {
        *self
    }
}

impl Ask {
    /// Begins to ask whether the file `id` exists and is live at `now`.
    pub fn check_file_exist(id: u128, now: i64) -> (r: (Ask, Step<Result<bool, DatalithReadError>>))
        ensures
            r.0 == Ask::Asking,
            r.1.view_with(|o| o) == StepView::<Result<bool, DatalithReadError>>::Query(
                StatementView::SelectFileExists { id, now },
            ),
    {
        (Ask::Asking, Step::Query(Statement::SelectFileExists { id, now }))
    }

    /// Begins to ask whether the resource `id` exists and its file is live
    /// at `now`.
    pub fn check_resource_exist(id: u128, now: i64) -> (r: (
        Ask,
        Step<Result<bool, DatalithReadError>>,
    ))
        ensures
            r.0 == Ask::Asking,
            r.1.view_with(|o| o) == StepView::<Result<bool, DatalithReadError>>::Query(
                StatementView::SelectResourceExists { id, now },
            ),
    {
        (Ask::Asking, Step::Query(Statement::SelectResourceExists { id, now }))
    }

    /// Begins to ask whether the image `id` exists.
    pub fn check_image_exist(id: u128) -> (r: (Ask, Step<Result<bool, DatalithReadError>>))
        ensures
            r.0 == Ask::Asking,
            r.1.view_with(|o| o) == StepView::<Result<bool, DatalithReadError>>::Query(
                StatementView::SelectImageExists { id },
            ),
    {
        (Ask::Asking, Step::Query(Statement::SelectImageExists { id }))
    }
}

impl Operation for Ask {
    type Output = Result<bool, DatalithReadError>;

    type OutputView = Result<bool, DatalithReadError>;

    open spec fn output_view(output: Self::Output) -> Self::OutputView {
        output
    }

    open spec fn advance(state: Ask, reply: ReplyView) -> (Ask, StepView<Self::OutputView>) {
        (
            Ask::Finished,
            StepView::Finish(
                match (state, reply) {
                    (Ask::Asking, ReplyView::Flag(answer)) => Ok(answer),
                    (Ask::Asking, ReplyView::SqlFailed(kind)) => Err(
                        DatalithReadError::SQLError(kind),
                    ),
                    _ => Err(DatalithReadError::SQLError(SqlErrorKind::Other)),
                },
            ),
        )
    }

    fn resume(self, reply: Reply) -> (r: (Ask, Step<Self::Output>)) {
        (
            Ask::Finished,
            Step::Finish(
                match (self, reply) {
                    (Ask::Asking, Reply::Flag(answer)) => Ok(answer),
                    (Ask::Asking, Reply::SqlFailed(kind)) => Err(DatalithReadError::SQLError(kind)),
                    _ => Err(DatalithReadError::SQLError(SqlErrorKind::Other)),
                },
            ),
        )
    }
}

} // verus!
