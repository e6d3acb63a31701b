//! The course of a chapter's retrieval, page by page.
//!
//! The library decides, whoever runs the retrieval acts: it performs the
//! action that the state asks for and reports what came of it. A page that
//! is there already is not asked for again, a page is put in its place only
//! when all of it has arrived, and the first failure ends the chapter.

use vstd::prelude::*;
use crate::error::Error;

verus! {

/// What the retrieval of a chapter waits for.
#[derive(Debug, Clone, Copy, PartialEq, Eq)]
pub enum Stage {
    /// Whether the page is there already.
    Probing,
    /// The answer of the server.
    Requesting,
    /// The body of the answer, stored beside the page's place; `declared` is
    /// the length that the server announced, if it announced one.
    Storing { declared: Option<u64> },
    /// The stored page, moved to its place.
    Promoting,
    /// The rest after a page.
    Resting,
    /// Nothing: every page is in its place.
    Finished,
    /// Nothing: the chapter has failed.
    Failed(Error),
}

/// What has happened since the last action.
#[derive(Debug, Clone, Copy, PartialEq, Eq)]
pub enum FetchEvent {
    /// The page's place was looked at.
    Probed { present: bool },
    /// The server answered.
    Answered { status: u16, declared: Option<u64> },
    /// The body was stored beside the page's place.
    Stored { written: u64 },
    /// The stored page was moved to its place.
    Promoted,
    /// The rest is over.
    Rested,
    /// The step that was asked for has failed.
    Broken { by: Breakage },
}

/// What a step has failed by.
#[derive(Debug, Clone, Copy, PartialEq, Eq)]
pub enum Breakage {
    /// The network: no answer, or an answer that broke off.
    Transport,
    /// The file system: a look, a write or a move that was refused.
    Filesystem,
}

impl Breakage {
    /// The failure that the breakage is reported as.
    pub open spec fn error_spec(self) -> Error {
        match self {
            Breakage::Transport => Error::Transport,
            Breakage::Filesystem => Error::Filesystem,
        }
    }

    /// The failure that the breakage is reported as.
    pub fn error(&self) -> (error: Error)
        ensures
            error == self.error_spec(),
    {
        match self {
            Breakage::Transport => Error::Transport,
            Breakage::Filesystem => Error::Filesystem,
        }
    }
}

/// What is to be done next.
#[derive(Debug, Clone, Copy, PartialEq, Eq)]
pub enum FetchAction {
    /// Look whether page `page` is in its place.
    Probe { page: usize },
    /// Ask the server for page `page`.
    Request { page: usize },
    /// Store the body of the answer beside the place of page `page`.
    Store { page: usize },
    /// Move page `page` to its place.
    Promote { page: usize },
    /// Rest before the next page.
    Rest,
    /// Stop: the chapter is complete.
    Finish,
    /// Stop: the chapter has failed.
    Abort(Error),
}

/// Where the retrieval of a chapter of `total` pages stands: at page `page`,
/// waiting for what `stage` says.
#[derive(Debug, Clone, Copy, PartialEq, Eq)]
pub struct FetchState {
    pub total: usize,
    pub page: usize,
    pub stage: Stage,
}

/// Whether `status` reports success.
pub open spec fn is_success(status: u16) -> bool {
    200 <= status < 300
}

/// Whether a body of `written` bytes is all that the server announced.
pub open spec fn is_whole(declared: Option<u64>, written: u64) -> bool {
    match declared {
        Some(length) => length == written,
        None => true,
    }
}

/// Checks the number of bytes stored against the length that the server
/// announced: where it announced one, any other number is an incomplete
/// transfer.
pub fn check_transfer(declared: Option<u64>, written: u64) -> (result: Result<(), Error>)
    ensures
        result == transfer_result(declared, written),
{
    match declared {
        Some(expected) => {
            if expected == written {
                Ok(())
            } else {
                Err(Error::IncompleteTransfer { expected, written })
            }
        },
        None => Ok(()),
    }
}

/// What [`check_transfer`] finds.
pub open spec fn transfer_result(declared: Option<u64>, written: u64) -> Result<(), Error> {
    match declared {
        Some(expected) => if expected == written {
            Ok(())
        } else {
            Err(Error::IncompleteTransfer { expected, written })
        },
        None => Ok(()),
    }
}

impl FetchState {
    /// The state before the first page of a chapter of `total` pages.
    pub open spec fn initial(total: usize) -> FetchState {
        FetchState { total, page: 0, stage: if total == 0 { Stage::Finished } else { Stage::Probing } }
    }

    /// The action that the state asks for.
    pub open spec fn action_spec(self) -> FetchAction {
        match self.stage {
            Stage::Probing => FetchAction::Probe { page: self.page },
            Stage::Requesting => FetchAction::Request { page: self.page },
            Stage::Storing { declared } => FetchAction::Store { page: self.page },
            Stage::Promoting => FetchAction::Promote { page: self.page },
            Stage::Resting => FetchAction::Rest,
            Stage::Finished => FetchAction::Finish,
            Stage::Failed(error) => FetchAction::Abort(error),
        }
    }

    /// Whether the state waits for a step that can fail: a look, a request,
    /// a write or a move.
    pub open spec fn is_working(self) -> bool {
        self.stage is Probing || self.stage is Requesting || self.stage is Storing
            || self.stage is Promoting
    }

    /// The stage that follows when `event` is reported in this state. A
    /// step that fails ends the chapter; there is no second attempt. An event
    /// that the state does not wait for changes nothing.
    pub open spec fn stage_after(self, event: FetchEvent) -> Stage {
        match (self.stage, event) {
            (Stage::Probing, FetchEvent::Broken { by }) => Stage::Failed(by.error_spec()),
            (Stage::Requesting, FetchEvent::Broken { by }) => Stage::Failed(by.error_spec()),
            (Stage::Storing { declared }, FetchEvent::Broken { by }) => Stage::Failed(
                by.error_spec(),
            ),
            (Stage::Promoting, FetchEvent::Broken { by }) => Stage::Failed(by.error_spec()),
            (Stage::Probing, FetchEvent::Probed { present }) => if present {
                Stage::Resting
            } else {
                Stage::Requesting
            },
            (Stage::Requesting, FetchEvent::Answered { status, declared }) => if is_success(status) {
                Stage::Storing { declared }
            } else {
                Stage::Failed(Error::Network { status })
            },
            (Stage::Storing { declared }, FetchEvent::Stored { written }) => match transfer_result(
                declared,
                written,
            ) {
                Ok(_) => Stage::Promoting,
                Err(error) => Stage::Failed(error),
            },
            (Stage::Promoting, FetchEvent::Promoted) => Stage::Resting,
            (Stage::Resting, FetchEvent::Rested) => if self.page + 1 < self.total {
                Stage::Probing
            } else {
                Stage::Finished
            },
            _ => self.stage,
        }
    }

    /// The state that follows when `event` is reported in this state. Only
    /// the end of a rest moves on to the next page.
    pub open spec fn after(self, event: FetchEvent) -> FetchState {
        FetchState {
            total: self.total,
            page: if self.stage is Resting && event is Rested && self.page + 1 < self.total {
                (self.page + 1) as usize
            } else {
                self.page
            },
            stage: self.stage_after(event),
        }
    }

    /// Begins the retrieval of a chapter of `total` pages.
    pub fn begin(total: usize) -> (state: FetchState)
        ensures
            state == FetchState::initial(total),
    {
        let stage = if total == 0 {
            Stage::Finished
        } else {
            Stage::Probing
        };
        FetchState { total, page: 0, stage }
    }

    /// What is to be done in this state.
    pub fn action(&self) -> (action: FetchAction)
        ensures
            action == self.action_spec(),
    {
        match self.stage {
            Stage::Probing => FetchAction::Probe { page: self.page },
            Stage::Requesting => FetchAction::Request { page: self.page },
            Stage::Storing { declared } => FetchAction::Store { page: self.page },
            Stage::Promoting => FetchAction::Promote { page: self.page },
            Stage::Resting => FetchAction::Rest,
            Stage::Finished => FetchAction::Finish,
            Stage::Failed(error) => FetchAction::Abort(error),
        }
    }

    /// Takes note of `event` and says where the retrieval stands then.
    pub fn advance(&self, event: FetchEvent) -> (next: FetchState)
        ensures
            next == self.after(event),
    {
        let mut page = self.page;
        let stage = match (self.stage, event) {
            (Stage::Probing, FetchEvent::Broken { by }) => Stage::Failed(by.error()),
            (Stage::Requesting, FetchEvent::Broken { by }) => Stage::Failed(by.error()),
            (Stage::Storing { declared }, FetchEvent::Broken { by }) => Stage::Failed(by.error()),
            (Stage::Promoting, FetchEvent::Broken { by }) => Stage::Failed(by.error()),
            (Stage::Probing, FetchEvent::Probed { present }) => {
                if present {
                    Stage::Resting
                } else {
                    Stage::Requesting
                }
            },
            (Stage::Requesting, FetchEvent::Answered { status, declared }) => {
                if 200 <= status && status < 300 {
                    Stage::Storing { declared }
                } else {
                    Stage::Failed(Error::Network { status })
                }
            },
            (Stage::Storing { declared }, FetchEvent::Stored { written }) => {
                match check_transfer(declared, written) {
                    Ok(_) => Stage::Promoting,
                    Err(error) => Stage::Failed(error),
                }
            },
            (Stage::Promoting, FetchEvent::Promoted) => Stage::Resting,
            (Stage::Resting, FetchEvent::Rested) => {
                if self.page < self.total && self.page + 1 < self.total {
                    page = self.page + 1;
                    Stage::Probing
                } else {
                    Stage::Finished
                }
            },
            (stage, _) => stage,
        };
        FetchState { total: self.total, page, stage }
    }
}

/// A page that is in its place is not asked for again, and a page that is
/// not is asked for: of the two answers to a probe, the one leads to the
/// rest after the page, the other to the request for this very page.
pub proof fn present_pages_are_skipped(state: FetchState, present: bool)
    requires
        state.stage is Probing,
    ensures
        present ==> state.after(FetchEvent::Probed { present }).action_spec() == FetchAction::Rest,
        !present ==> state.after(FetchEvent::Probed { present }).action_spec()
            == (FetchAction::Request { page: state.page }),
        state.after(FetchEvent::Probed { present }).page == state.page,
{
}

/// The state in which the retrieval stands after the rest that follows page
/// `page`: at the next page, or finished where there is none.
pub open spec fn past_page(total: usize, page: usize) -> FetchState {
    if page + 1 < total {
        FetchState { total, page: (page + 1) as usize, stage: Stage::Probing }
    } else {
        FetchState { total, page, stage: Stage::Finished }
    }
}

/// The course of a page that is in its place: it is looked at, rested after,
/// and left behind. Nothing is asked of the server for it.
pub proof fn course_of_a_present_page(state: FetchState)
    requires
        state.stage is Probing,
    ensures
        state.after(FetchEvent::Probed { present: true }).after(FetchEvent::Rested) == past_page(
            state.total,
            state.page,
        ),
{
}

/// The course of a page that is not in its place: it is asked for, stored,
/// moved to its place when all of it has arrived, rested after, and left
/// behind.
pub proof fn course_of_an_absent_page(
    state: FetchState,
    status: u16,
    declared: Option<u64>,
    written: u64,
)
    requires
        state.stage is Probing,
        is_success(status),
        is_whole(declared, written),
    ensures
        state.after(FetchEvent::Probed { present: false }).action_spec() == (FetchAction::Request {
            page: state.page,
        }),
        state.after(FetchEvent::Probed { present: false }).after(
            FetchEvent::Answered { status, declared },
        ).action_spec() == (FetchAction::Store { page: state.page }),
        state.after(FetchEvent::Probed { present: false }).after(
            FetchEvent::Answered { status, declared },
        ).after(FetchEvent::Stored { written }).action_spec() == (FetchAction::Promote {
            page: state.page,
        }),
        state.after(FetchEvent::Probed { present: false }).after(
            FetchEvent::Answered { status, declared },
        ).after(FetchEvent::Stored { written }).after(FetchEvent::Promoted).after(
            FetchEvent::Rested,
        ) == past_page(state.total, state.page),
{
}

/// A body that is not as long as the server announced fails the chapter as
/// an incomplete transfer, and the page is not moved to its place: the
/// state asks for nothing but to stop, whatever is reported afterwards.
pub proof fn short_body_is_not_promoted(
    state: FetchState,
    expected: u64,
    written: u64,
    later: FetchEvent,
)
    requires
        state.stage == (Stage::Storing { declared: Some(expected) }),
        written != expected,
    ensures
        state.after(FetchEvent::Stored { written }).action_spec() == FetchAction::Abort(
            Error::IncompleteTransfer { expected, written },
        ),
        state.after(FetchEvent::Stored { written }).after(later).action_spec()
            == FetchAction::Abort(Error::IncompleteTransfer { expected, written }),
{
}

/// A page is moved to its place only after a body was stored that is all
/// that the server announced.
pub proof fn promotion_follows_a_whole_body(state: FetchState, event: FetchEvent)
    requires
        !(state.stage is Promoting),
        state.after(event).stage is Promoting,
    ensures
        state.stage is Storing,
        event is Stored,
        is_whole(state.stage->declared, event->written),
{
}

/// Whether the state stands at a page of its chapter, or, for a chapter
/// without pages, at its end.
pub open spec fn in_chapter(state: FetchState) -> bool {
    if state.total == 0 {
        state.stage is Finished
    } else {
        state.page < state.total
    }
}

/// A retrieval never leaves its chapter: it begins at a page of the chapter
/// and every event leaves it at one, so that a state that asks for a look,
/// a request, a write or a move names a page that the chapter has.
pub proof fn retrieval_stays_in_chapter(total: usize, state: FetchState, event: FetchEvent)
    ensures
        in_chapter(FetchState::initial(total)),
        in_chapter(state) ==> in_chapter(state.after(event)),
        in_chapter(state) && state.is_working() ==> state.page < state.total,
{
}

/// A body is stored only after the server has answered with success: the
/// state asks for a write only behind such an answer to its request.
pub proof fn storing_follows_an_answer(state: FetchState, event: FetchEvent)
    requires
        !(state.stage is Storing),
        state.after(event).stage is Storing,
    ensures
        state.stage is Requesting,
        event is Answered,
        is_success(event->status),
        state.after(event).stage == (Stage::Storing { declared: event->Answered_declared }),
{
}

/// A step that fails ends the chapter: it is not tried again, no further
/// page is asked for, and whatever is reported afterwards changes nothing.
pub proof fn broken_step_ends_the_chapter(state: FetchState, by: Breakage, later: FetchEvent)
    requires
        state.is_working(),
    ensures
        state.after(FetchEvent::Broken { by }).action_spec() == FetchAction::Abort(by.error_spec()),
        state.after(FetchEvent::Broken { by }).after(later) == state.after(
            FetchEvent::Broken { by },
        ),
{
}

/// A state that has failed stays as it is, whatever is reported.
pub proof fn failure_is_final(state: FetchState, event: FetchEvent)
    requires
        state.stage is Failed,
    ensures
        state.after(event) == state,
{
}

/// An answer that is no success fails the chapter; nothing is stored.
pub proof fn failure_status_aborts(state: FetchState, status: u16, declared: Option<u64>)
    requires
        state.stage is Requesting,
        !is_success(status),
    ensures
        state.after(FetchEvent::Answered { status, declared }).action_spec() == FetchAction::Abort(
            Error::Network { status },
        ),
{
}

} // verus!
