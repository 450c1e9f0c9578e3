//! Slow-poll fallback: a lost webhook delays a payment but never loses it.
//! Every open fiat correlation with a session is pulled in turn; a payment
//! whose settlement delay has elapsed is confirmed, because the pull that just
//! happened is the fresh one that a promotion requires.

use crate::clock;
use crate::clock::Timestamp;
use crate::effects::Action;
use crate::effects::ActionModel;
use crate::effects::Event;
use crate::effects::Turn;
use crate::effects::TurnModel;
use crate::http::AppState;
use crate::state;
use crate::store::Correlation;
use crate::store::CorrelationModel;
use crate::store::CorrelationState;
use crate::verification;
use crate::verification::Pull;
use crate::verification::PullModel;
use crate::verification::PullOutcome;
use vstd::prelude::*;

verus! {

/// The rows of a list of correlations.
pub open spec fn rows_of(correlations: Seq<Correlation>) -> Seq<CorrelationModel> {
    Seq::new(correlations.len(), |i: int| correlations[i]@)
}

/// A round of the poll under way, by what it waits for. `rest` are the
/// correlations still to be pulled.
pub enum Poll {
    Listing,
    Pulling {
        creator: String,
        bundle_id: String,
        now: Timestamp,
        pull: Pull,
        rest: Vec<Correlation>,
    },
    /// The row is being read again: the pull may have just set when it was
    /// paid.
    Refreshing { now: Timestamp, rest: Vec<Correlation> },
    Confirming { rest: Vec<Correlation> },
}

pub enum PollModel {
    Listing,
    Pulling {
        creator: Seq<char>,
        bundle_id: Seq<char>,
        now: int,
        pull: PullModel,
        rest: Seq<CorrelationModel>,
    },
    Refreshing { now: int, rest: Seq<CorrelationModel> },
    Confirming { rest: Seq<CorrelationModel> },
}

impl View for Poll {
    type V = PollModel;

    open spec fn view(&self) -> PollModel {
        match self {
            Poll::Listing => PollModel::Listing,
            Poll::Pulling { creator, bundle_id, now, pull, rest } => PollModel::Pulling {
                creator: creator@,
                bundle_id: bundle_id@,
                now: now@,
                pull: pull@,
                rest: rows_of(rest@),
            },
            Poll::Refreshing { now, rest } => PollModel::Refreshing {
                now: now@,
                rest: rows_of(rest@),
            },
            Poll::Confirming { rest } => PollModel::Confirming { rest: rows_of(rest@) },
        }
    }
}

/// The first turn of a round.
pub open spec fn poll_start() -> TurnModel<PollModel, ()> {
    TurnModel::Perform(PollModel::Listing, ActionModel::ListOpen)
}

/// The pull of the next row that needs one.
pub open spec fn poll_next(app: AppState, rows: Seq<CorrelationModel>, now: int) -> TurnModel<
    PollModel,
    (),
>
    decreases rows.len(),
{
    if rows.len() == 0 {
        TurnModel::Done(())
    } else {
        match verification::pull_start(app.processors, rows[0], now) {
            TurnModel::Perform(pull, action) => TurnModel::Perform(
                PollModel::Pulling {
                    creator: rows[0].creator,
                    bundle_id: rows[0].bundle_id,
                    now,
                    pull,
                    rest: rows.skip(1),
                },
                action,
            ),
            TurnModel::Done(_) => poll_next(app, rows.skip(1), now),
        }
    }
}

/// A turn of a row's pull: a matched payment is looked at again, anything else
/// leads to the next row.
pub open spec fn poll_pulled(
    app: AppState,
    creator: Seq<char>,
    bundle_id: Seq<char>,
    pulled_at: int,
    rest: Seq<CorrelationModel>,
    turn: TurnModel<PullModel, PullOutcome>,
    now: int,
) -> TurnModel<PollModel, ()> {
    match turn {
        TurnModel::Perform(pull, action) => TurnModel::Perform(
            PollModel::Pulling { creator, bundle_id, now: pulled_at, pull, rest },
            action,
        ),
        TurnModel::Done(PullOutcome::Paid { amount_matched: true }) => TurnModel::Perform(
            PollModel::Refreshing { now: pulled_at, rest },
            ActionModel::Get { creator, bundle_id },
        ),
        TurnModel::Done(_) => poll_next(app, rest, now),
    }
}

/// The next turn of a round.
pub open spec fn poll_step(app: AppState, poll: PollModel, event: Event, now: int) -> TurnModel<
    PollModel,
    (),
> {
    match (poll, event) {
        (PollModel::Listing, Event::Open(Ok(open))) => poll_next(app, rows_of(open@), now),
        (PollModel::Listing, _) => TurnModel::Done(()),
        (
            PollModel::Pulling { creator, bundle_id, now: pulled_at, pull, rest },
            _,
        ) => poll_pulled(
            app,
            creator,
            bundle_id,
            pulled_at,
            rest,
            verification::pull_step(pull, event),
            now,
        ),
        (
            PollModel::Refreshing { now: pulled_at, rest },
            Event::Row(Ok(Some(refreshed))),
        ) => if refreshed.state == CorrelationState::Paid && state::delay_elapsed(
            refreshed@,
            pulled_at,
            app.settlement_delay@,
        ) {
            TurnModel::Perform(
                PollModel::Confirming { rest },
                ActionModel::MarkConfirmed {
                    creator: refreshed.creator@,
                    bundle_id: refreshed.bundle_id@,
                    confirmed_at: pulled_at,
                },
            )
        } else {
            poll_next(app, rest, now)
        },
        (PollModel::Refreshing { now: _, rest }, _) => poll_next(app, rest, now),
        (PollModel::Confirming { rest }, _) => poll_next(app, rest, now),
    }
}

fn copy_rows(rows: &Vec<Correlation>) -> (copies: Vec<Correlation>)
    ensures
        rows_of(copies@) == rows_of(rows@),
{
    let mut copies: Vec<Correlation> = Vec::new();
    let mut i: usize = 0;
    while i < rows.len()
        invariant
            i <= rows@.len(),
            copies@ == rows@.take(i as int),
        decreases rows.len() - i,
    {
        copies.push(rows[i].copy());
        i = i + 1;
        assert(copies@ =~= rows@.take(i as int));
    }
    assert(copies@ =~= rows@);
    copies
}

/// The first turn of a round.
pub fn run() -> (turn: Turn<Poll, ()>)
    ensures
        turn@ == poll_start(),
{
    Turn::Perform(Poll::Listing, Action::ListOpen)
}

impl AppState {
    fn pull_next(&self, rows: Vec<Correlation>, now: Timestamp) -> (turn: Turn<Poll, ()>)
        ensures
            turn@ == poll_next(*self, rows_of(rows@), now@),
    {
        let mut rest: Vec<Correlation> = rows;
        loop
            invariant
                poll_next(*self, rows_of(rows@), now@) == poll_next(*self, rows_of(rest@), now@),
            decreases rest@.len(),
        {
            if rest.len() == 0 {
                return Turn::Done(());
            }
            let ghost before = rows_of(rest@);
            let row: Correlation = rest.remove(0);
            assert(rows_of(rest@) =~= before.skip(1));
            assert(before[0] == row@);
            let creator: String = row.creator.clone();
            let bundle_id: String = row.bundle_id.clone();
            match verification::pull_and_apply(&self.processors, row, now) {
                Turn::Perform(pull, action) => {
                    return Turn::Perform(
                        Poll::Pulling { creator, bundle_id, now, pull, rest },
                        action,
                    );
                },
                Turn::Done(_) => {},
            }
        }
    }

    /// The next turn of a round of the poll. An answer that does not fit counts
    /// as a failed one.
    pub fn step_poll(&self, poll: Poll, event: &Event, now: Timestamp) -> (turn: Turn<Poll, ()>)
        ensures
            turn@ == poll_step(*self, poll@, *event, now@),
    {
        match (poll, event) {
            (Poll::Listing, Event::Open(Ok(open))) => self.pull_next(copy_rows(open), now),
            (Poll::Listing, _) => Turn::Done(()),
            (Poll::Pulling { creator, bundle_id, now: pulled_at, pull, rest }, event) => match pull.step(
                event,
            ) {
                Turn::Perform(pull, action) => Turn::Perform(
                    Poll::Pulling { creator, bundle_id, now: pulled_at, pull, rest },
                    action,
                ),
                Turn::Done(PullOutcome::Paid { amount_matched: true }) => Turn::Perform(
                    Poll::Refreshing { now: pulled_at, rest },
                    Action::Get { creator, bundle_id },
                ),
                Turn::Done(_) => self.pull_next(rest, now),
            },
            (Poll::Refreshing { now: pulled_at, rest }, Event::Row(Ok(Some(refreshed)))) => {
                let elapsed: bool = match refreshed.paid_at {
                    Some(paid_at) => clock::has_elapsed(paid_at, self.settlement_delay, pulled_at),
                    None => false,
                };
                if refreshed.state != CorrelationState::Paid || !elapsed {
                    return self.pull_next(rest, now);
                }
                Turn::Perform(
                    Poll::Confirming { rest },
                    Action::MarkConfirmed {
                        creator: refreshed.creator.clone(),
                        bundle_id: refreshed.bundle_id.clone(),
                        confirmed_at: pulled_at,
                    },
                )
            },
            (Poll::Refreshing { now: _, rest }, _) => self.pull_next(rest, now),
            (Poll::Confirming { rest }, _) => self.pull_next(rest, now),
        }
    }
}

} // verus!
