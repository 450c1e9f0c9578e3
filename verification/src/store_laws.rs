//! What holds of the correlation store whatever is done to it.

use crate::effects::ActionModel;
use crate::effects::Event;
use crate::memory;
use crate::memory::StoreModel;
use crate::state;
use crate::state::Report;
use crate::store;
use crate::store::Correlation;
use crate::store::CorrelationModel;
use crate::store::CorrelationState;
use crate::store::InsertOutcome;
use crate::store::NewCorrelationModel;
use crate::store::SessionRecordModel;
use crate::verification;
use crate::verification::ProcessorKind;
use vstd::prelude::*;

verus! {

/// Whether a state can come after another: created, then paid, then confirmed,
/// with reversed as a branch from created and paid. Confirmed and reversed are
/// final.
pub open spec fn can_follow(before: CorrelationState, after: CorrelationState) -> bool {
    match before {
        CorrelationState::Created => true,
        CorrelationState::Paid => after != CorrelationState::Created,
        CorrelationState::Confirmed => after == CorrelationState::Confirmed,
        CorrelationState::Reversed => after == CorrelationState::Reversed,
    }
}

/// What stays of a row while it advances: its identity and terms, the processor
/// and the return origin that it is bound to, the fact that it has a session,
/// once it is past `created`, when and how it was paid, and, once it is
/// confirmed, when that was.
pub open spec fn advances(before: CorrelationModel, after: CorrelationModel) -> bool {
    &&& store::terms(after) == store::terms(before)
    &&& can_follow(before.state, after.state)
    &&& before.processor is Some ==> after.processor == before.processor
    &&& verification::bound(before) is Some ==> verification::bound(after) == verification::bound(
        before,
    )
    &&& before.return_origin is Some ==> after.return_origin == before.return_origin
    &&& before.session_id is Some ==> after.session_id is Some
    &&& before.state != CorrelationState::Created ==> {
        &&& after.paid_at == before.paid_at
        &&& after.payment_intent == before.payment_intent
        &&& after.amount_matched == before.amount_matched
    }
    &&& before.state == CorrelationState::Confirmed ==> after.confirmed_at == before.confirmed_at
}

/// No action on the store removes a row or an event, and every row only
/// advances.
pub proof fn rows_only_advance(before: StoreModel, action: ActionModel)
    ensures
        forall|key: (Seq<char>, Seq<char>)| #[trigger]
            before.rows.contains_key(key) ==> memory::stored(before, action).rows.contains_key(key)
                && advances(before.rows[key], memory::stored(before, action).rows[key]),
        before.events.subset_of(memory::stored(before, action).events),
{
}

/// The store after a sequence of actions.
pub open spec fn after_all(before: StoreModel, actions: Seq<ActionModel>) -> StoreModel
    decreases actions.len(),
{
    if actions.len() == 0 {
        before
    } else {
        memory::stored(after_all(before, actions.drop_last()), actions.last())
    }
}

/// Whatever sequence of actions is performed, a row is never lost, and only
/// advances from what it was: a paid row is never unpaid, a confirmed row never
/// reversed, a reversed row never confirmed.
pub proof fn history_only_advances(
    before: StoreModel,
    actions: Seq<ActionModel>,
    key: (Seq<char>, Seq<char>),
)
    requires
        before.rows.contains_key(key),
    ensures
        after_all(before, actions).rows.contains_key(key),
        advances(before.rows[key], after_all(before, actions).rows[key]),
    decreases actions.len(),
{
    if actions.len() > 0 {
        history_only_advances(before, actions.drop_last(), key);
        rows_only_advance(after_all(before, actions.drop_last()), actions.last());
    }
}

/// What holds of every row: a created row was not paid yet, a paid or confirmed
/// row says when it was paid, and exactly a confirmed row says when it was
/// confirmed.
pub open spec fn row_ok(row: CorrelationModel) -> bool {
    &&& row.confirmed_at is Some <==> row.state == CorrelationState::Confirmed
    &&& match row.state {
        CorrelationState::Created => {
            &&& row.paid_at is None
            &&& row.payment_intent is None
            &&& !row.amount_matched
        },
        CorrelationState::Paid => row.paid_at is Some,
        CorrelationState::Confirmed => row.paid_at is Some,
        CorrelationState::Reversed => true,
    }
}

/// Whether every row stands under its own identity and is sound.
pub open spec fn store_ok(store: StoreModel) -> bool {
    forall|key: (Seq<char>, Seq<char>)| #[trigger]
        store.rows.contains_key(key) ==> memory::row_key(store.rows[key]) == key && row_ok(
            store.rows[key],
        )
}

/// The empty store is sound.
pub proof fn empty_store_is_ok()
    ensures
        store_ok(StoreModel { rows: Map::empty(), events: Set::empty() }),
{
}

/// Every action keeps a sound store sound.
pub proof fn store_stays_ok(before: StoreModel, action: ActionModel)
    requires
        store_ok(before),
    ensures
        store_ok(memory::stored(before, action)),
{
    let after = memory::stored(before, action);
    assert forall|key: (Seq<char>, Seq<char>)| #[trigger]
        after.rows.contains_key(key) implies memory::row_key(after.rows[key]) == key && row_ok(
        after.rows[key],
    ) by {
        if before.rows.contains_key(key) {
            assert(memory::row_key(before.rows[key]) == key && row_ok(before.rows[key]));
        }
    }
}

/// A new identity is inserted as a created row, and read back as that.
pub proof fn inserted_row_is_read_back(before: StoreModel, new: NewCorrelationModel)
    requires
        memory::row_at(before, new.creator, new.bundle_id) is None,
    ensures
        memory::insert_outcome(before, new) == InsertOutcome::Inserted,
        memory::row_at(
            memory::stored(before, ActionModel::Insert(new)),
            new.creator,
            new.bundle_id,
        ) == Some(store::opened(new)),
{
}

/// An insertion that is repeated, at once or after any other actions, is an
/// exact replay; the same identity with other terms conflicts. Neither changes
/// the store.
pub proof fn insertion_is_idempotent(
    before: StoreModel,
    new: NewCorrelationModel,
    actions: Seq<ActionModel>,
    other: NewCorrelationModel,
)
    requires
        memory::row_at(before, new.creator, new.bundle_id) is None,
        other.creator == new.creator,
        other.bundle_id == new.bundle_id,
        other != new,
    ensures
        ({
            let later = after_all(memory::stored(before, ActionModel::Insert(new)), actions);
            &&& memory::insert_outcome(later, new) == InsertOutcome::ExactReplay
            &&& memory::stored(later, ActionModel::Insert(new)) == later
            &&& memory::insert_outcome(later, other) == InsertOutcome::Conflict
            &&& memory::stored(later, ActionModel::Insert(other)) == later
        }),
{
    let inserted = memory::stored(before, ActionModel::Insert(new));
    let key = (new.creator, new.bundle_id);
    assert(inserted.rows.contains_key(key));
    assert(store::terms(inserted.rows[key]) == new);
    history_only_advances(inserted, actions, key);
}

/// A promotion is recorded with its time, and kept: a paid row that is marked
/// confirmed holds that state and that time from then on.
pub proof fn confirmation_is_kept(
    before: StoreModel,
    creator: Seq<char>,
    bundle_id: Seq<char>,
    confirmed_at: int,
    actions: Seq<ActionModel>,
)
    requires
        memory::row_at(before, creator, bundle_id) matches Some(row) && row.state
            == CorrelationState::Paid,
    ensures
        ({
            let marked = memory::stored(
                before,
                ActionModel::MarkConfirmed { creator, bundle_id, confirmed_at },
            );
            &&& memory::row_at(after_all(marked, actions), creator, bundle_id) matches Some(row)
            &&& row.state == CorrelationState::Confirmed
            &&& row.confirmed_at == Some(confirmed_at)
        }),
{
    let marked = memory::stored(
        before,
        ActionModel::MarkConfirmed { creator, bundle_id, confirmed_at },
    );
    assert(marked.rows.contains_key((creator, bundle_id)));
    history_only_advances(marked, actions, (creator, bundle_id));
}

/// A verified reversal is final: whatever happens to a created or paid row after
/// it was marked reversed, the row stays reversed and is reported undetected.
pub proof fn reversal_is_final(
    before: StoreModel,
    creator: Seq<char>,
    bundle_id: Seq<char>,
    actions: Seq<ActionModel>,
    now: int,
    settlement_delay: int,
    confirmations: u32,
)
    requires
        memory::row_at(before, creator, bundle_id) matches Some(row) && (row.state
            == CorrelationState::Created || row.state == CorrelationState::Paid),
    ensures
        ({
            let marked = memory::stored(before, ActionModel::MarkReversed { creator, bundle_id });
            &&& memory::row_at(after_all(marked, actions), creator, bundle_id) matches Some(row)
            &&& row.state == CorrelationState::Reversed
            &&& state::reported(row, now, settlement_delay, confirmations) == Report::Immediate(
                state::undetected(),
            )
        }),
{
    let marked = memory::stored(before, ActionModel::MarkReversed { creator, bundle_id });
    assert(marked.rows.contains_key((creator, bundle_id)));
    history_only_advances(marked, actions, (creator, bundle_id));
}

/// Once a row is bound to a return origin, no session of another origin, and
/// none without an origin, is ever recorded on it.
pub proof fn return_origin_is_permanent(
    before: StoreModel,
    actions: Seq<ActionModel>,
    creator: Seq<char>,
    bundle_id: Seq<char>,
    session: SessionRecordModel,
)
    requires
        memory::row_at(before, creator, bundle_id) matches Some(row) && row.return_origin is Some
            && session.return_origin != row.return_origin,
    ensures
        !memory::session_persists(after_all(before, actions), creator, bundle_id, session),
        memory::stored(
            after_all(before, actions),
            ActionModel::SetSession { creator, bundle_id, session },
        ) == after_all(before, actions),
{
    history_only_advances(before, actions, (creator, bundle_id));
}

/// Once a row is bound to a processor, it stays bound to it whatever happens,
/// and no session of another processor is ever recorded on it.
pub proof fn processor_is_permanent(
    before: StoreModel,
    actions: Seq<ActionModel>,
    creator: Seq<char>,
    bundle_id: Seq<char>,
    kind: ProcessorKind,
    session: SessionRecordModel,
)
    requires
        memory::row_at(before, creator, bundle_id) matches Some(row) && verification::bound(row)
            == Some(kind),
        session.processor != verification::kind_text(kind),
    ensures
        ({
            let later = after_all(before, actions);
            &&& memory::row_at(later, creator, bundle_id) matches Some(row)
            &&& verification::bound(row) == Some(kind)
            &&& !memory::session_persists(later, creator, bundle_id, session)
            &&& memory::stored(later, ActionModel::SetSession { creator, bundle_id, session })
                == later
        }),
{
    history_only_advances(before, actions, (creator, bundle_id));
    let row = after_all(before, actions).rows[(creator, bundle_id)];
    match row.processor {
        Some(value) => verification::kind_round_trip(kind, value),
        None => {},
    }
}

/// A recorded session is read back, with the return origin that it was minted
/// for.
pub proof fn recorded_session_is_read_back(
    before: StoreModel,
    creator: Seq<char>,
    bundle_id: Seq<char>,
    session: SessionRecordModel,
)
    requires
        memory::session_persists(before, creator, bundle_id, session),
    ensures
        ({
            let after = memory::stored(
                before,
                ActionModel::SetSession { creator, bundle_id, session },
            );
            &&& memory::row_at(after, creator, bundle_id) matches Some(row)
            &&& row.processor == Some(session.processor)
            &&& row.session_id == Some(session.session_id)
            &&& row.checkout_url == Some(session.checkout_url)
            &&& row.checkout_expires_at == Some(session.checkout_expires_at)
            &&& row.session_attempt == session.session_attempt
            &&& row.return_origin == session.return_origin
        }),
{
}

/// A webhook event is new once: whatever happens after it was taken, its id is
/// known.
pub proof fn event_is_new_once(
    before: StoreModel,
    event_id: Seq<char>,
    event_type: Seq<char>,
    actions: Seq<ActionModel>,
)
    ensures
        after_all(
            memory::stored(before, ActionModel::RecordWebhookEvent { event_id, event_type }),
            actions,
        ).events.contains(event_id),
    decreases actions.len(),
{
    let taken = memory::stored(before, ActionModel::RecordWebhookEvent { event_id, event_type });
    if actions.len() > 0 {
        event_is_new_once(before, event_id, event_type, actions.drop_last());
        rows_only_advance(after_all(taken, actions.drop_last()), actions.last());
    }
}

/// A row that was paid with a payment reference is never missed when that
/// reference is looked up.
pub proof fn paid_reference_is_found(
    before: StoreModel,
    creator: Seq<char>,
    bundle_id: Seq<char>,
    amount_matched: bool,
    reference: Seq<char>,
    paid_at: int,
    actions: Seq<ActionModel>,
    found: Option<CorrelationModel>,
)
    requires
        memory::row_at(before, creator, bundle_id) matches Some(row) && row.state
            == CorrelationState::Created,
        memory::found_by_intent(
            after_all(
                memory::stored(
                    before,
                    ActionModel::MarkPaid {
                        creator,
                        bundle_id,
                        amount_matched,
                        payment_intent: Some(reference),
                        paid_at,
                    },
                ),
                actions,
            ),
            reference,
            found,
        ),
    ensures
        found matches Some(row) && row.payment_intent == Some(reference),
{
    let marked = memory::stored(
        before,
        ActionModel::MarkPaid {
            creator,
            bundle_id,
            amount_matched,
            payment_intent: Some(reference),
            paid_at,
        },
    );
    let key = (creator, bundle_id);
    assert(marked.rows[key].payment_intent == Some(reference));
    history_only_advances(marked, actions, key);
    assert(after_all(marked, actions).rows.contains_key(key));
}

/// An action on an identity touches the row of that identity alone, and only a
/// webhook event is remembered as one. Reads touch nothing.
pub proof fn actions_touch_their_own_row(
    before: StoreModel,
    action: ActionModel,
    creator: Seq<char>,
    bundle_id: Seq<char>,
)
    requires
        match action {
            ActionModel::Insert(new) => new.creator != creator || new.bundle_id != bundle_id,
            ActionModel::SetSession { creator: c, bundle_id: b, session: _ } => c != creator || b
                != bundle_id,
            ActionModel::MarkPaid {
                creator: c,
                bundle_id: b,
                amount_matched: _,
                payment_intent: _,
                paid_at: _,
            } => c != creator || b != bundle_id,
            ActionModel::MarkConfirmed { creator: c, bundle_id: b, confirmed_at: _ } => c != creator
                || b != bundle_id,
            ActionModel::MarkReversed { creator: c, bundle_id: b } => c != creator || b
                != bundle_id,
            _ => true,
        },
    ensures
        memory::row_at(memory::stored(before, action), creator, bundle_id) == memory::row_at(
            before,
            creator,
            bundle_id,
        ),
        match action {
            ActionModel::RecordWebhookEvent { event_id, event_type } => memory::stored(
                before,
                action,
            ).events == before.events.insert(event_id),
            _ => memory::stored(before, action).events == before.events,
        },
{
}

/// A new row is created with the terms of its invoice and nothing else: it has
/// no processor, no session and no payment, and no attempt was made.
pub proof fn new_row_is_blank(before: StoreModel, new: NewCorrelationModel)
    requires
        !before.rows.contains_key((new.creator, new.bundle_id)),
    ensures
        ({
            let after = memory::stored(before, ActionModel::Insert(new));
            let row = after.rows[(new.creator, new.bundle_id)];
            &&& after.rows.contains_key((new.creator, new.bundle_id))
            &&& row.creator == new.creator
            &&& row.bundle_id == new.bundle_id
            &&& row.lock_resource == new.lock_resource
            &&& row.reader == new.reader
            &&& row.asset == new.asset
            &&& row.amount_minor == new.amount_minor
            &&& row.state == CorrelationState::Created
            &&& row.processor is None
            &&& row.session_id is None
            &&& row.checkout_url is None
            &&& row.checkout_expires_at is None
            &&& row.return_origin is None
            &&& row.session_attempt == 0
            &&& row.payment_intent is None
            &&& !row.amount_matched
            &&& row.paid_at is None
            &&& row.confirmed_at is None
        }),
{
}

/// An insertion under a known identity is a replay exactly if all its terms are
/// those of the row.
pub proof fn replays_repeat_every_term(before: StoreModel, new: NewCorrelationModel)
    requires
        before.rows.contains_key((new.creator, new.bundle_id)),
    ensures
        ({
            let row = before.rows[(new.creator, new.bundle_id)];
            let same = row.creator == new.creator && row.bundle_id == new.bundle_id
                && row.lock_resource == new.lock_resource && row.reader == new.reader && row.asset
                == new.asset && row.amount_minor == new.amount_minor;
            memory::insert_outcome(before, new) == (if same {
                InsertOutcome::ExactReplay
            } else {
                InsertOutcome::Conflict
            })
        }),
{
}

/// The rows before and after an action that is performed on an identity.
pub open spec fn row_after(
    before: StoreModel,
    creator: Seq<char>,
    bundle_id: Seq<char>,
    action: ActionModel,
) -> CorrelationModel {
    memory::stored(before, action).rows[(creator, bundle_id)]
}

/// A created row that is marked paid is paid, with the amount check, the payment
/// reference and the time of the mark; a row in any other state stays as it is.
pub proof fn payment_is_recorded_once(
    before: StoreModel,
    creator: Seq<char>,
    bundle_id: Seq<char>,
    amount_matched: bool,
    payment_intent: Option<Seq<char>>,
    paid_at: int,
)
    requires
        before.rows.contains_key((creator, bundle_id)),
    ensures
        ({
            let row = before.rows[(creator, bundle_id)];
            let after = row_after(
                before,
                creator,
                bundle_id,
                ActionModel::MarkPaid {
                    creator,
                    bundle_id,
                    amount_matched,
                    payment_intent,
                    paid_at,
                },
            );
            if row.state == CorrelationState::Created {
                &&& after.state == CorrelationState::Paid
                &&& after.amount_matched == amount_matched
                &&& after.paid_at == Some(paid_at)
                &&& payment_intent is Some ==> after.payment_intent == payment_intent
                &&& payment_intent is None ==> after.payment_intent == row.payment_intent
                &&& after.session_id == row.session_id
                &&& after.processor == row.processor
                &&& after.session_attempt == row.session_attempt
                &&& after.checkout_url == row.checkout_url
                &&& after.checkout_expires_at == row.checkout_expires_at
                &&& after.return_origin == row.return_origin
                &&& after.confirmed_at == row.confirmed_at
            } else {
                after == row
            }
        }),
{
}

/// Only a paid row is confirmed, and only a created or a paid row is reversed; a
/// row in any other state stays as it is.
pub proof fn marks_need_their_state(
    before: StoreModel,
    creator: Seq<char>,
    bundle_id: Seq<char>,
    confirmed_at: int,
)
    requires
        before.rows.contains_key((creator, bundle_id)),
    ensures
        ({
            let row = before.rows[(creator, bundle_id)];
            let confirmed = row_after(
                before,
                creator,
                bundle_id,
                ActionModel::MarkConfirmed { creator, bundle_id, confirmed_at },
            );
            let reversed = row_after(
                before,
                creator,
                bundle_id,
                ActionModel::MarkReversed { creator, bundle_id },
            );
            &&& confirmed == (if row.state == CorrelationState::Paid {
                CorrelationModel {
                    state: CorrelationState::Confirmed,
                    confirmed_at: Some(confirmed_at),
                    ..row
                }
            } else {
                row
            })
            &&& reversed == (match row.state {
                CorrelationState::Created => CorrelationModel {
                    state: CorrelationState::Reversed,
                    ..row
                },
                CorrelationState::Paid => CorrelationModel {
                    state: CorrelationState::Reversed,
                    ..row
                },
                CorrelationState::Confirmed => row,
                CorrelationState::Reversed => row,
            })
        }),
{
}

/// A session is recorded exactly if its row is there, belongs to no other
/// processor and to no other return origin. A session without a processor is
/// one of Stripe.
pub proof fn sessions_keep_the_bindings(
    before: StoreModel,
    creator: Seq<char>,
    bundle_id: Seq<char>,
    session: SessionRecordModel,
)
    ensures
        memory::session_persists(before, creator, bundle_id, session) <==> {
            let row = before.rows[(creator, bundle_id)];
            &&& before.rows.contains_key((creator, bundle_id))
            &&& match (row.processor, row.session_id) {
                (Some(processor), _) => processor == session.processor,
                (None, Some(_)) => session.processor == "stripe"@,
                (None, None) => true,
            }
            &&& match row.return_origin {
                Some(origin) => session.return_origin == Some(origin),
                None => true,
            }
        },
        !memory::session_persists(before, creator, bundle_id, session) ==> memory::stored(
            before,
            ActionModel::SetSession { creator, bundle_id, session },
        ) == before,
        memory::session_persists(before, creator, bundle_id, session) ==> {
            let row = before.rows[(creator, bundle_id)];
            let after = row_after(
                before,
                creator,
                bundle_id,
                ActionModel::SetSession { creator, bundle_id, session },
            );
            &&& after.state == row.state
            &&& after.payment_intent == row.payment_intent
            &&& after.amount_matched == row.amount_matched
            &&& after.paid_at == row.paid_at
            &&& after.confirmed_at == row.confirmed_at
        },
{
}

/// The poll watches the rows that have a session and are created or paid.
pub proof fn open_rows_have_sessions(row: CorrelationModel)
    ensures
        store::is_open(row) <==> row.session_id is Some && match row.state {
            CorrelationState::Created => true,
            CorrelationState::Paid => true,
            CorrelationState::Confirmed => false,
            CorrelationState::Reversed => false,
        },
{
}

/// A list of open rows holds rows as they are stored, each once, that have a
/// session and are created or paid; a complete list misses none of them.
pub proof fn open_rows_are_listed(
    store: StoreModel,
    list: Seq<CorrelationModel>,
    at: int,
    creator: Seq<char>,
    bundle_id: Seq<char>,
)
    requires
        memory::lists_open(store, list),
    ensures
        0 <= at < list.len() ==> {
            &&& store.rows.contains_key((list[at].creator, list[at].bundle_id))
            &&& store.rows[(list[at].creator, list[at].bundle_id)] == list[at]
            &&& list[at].session_id is Some
            &&& list[at].state == CorrelationState::Created || list[at].state
                == CorrelationState::Paid
            &&& forall|j: int|
                0 <= j < list.len() && j != at ==> (#[trigger] list[j]).creator != list[at].creator
                    || list[j].bundle_id != list[at].bundle_id
        },
        memory::lists_every_open(store, list) && store.rows.contains_key((creator, bundle_id)) && {
            let row = store.rows[(creator, bundle_id)];
            &&& row.session_id is Some
            &&& row.state == CorrelationState::Created || row.state == CorrelationState::Paid
        } ==> list.contains(store.rows[(creator, bundle_id)]),
{
    if 0 <= at < list.len() {
        assert(store::is_open(list[at]));
        assert forall|j: int| 0 <= j < list.len() && j != at implies (#[trigger] list[j]).creator
            != list[at].creator || list[j].bundle_id != list[at].bundle_id by {
            if j < at {
                assert(memory::row_key(list[j]) != memory::row_key(list[at]));
            } else {
                assert(memory::row_key(list[at]) != memory::row_key(list[j]));
            }
        }
    }
}

/// A working store answers what it holds: the row of the identity that is read,
/// a row with the payment reference that is looked up, whether an event is new,
/// whether a session was recorded, and what an insertion amounted to.
pub proof fn stores_answer_what_they_hold(
    store: StoreModel,
    creator: Seq<char>,
    bundle_id: Seq<char>,
    reference: Seq<char>,
    found: Option<Correlation>,
    event_id: Seq<char>,
    event_type: Seq<char>,
    is_new: bool,
)
    ensures
        memory::answers(store, ActionModel::Get { creator, bundle_id }, Event::Row(Ok(found)))
            <==> match found {
            Some(row) => store.rows.contains_key((creator, bundle_id)) && store.rows[(
                creator,
                bundle_id,
            )] == row@,
            None => !store.rows.contains_key((creator, bundle_id)),
        },
        memory::answers(
            store,
            ActionModel::FindByPaymentIntent { reference },
            Event::Row(Ok(found)),
        ) ==> match found {
            Some(row) => {
                &&& row.payment_intent matches Some(intent) && intent@ == reference
                &&& store.rows.contains_key((row.creator@, row.bundle_id@))
                &&& store.rows[(row.creator@, row.bundle_id@)] == row@
            },
            None => store.rows.contains_key((creator, bundle_id)) ==> store.rows[(
                creator,
                bundle_id,
            )].payment_intent != Some(reference),
        },
        memory::answers(
            store,
            ActionModel::RecordWebhookEvent { event_id, event_type },
            Event::Recorded(Ok(is_new)),
        ) <==> (is_new <==> !store.events.contains(event_id)),
{
}

} // verus!
