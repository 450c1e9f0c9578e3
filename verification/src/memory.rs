//! The correlation store as a mathematical object, and a store in memory that
//! behaves as it: what every store action does and answers.

use crate::clock::Timestamp;
use crate::effects::Action;
use crate::effects::ActionModel;
use crate::effects::Event;
use crate::store;
use crate::store::Correlation;
use crate::store::CorrelationModel;
use crate::store::InsertOutcome;
use crate::store::NewCorrelation;
use crate::store::NewCorrelationModel;
use crate::store::SessionRecord;
use crate::store::SessionRecordModel;
use crate::text;
use crate::worker;
use vstd::prelude::*;

verus! {

/// One row for each identity, and the webhook events that were taken.
pub struct StoreModel {
    pub rows: Map<(Seq<char>, Seq<char>), CorrelationModel>,
    pub events: Set<Seq<char>>,
}

/// The identity of a row.
pub open spec fn row_key(row: CorrelationModel) -> (Seq<char>, Seq<char>) {
    (row.creator, row.bundle_id)
}

/// What the insertion of a new correlation amounts to.
pub open spec fn insert_outcome(store: StoreModel, new: NewCorrelationModel) -> InsertOutcome {
    let key = (new.creator, new.bundle_id);
    if !store.rows.contains_key(key) {
        InsertOutcome::Inserted
    } else if store::terms(store.rows[key]) == new {
        InsertOutcome::ExactReplay
    } else {
        InsertOutcome::Conflict
    }
}

/// The row of an identity, if there is one.
pub open spec fn row_at(store: StoreModel, creator: Seq<char>, bundle_id: Seq<char>) -> Option<
    CorrelationModel,
> {
    if store.rows.contains_key((creator, bundle_id)) {
        Some(store.rows[(creator, bundle_id)])
    } else {
        None
    }
}

/// Whether a session may be recorded on the row of an identity.
pub open spec fn session_persists(
    store: StoreModel,
    creator: Seq<char>,
    bundle_id: Seq<char>,
    session: SessionRecordModel,
) -> bool {
    row_at(store, creator, bundle_id) matches Some(row) && store::session_fits(row, session)
}

/// The store with the row of an identity replaced.
pub open spec fn with_row(
    store: StoreModel,
    creator: Seq<char>,
    bundle_id: Seq<char>,
    row: CorrelationModel,
) -> StoreModel {
    StoreModel { rows: store.rows.insert((creator, bundle_id), row), ..store }
}

/// The store after an action. Actions on anything else leave it as it is.
pub open spec fn stored(store: StoreModel, action: ActionModel) -> StoreModel {
    match action {
        ActionModel::Insert(new) => match row_at(store, new.creator, new.bundle_id) {
            Some(_) => store,
            None => with_row(store, new.creator, new.bundle_id, store::opened(new)),
        },
        ActionModel::SetSession { creator, bundle_id, session } => if session_persists(
            store,
            creator,
            bundle_id,
            session,
        ) {
            with_row(
                store,
                creator,
                bundle_id,
                store::with_session(store.rows[(creator, bundle_id)], session),
            )
        } else {
            store
        },
        ActionModel::MarkPaid { creator, bundle_id, amount_matched, payment_intent, paid_at } =>
            match row_at(store, creator, bundle_id) {
            Some(row) => with_row(
                store,
                creator,
                bundle_id,
                store::paid(row, amount_matched, payment_intent, paid_at),
            ),
            None => store,
        },
        ActionModel::MarkConfirmed { creator, bundle_id, confirmed_at } => match row_at(
            store,
            creator,
            bundle_id,
        ) {
            Some(row) => with_row(store, creator, bundle_id, store::confirmed(row, confirmed_at)),
            None => store,
        },
        ActionModel::MarkReversed { creator, bundle_id } => match row_at(
            store,
            creator,
            bundle_id,
        ) {
            Some(row) => with_row(store, creator, bundle_id, store::reversed(row)),
            None => store,
        },
        ActionModel::RecordWebhookEvent { event_id, event_type } => StoreModel {
            events: store.events.insert(event_id),
            ..store
        },
        _ => store,
    }
}

/// The row of an optional correlation.
pub open spec fn row_opt(found: Option<Correlation>) -> Option<CorrelationModel> {
    match found {
        Some(row) => Some(row@),
        None => None,
    }
}

/// Whether a lookup by payment intent found a row that carries it, or there is
/// none.
pub open spec fn found_by_intent(
    store: StoreModel,
    payment_intent: Seq<char>,
    found: Option<CorrelationModel>,
) -> bool {
    match found {
        Some(row) => {
            &&& row_at(store, row.creator, row.bundle_id) == Some(row)
            &&& row.payment_intent == Some(payment_intent)
        },
        None => forall|key: (Seq<char>, Seq<char>)| #[trigger]
            store.rows.contains_key(key) ==> store.rows[key].payment_intent != Some(payment_intent),
    }
}

/// Whether a list holds open rows only, each of them at most once.
pub open spec fn lists_open(store: StoreModel, list: Seq<CorrelationModel>) -> bool {
    &&& forall|i: int|
        0 <= i < list.len() ==> store::is_open(#[trigger] list[i]) && row_at(
            store,
            list[i].creator,
            list[i].bundle_id,
        ) == Some(list[i])
    &&& forall|i: int, j: int|
        0 <= i < j < list.len() ==> row_key(#[trigger] list[i]) != row_key(#[trigger] list[j])
}

/// Whether a list holds every open row.
pub open spec fn lists_every_open(store: StoreModel, list: Seq<CorrelationModel>) -> bool {
    forall|key: (Seq<char>, Seq<char>)| #[trigger]
        store.rows.contains_key(key) && store::is_open(store.rows[key]) ==> list.contains(
            store.rows[key],
        )
}

/// Whether an action is one on the store.
pub open spec fn is_store_action(action: ActionModel) -> bool {
    match action {
        ActionModel::Insert(_) => true,
        ActionModel::Get { .. } => true,
        ActionModel::SetSession { .. } => true,
        ActionModel::MarkPaid { .. } => true,
        ActionModel::MarkConfirmed { .. } => true,
        ActionModel::MarkReversed { .. } => true,
        ActionModel::FindByPaymentIntent { .. } => true,
        ActionModel::RecordWebhookEvent { .. } => true,
        ActionModel::ListOpen => true,
        _ => false,
    }
}

/// Whether an event is what a working store answers to an action. A store may
/// cap the list of open rows.
pub open spec fn answers(store: StoreModel, action: ActionModel, event: Event) -> bool {
    match (action, event) {
        (ActionModel::Insert(new), Event::Inserted(Ok(outcome))) => outcome == insert_outcome(
            store,
            new,
        ),
        (ActionModel::Get { creator, bundle_id }, Event::Row(Ok(found))) => row_opt(found)
            == row_at(store, creator, bundle_id),
        (
            ActionModel::SetSession { creator, bundle_id, session },
            Event::SessionSet(Ok(persisted)),
        ) => persisted == session_persists(store, creator, bundle_id, session),
        (ActionModel::MarkPaid { .. }, Event::Marked(Ok(_))) => true,
        (ActionModel::MarkConfirmed { .. }, Event::Marked(Ok(_))) => true,
        (ActionModel::MarkReversed { .. }, Event::Marked(Ok(_))) => true,
        (ActionModel::FindByPaymentIntent { reference }, Event::Row(Ok(found))) =>
            found_by_intent(store, reference, row_opt(found)),
        (
            ActionModel::RecordWebhookEvent { event_id, event_type },
            Event::Recorded(Ok(is_new)),
        ) => is_new == !store.events.contains(event_id),
        (ActionModel::ListOpen, Event::Open(Ok(list))) => lists_open(
            store,
            worker::rows_of(list@),
        ),
        _ => false,
    }
}

/// The rows of a list of correlations, by their identities.
pub open spec fn rows_map(rows: Seq<Correlation>) -> Map<(Seq<char>, Seq<char>), CorrelationModel>
    decreases rows.len(),
{
    if rows.len() == 0 {
        Map::empty()
    } else {
        rows_map(rows.drop_last()).insert(row_key(rows.last()@), rows.last()@)
    }
}

/// Whether no two rows share an identity.
pub open spec fn distinct(rows: Seq<Correlation>) -> bool {
    forall|i: int, j: int|
        0 <= i < j < rows.len() ==> row_key(#[trigger] rows[i]@) != row_key(#[trigger] rows[j]@)
}

proof fn lemma_rows_map(rows: Seq<Correlation>)
    requires
        distinct(rows),
    ensures
        forall|i: int|
            0 <= i < rows.len() ==> rows_map(rows).contains_key(row_key(#[trigger] rows[i]@))
                && rows_map(rows)[row_key(rows[i]@)] == rows[i]@,
        forall|key: (Seq<char>, Seq<char>)| #[trigger]
            rows_map(rows).contains_key(key) ==> exists|i: int|
                0 <= i < rows.len() && row_key(#[trigger] rows[i]@) == key,
    decreases rows.len(),
{
    if rows.len() > 0 {
        let front = rows.drop_last();
        let last = rows.len() - 1;
        assert(distinct(front)) by {
            assert forall|i: int, j: int| 0 <= i < j < front.len() implies row_key(
                #[trigger] front[i]@,
            ) != row_key(#[trigger] front[j]@) by {
                assert(front[i] == rows[i] && front[j] == rows[j]);
            }
        }
        lemma_rows_map(front);
        assert forall|i: int| 0 <= i < rows.len() implies rows_map(rows).contains_key(
            row_key(#[trigger] rows[i]@),
        ) && rows_map(rows)[row_key(rows[i]@)] == rows[i]@ by {
            if i < last {
                assert(front[i] == rows[i]);
                assert(row_key(rows[i]@) != row_key(rows[last]@));
            }
        }
        assert forall|key: (Seq<char>, Seq<char>)| #[trigger]
            rows_map(rows).contains_key(key) implies exists|i: int|
            0 <= i < rows.len() && row_key(#[trigger] rows[i]@) == key by {
            if key == row_key(rows[last]@) {
                assert(row_key(rows[last]@) == key);
            } else {
                assert(rows_map(front).contains_key(key));
                let i = choose|i: int|
                    0 <= i < front.len() && row_key(#[trigger] front[i]@) == key;
                assert(row_key(rows[i]@) == key);
            }
        }
    }
}

proof fn lemma_rows_map_update(rows: Seq<Correlation>, i: int, row: Correlation)
    requires
        distinct(rows),
        0 <= i < rows.len(),
        row_key(row@) == row_key(rows[i]@),
    ensures
        distinct(rows.update(i, row)),
        rows_map(rows.update(i, row)) == rows_map(rows).insert(row_key(row@), row@),
{
    let updated = rows.update(i, row);
    assert forall|a: int, b: int| 0 <= a < b < updated.len() implies row_key(
        #[trigger] updated[a]@,
    ) != row_key(#[trigger] updated[b]@) by {
        assert(row_key(rows[a]@) != row_key(rows[b]@));
    }
    lemma_rows_map(rows);
    lemma_rows_map(updated);
    let left = rows_map(updated);
    let right = rows_map(rows).insert(row_key(row@), row@);
    assert forall|key: (Seq<char>, Seq<char>)| #[trigger] left.contains_key(key)
        == right.contains_key(key) by {
        if left.contains_key(key) {
            let j = choose|j: int|
                0 <= j < updated.len() && row_key(#[trigger] updated[j]@) == key;
            assert(row_key(rows[j]@) == key);
        }
        if right.contains_key(key) {
            if key == row_key(row@) {
                assert(row_key(updated[i]@) == key);
            } else {
                let j = choose|j: int|
                    0 <= j < rows.len() && row_key(#[trigger] rows[j]@) == key;
                assert(row_key(updated[j]@) == key);
            }
        }
    }
    assert forall|key: (Seq<char>, Seq<char>)| #[trigger] left.contains_key(key) implies left[key]
        == right[key] by {
        let j = choose|j: int| 0 <= j < updated.len() && row_key(#[trigger] updated[j]@) == key;
        if j == i {
            assert(left[key] == updated[i]@);
        } else {
            assert(row_key(rows[j]@) != row_key(rows[i]@)) by {
                if j < i {
                    assert(row_key(rows[j]@) != row_key(rows[i]@));
                } else {
                    assert(row_key(rows[i]@) != row_key(rows[j]@));
                }
            }
            assert(left[key] == updated[j]@);
            assert(rows_map(rows)[key] == rows[j]@);
        }
    }
    assert(left =~= right);
}

/// A correlation store in memory.
pub struct MemoryStore {
    rows: Vec<Correlation>,
    events: Vec<String>,
}

impl View for MemoryStore {
    type V = StoreModel;

    closed spec fn view(&self) -> StoreModel {
        StoreModel { rows: rows_map(self.rows@), events: text::texts(self.events@).to_set() }
    }
}

impl MemoryStore {
    #[verifier::type_invariant]
    spec fn one_row_each(self) -> bool {
        distinct(self.rows@)
    }

    /// A store without rows and events.
    pub fn new() -> (store: MemoryStore)
        ensures
            store@ == (StoreModel { rows: Map::empty(), events: Set::empty() }),
    {
        let store: MemoryStore = MemoryStore { rows: Vec::new(), events: Vec::new() };
        proof {
            assert(text::texts(store.events@) =~= Seq::empty());
            assert(text::texts(store.events@).to_set() =~= Set::empty());
        }
        store
    }

    /// Where the row of an identity stands.
    fn position(&self, creator: &str, bundle_id: &str) -> (at: Option<usize>)
        ensures
            match at {
                Some(i) => i < self.rows@.len() && row_key(self.rows@[i as int]@) == (
                    creator@,
                    bundle_id@,
                ) && row_at(self@, creator@, bundle_id@) == Some(self.rows@[i as int]@),
                None => row_at(self@, creator@, bundle_id@) is None,
            },
    {
        proof {
            use_type_invariant(self);
            lemma_rows_map(self.rows@);
        }
        let mut i: usize = 0;
        while i < self.rows.len()
            invariant
                i <= self.rows@.len(),
                distinct(self.rows@),
                forall|j: int|
                    0 <= j < i ==> row_key(#[trigger] self.rows@[j]@) != (creator@, bundle_id@),
            decreases self.rows.len() - i,
        {
            if self.rows[i].is_named(creator, bundle_id) {
                proof {
                    lemma_rows_map(self.rows@);
                }
                return Some(i);
            }
            i = i + 1;
        }
        None
    }

    /// Puts a row in the place of one with the same identity.
    fn replace(&mut self, i: usize, row: Correlation)
        requires
            i < old(self).rows@.len(),
            row_key(row@) == row_key(old(self).rows@[i as int]@),
        ensures
            final(self)@ == with_row(old(self)@, row@.creator, row@.bundle_id, row@),
    {
        proof {
            use_type_invariant(&*self);
            lemma_rows_map_update(self.rows@, i as int, row);
        }
        let mut rows: Vec<Correlation> = Vec::new();
        std::mem::swap(&mut rows, &mut self.rows);
        rows.set(i, row);
        self.rows = rows;
    }

    pub fn insert_new(&mut self, new: NewCorrelation) -> (outcome: InsertOutcome)
        ensures
            outcome == insert_outcome(old(self)@, new@),
            final(self)@ == stored(old(self)@, ActionModel::Insert(new@)),
    {
        if let Some(i) = self.position(&new.creator, &new.bundle_id) {
            return self.rows[i].replay(&new);
        }
        proof {
            use_type_invariant(&*self);
            lemma_rows_map(self.rows@);
        }
        let row: Correlation = Correlation::open(new);
        let mut rows: Vec<Correlation> = Vec::new();
        std::mem::swap(&mut rows, &mut self.rows);
        let ghost before = rows@;
        rows.push(row);
        proof {
            assert(rows@.drop_last() =~= before);
            assert forall|a: int, b: int| 0 <= a < b < rows@.len() implies row_key(
                #[trigger] rows@[a]@,
            ) != row_key(#[trigger] rows@[b]@) by {
                assert(rows@[a] == before[a]);
                if b < before.len() {
                    assert(rows@[b] == before[b]);
                } else {
                    assert(rows_map(before).contains_key(row_key(before[a]@)));
                }
            }
        }
        self.rows = rows;
        InsertOutcome::Inserted
    }

    pub fn get(&self, creator: &str, bundle_id: &str) -> (found: Option<Correlation>)
        ensures
            row_opt(found) == row_at(self@, creator@, bundle_id@),
    {
        match self.position(creator, bundle_id) {
            Some(i) => Some(self.rows[i].copy()),
            None => None,
        }
    }

    /// Records a session, unless the row is missing or bound to another
    /// processor or return origin.
    pub fn set_session(&mut self, creator: &str, bundle_id: &str, session: SessionRecord) -> (persisted:
        bool)
        ensures
            persisted == session_persists(old(self)@, creator@, bundle_id@, session@),
            final(self)@ == stored(
                old(self)@,
                ActionModel::SetSession {
                    creator: creator@,
                    bundle_id: bundle_id@,
                    session: session@,
                },
            ),
    {
        match self.position(creator, bundle_id) {
            Some(i) => {
                let mut row: Correlation = self.rows[i].copy();
                let persisted: bool = row.set_session(session);
                if persisted {
                    self.replace(i, row);
                }
                persisted
            },
            None => false,
        }
    }

    pub fn mark_paid(
        &mut self,
        creator: &str,
        bundle_id: &str,
        amount_matched: bool,
        payment_intent: Option<String>,
        paid_at: Timestamp,
    )
        ensures
            final(self)@ == stored(
                old(self)@,
                ActionModel::MarkPaid {
                    creator: creator@,
                    bundle_id: bundle_id@,
                    amount_matched,
                    payment_intent: text::text_opt(payment_intent),
                    paid_at: paid_at@,
                },
            ),
    {
        if let Some(i) = self.position(creator, bundle_id) {
            let mut row: Correlation = self.rows[i].copy();
            row.mark_paid(amount_matched, payment_intent, paid_at);
            self.replace(i, row);
        }
    }

    pub fn mark_confirmed(&mut self, creator: &str, bundle_id: &str, confirmed_at: Timestamp)
        ensures
            final(self)@ == stored(
                old(self)@,
                ActionModel::MarkConfirmed {
                    creator: creator@,
                    bundle_id: bundle_id@,
                    confirmed_at: confirmed_at@,
                },
            ),
    {
        if let Some(i) = self.position(creator, bundle_id) {
            let mut row: Correlation = self.rows[i].copy();
            row.mark_confirmed(confirmed_at);
            self.replace(i, row);
        }
    }

    pub fn mark_reversed(&mut self, creator: &str, bundle_id: &str)
        ensures
            final(self)@ == stored(
                old(self)@,
                ActionModel::MarkReversed { creator: creator@, bundle_id: bundle_id@ },
            ),
    {
        if let Some(i) = self.position(creator, bundle_id) {
            let mut row: Correlation = self.rows[i].copy();
            row.mark_reversed();
            self.replace(i, row);
        }
    }

    pub fn find_by_payment_intent(&self, payment_intent: &str) -> (found: Option<Correlation>)
        ensures
            found_by_intent(self@, payment_intent@, row_opt(found)),
    {
        proof {
            use_type_invariant(self);
            lemma_rows_map(self.rows@);
        }
        let mut i: usize = 0;
        while i < self.rows.len()
            invariant
                i <= self.rows@.len(),
                distinct(self.rows@),
                forall|j: int|
                    0 <= j < i ==> (#[trigger] self.rows@[j]@).payment_intent != Some(
                        payment_intent@,
                    ),
            decreases self.rows.len() - i,
        {
            if let Some(reference) = &self.rows[i].payment_intent {
                if text::same_text(reference, payment_intent) {
                    proof {
                        lemma_rows_map(self.rows@);
                        assert(rows_map(self.rows@).contains_key(row_key(self.rows@[i as int]@)));
                    }
                    return Some(self.rows[i].copy());
                }
            }
            i = i + 1;
        }
        proof {
            assert forall|key: (Seq<char>, Seq<char>)| #[trigger]
                self@.rows.contains_key(key) implies self@.rows[key].payment_intent != Some(
                payment_intent@,
            ) by {
                let j = choose|j: int|
                    0 <= j < self.rows@.len() && row_key(#[trigger] self.rows@[j]@) == key;
                assert(self@.rows[key] == self.rows@[j]@);
            }
        }
        None
    }

    /// Records a webhook event, and says whether its id was new.
    pub fn record_webhook_event(&mut self, event_id: &str, event_type: &str) -> (is_new: bool)
        ensures
            is_new == !old(self)@.events.contains(event_id@),
            final(self)@ == stored(
                old(self)@,
                ActionModel::RecordWebhookEvent { event_id: event_id@, event_type: event_type@ },
            ),
    {
        proof {
            use_type_invariant(&*self);
        }
        let ghost known = text::texts(self.events@);
        if text::is_listed(&self.events, event_id) {
            proof {
                assert(known.to_set().contains(event_id@));
                assert(known.to_set().insert(event_id@) =~= known.to_set());
            }
            return false;
        }
        let mut events: Vec<String> = Vec::new();
        std::mem::swap(&mut events, &mut self.events);
        let ghost before = events@;
        events.push(event_id.to_owned());
        proof {
            assert(text::texts(events@) =~= known.push(event_id@));
            assert forall|id: Seq<char>| #[trigger] known.push(event_id@).to_set().contains(id)
                == known.to_set().insert(event_id@).contains(id) by {
                if known.contains(id) {
                    let j = known.index_of(id);
                    assert(known.push(event_id@)[j] == id);
                }
                assert(known.push(event_id@)[known.len() as int] == event_id@);
            }
            assert(known.push(event_id@).to_set() =~= known.to_set().insert(event_id@));
        }
        self.events = events;
        true
    }

    pub fn open_fiat_correlations(&self) -> (list: Vec<Correlation>)
        ensures
            lists_open(self@, worker::rows_of(list@)),
            lists_every_open(self@, worker::rows_of(list@)),
    {
        proof {
            use_type_invariant(self);
            lemma_rows_map(self.rows@);
        }
        let mut list: Vec<Correlation> = Vec::new();
        let ghost mut places: Seq<int> = Seq::empty();
        let mut i: usize = 0;
        while i < self.rows.len()
            invariant
                i <= self.rows@.len(),
                distinct(self.rows@),
                places.len() == list@.len(),
                forall|j: int|
                    0 <= j < places.len() ==> 0 <= #[trigger] places[j] < i && list@[j]
                        == self.rows@[places[j]] && store::is_open(list@[j]@),
                forall|j: int, k: int|
                    0 <= j < k < places.len() ==> #[trigger] places[j] < #[trigger] places[k],
                forall|j: int|
                    0 <= j < i && store::is_open(#[trigger] self.rows@[j]@) ==> places.contains(j),
            decreases self.rows.len() - i,
        {
            if self.rows[i].needs_observation() {
                let ghost before = places;
                list.push(self.rows[i].copy());
                proof {
                    places = places.push(i as int);
                    assert forall|j: int|
                        0 <= j <= i && store::is_open(#[trigger] self.rows@[j]@) implies places.contains(
                        j,
                    ) by {
                        if j < i {
                            let k = before.index_of(j);
                            assert(places[k] == j);
                        } else {
                            assert(places[before.len() as int] == j);
                        }
                    }
                }
            }
            i = i + 1;
        }
        proof {
            let rows = worker::rows_of(list@);
            lemma_rows_map(self.rows@);
            assert forall|j: int| 0 <= j < rows.len() implies store::is_open(#[trigger] rows[j])
                && row_at(self@, rows[j].creator, rows[j].bundle_id) == Some(rows[j]) by {
                assert(list@[j] == self.rows@[places[j]]);
                assert(rows_map(self.rows@).contains_key(row_key(self.rows@[places[j]]@)));
            }
            assert forall|j: int, k: int| 0 <= j < k < rows.len() implies row_key(
                #[trigger] rows[j],
            ) != row_key(#[trigger] rows[k]) by {
                assert(places[j] < places[k]);
                assert(list@[j] == self.rows@[places[j]] && list@[k] == self.rows@[places[k]]);
            }
            assert forall|key: (Seq<char>, Seq<char>)| #[trigger]
                self@.rows.contains_key(key) && store::is_open(
                    self@.rows[key],
                ) implies rows.contains(self@.rows[key]) by {
                let j = choose|j: int|
                    0 <= j < self.rows@.len() && row_key(#[trigger] self.rows@[j]@) == key;
                assert(self@.rows[key] == self.rows@[j]@);
                let k = places.index_of(j);
                assert(list@[k] == self.rows@[places[k]]);
                assert(rows[k] == self.rows@[j]@);
            }
        }
        list
    }

    /// Performs an action on the store and answers it; an action on anything
    /// else is not answered.
    pub fn perform(&mut self, action: &Action) -> (event: Option<Event>)
        ensures
            event is Some <==> is_store_action(action@),
            event matches Some(event) ==> answers(old(self)@, action@, event),
            final(self)@ == stored(old(self)@, action@),
    {
        match action {
            Action::Insert(new) => {
                let copy: NewCorrelation = NewCorrelation {
                    creator: new.creator.clone(),
                    bundle_id: new.bundle_id.clone(),
                    lock_resource: new.lock_resource.clone(),
                    reader: new.reader.clone(),
                    asset: new.asset.clone(),
                    amount_minor: new.amount_minor,
                };
                Some(Event::Inserted(Ok(self.insert_new(copy))))
            },
            Action::Get { creator, bundle_id } => Some(Event::Row(Ok(self.get(creator, bundle_id)))),
            Action::SetSession { creator, bundle_id, session } => {
                let copy: SessionRecord = SessionRecord {
                    processor: session.processor,
                    session_id: session.session_id.clone(),
                    checkout_url: session.checkout_url.clone(),
                    checkout_expires_at: session.checkout_expires_at,
                    session_attempt: session.session_attempt,
                    return_origin: text::copy_text_opt(&session.return_origin),
                };
                Some(Event::SessionSet(Ok(self.set_session(creator, bundle_id, copy))))
            },
            Action::MarkPaid { creator, bundle_id, amount_matched, payment_intent, paid_at } => {
                self.mark_paid(
                    creator,
                    bundle_id,
                    *amount_matched,
                    text::copy_text_opt(payment_intent),
                    *paid_at,
                );
                Some(Event::Marked(Ok(())))
            },
            Action::MarkConfirmed { creator, bundle_id, confirmed_at } => {
                self.mark_confirmed(creator, bundle_id, *confirmed_at);
                Some(Event::Marked(Ok(())))
            },
            Action::MarkReversed { creator, bundle_id } => {
                self.mark_reversed(creator, bundle_id);
                Some(Event::Marked(Ok(())))
            },
            Action::FindByPaymentIntent { reference } => Some(
                Event::Row(Ok(self.find_by_payment_intent(reference))),
            ),
            Action::RecordWebhookEvent { event_id, event_type } => Some(
                Event::Recorded(Ok(self.record_webhook_event(event_id, event_type))),
            ),
            Action::ListOpen => Some(Event::Open(Ok(self.open_fiat_correlations()))),
            _ => None,
        }
    }
}

} // verus!
