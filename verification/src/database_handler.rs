//! The order store: the persistent lifecycle of evaluation records.
//!
//! Records enter with status `New`, one per successfully evaluated upload.
//! Listing returns the active records newest first.  A status change keys on
//! the record's submission timestamp; when the new status is terminal, every
//! terminal-status active record is swept into the archive store in one
//! batch.  The active store therefore never holds a terminal record between
//! operations.

use crate::database_type_conversions::{spec_status_of_str, str_to_status_type};
use crate::global_types::{EvaluationResult, OrderView, StatusType, is_terminal_status};
use crate::text::str_eq;
use vstd::prelude::*;

verus! {

/// The mathematical image of a sequence of records.
pub open spec fn views(s: Seq<EvaluationResult>) -> Seq<OrderView> {
    s.map_values(|r: EvaluationResult| r@)
}

/// The key a status change addresses a record by: the first nineteen
/// characters of the given timestamp text (a trailing zone suffix is
/// ignored), or the whole text when it is shorter.
pub open spec fn order_key(s: Seq<char>) -> Seq<char> {
    if s.len() > 19 {
        s.take(19)
    } else {
        s
    }
}

/// `r` with its status replaced.
pub open spec fn with_status(r: OrderView, st: StatusType) -> OrderView {
    OrderView { status: st, ..r }
}

/// Whether a record's status is terminal.
pub open spec fn terminal_rec(r: OrderView) -> bool {
    is_terminal_status(r.status)
}

/// The index of the first record whose date equals `key`, if any.
pub open spec fn spec_first_match(s: Seq<OrderView>, key: Seq<char>) -> Option<int>
    decreases s.len(),
{
    if s.len() == 0 {
        None
    } else if s[0].date == key {
        Some(0)
    } else {
        match spec_first_match(s.drop_first(), key) {
            Some(i) => Some(i + 1),
            None => None,
        }
    }
}

/// What `spec_first_match` returns: the matching index preceded by no
/// match, or no index when nothing matches.
pub proof fn lemma_first_match_characterization(s: Seq<OrderView>, key: Seq<char>)
    ensures
        match spec_first_match(s, key) {
            Some(i) => 0 <= i < s.len() && s[i].date == key && (forall|j: int|
                0 <= j < i ==> #[trigger] s[j].date != key),
            None => forall|j: int| 0 <= j < s.len() ==> #[trigger] s[j].date != key,
        },
    decreases s.len(),
{
    if s.len() > 0 && s[0].date != key {
        lemma_first_match_characterization(s.drop_first(), key);
        assert forall|j: int| 1 <= j < s.len() implies #[trigger] s[j].date == s.drop_first()[j
            - 1].date by {}
    }
}

/// A witness of a first match determines `spec_first_match`.
pub proof fn lemma_first_match_of_witness(s: Seq<OrderView>, key: Seq<char>, i: int)
    requires
        0 <= i < s.len(),
        s[i].date == key,
        forall|j: int| 0 <= j < i ==> #[trigger] s[j].date != key,
    ensures
        spec_first_match(s, key) == Some(i),
    decreases s.len(),
{
    if i > 0 {
        assert forall|j: int| 0 <= j < i - 1 implies #[trigger] s.drop_first()[j].date != key by {
            assert(s[j + 1].date != key);
        }
        assert(s.drop_first()[i - 1].date == key);
        lemma_first_match_of_witness(s.drop_first(), key, i - 1);
    }
}

/// Filtering a sequence extended by one element keeps the element exactly
/// when it satisfies the predicate.
pub proof fn lemma_filter_push(s: Seq<OrderView>, x: OrderView, pred: spec_fn(OrderView) -> bool)
    ensures
        (s.push(x)).filter(pred) == if pred(x) {
            s.filter(pred).push(x)
        } else {
            s.filter(pred)
        },
{
    reveal(Seq::filter);
    assert(s.push(x).drop_last() =~= s);
    assert(s.push(x).last() == x);
}

/// An error of the order store.
#[derive(Clone, Copy, PartialEq, Eq, Structural, Debug)]
pub enum StoreError {
    /// The store was used before `initialize_db`.
    NotConnected,
    /// A status change named a status outside the closed enumeration.
    UnknownStatus,
}

impl StoreError {
    /// A human-readable description of the error.
    pub fn message(&self) -> (r: &'static str)
        ensures
            *self == StoreError::NotConnected ==> r@ == "Database connection is not initialized"@,
            *self == StoreError::UnknownStatus ==> r@ == "Unknown status type"@,
    {
        match self {
            StoreError::NotConnected => "Database connection is not initialized",
            StoreError::UnknownStatus => "Unknown status type",
        }
    }
}

/// The order store: the active records and the archive, in insertion order.
pub struct OrderStore {
    initialized: bool,
    db_name: String,
    active: Vec<EvaluationResult>,
    archived: Vec<EvaluationResult>,
}

impl OrderStore {
    /// Whether `initialize_db` has run.
    pub closed spec fn is_initialized(self) -> bool {
        self.initialized
    }

    /// The name the store was initialized with.
    pub closed spec fn db_name_view(self) -> Seq<char> {
        self.db_name@
    }

    /// The active records, in insertion order.
    pub closed spec fn active_orders(self) -> Seq<OrderView> {
        views(self.active@)
    }

    /// The archived records, in insertion order.
    pub closed spec fn archived_orders(self) -> Seq<OrderView> {
        views(self.archived@)
    }

    /// The store's invariant: no active record has a terminal status.  Every
    /// operation preserves it, because records enter as `New` and a change
    /// to a terminal status is followed by the archival sweep.
    pub open spec fn wf(self) -> bool {
        forall|j: int|
            0 <= j < self.active_orders().len() ==> !terminal_rec(#[trigger] self.active_orders()[j])
    }

    /// A fresh, not yet initialized store.
    pub fn new() -> (s: OrderStore)
        ensures
            !s.is_initialized(),
            s.active_orders() == Seq::<OrderView>::empty(),
            s.archived_orders() == Seq::<OrderView>::empty(),
            s.wf(),
    {
        let s = OrderStore {
            initialized: false,
            db_name: String::new(),
            active: Vec::new(),
            archived: Vec::new(),
        };
        assert(s.active_orders() =~= Seq::<OrderView>::empty());
        assert(s.archived_orders() =~= Seq::<OrderView>::empty());
        s
    }
}

/// Initializes the store under the given name.  Existing records are kept:
/// initialization opens a store, it does not clear one.
pub fn initialize_db(store: &mut OrderStore, db_name: &str)
    ensures
        final(store).is_initialized(),
        final(store).db_name_view() == db_name@,
        final(store).active_orders() == old(store).active_orders(),
        final(store).archived_orders() == old(store).archived_orders(),
        old(store).wf() ==> final(store).wf(),
{
    store.initialized = true;
    store.db_name = String::from_str(db_name);
}

/// Duplicates the records of `src` in reverse order, newest first.
fn reversed_records(src: &Vec<EvaluationResult>) -> (r: Vec<EvaluationResult>)
    ensures
        views(r@) == views(src@).reverse(),
{
    let n = src.len();
    let mut out: Vec<EvaluationResult> = Vec::new();
    let mut k: usize = 0;
    while k < n
        invariant
            k <= n,
            n == src@.len(),
            views(out@) =~= views(src@).reverse().take(k as int),
        decreases n - k,
    {
        let rec = src[n - 1 - k].duplicate();
        out.push(rec);
        proof {
            assert(views(src@).reverse().take(k + 1) =~= views(src@).reverse().take(k as int).push(
                views(src@).reverse()[k as int]));
            assert(views(src@).reverse()[k as int] == views(src@)[n - 1 - k]);
            assert(views(out@) =~= views(src@).reverse().take(k + 1));
        }
        k += 1;
    }
    proof {
        assert(views(src@).reverse().take(n as int) =~= views(src@).reverse());
    }
    out
}

/// Lists the active orders, newest first.  Fails only on an uninitialized
/// store; the result is a function of the store's state alone.
pub fn read_orders_from_db(store: &OrderStore) -> (r: Result<Vec<EvaluationResult>, StoreError>)
    ensures
        store.is_initialized() ==> (r matches Ok(v) && views(v@)
            == store.active_orders().reverse()),
        !store.is_initialized() ==> r == Err::<Vec<EvaluationResult>, StoreError>(
            StoreError::NotConnected,
        ),
{
    if !store.initialized {
        return Err(StoreError::NotConnected);
    }
    Ok(reversed_records(&store.active))
}

/// Lists the archived orders, newest first.  Fails only on an uninitialized
/// store; the result is a function of the store's state alone.
pub fn read_completed_orders_from_db(store: &OrderStore) -> (r: Result<
    Vec<EvaluationResult>,
    StoreError,
>)
    ensures
        store.is_initialized() ==> (r matches Ok(v) && views(v@)
            == store.archived_orders().reverse()),
        !store.is_initialized() ==> r == Err::<Vec<EvaluationResult>, StoreError>(
            StoreError::NotConnected,
        ),
{
    if !store.initialized {
        return Err(StoreError::NotConnected);
    }
    Ok(reversed_records(&store.archived))
}

/// Appends one evaluation record to the active store.  The record is stored
/// with status `New`, whatever status the argument carries; nothing else
/// changes, and nothing is written on failure.
pub fn add_evaluation_to_db(store: &mut OrderStore, eval_result: &EvaluationResult) -> (r: Result<
    (),
    StoreError,
>)
    ensures
        old(store).is_initialized() ==> r == Ok::<(), StoreError>(()) && final(store).active_orders()
            == old(store).active_orders().push(with_status(eval_result@, StatusType::New)),
        !old(store).is_initialized() ==> r == Err::<(), StoreError>(StoreError::NotConnected)
            && final(store).active_orders() == old(store).active_orders(),
        final(store).archived_orders() == old(store).archived_orders(),
        final(store).is_initialized() == old(store).is_initialized(),
        final(store).db_name_view() == old(store).db_name_view(),
        old(store).wf() ==> final(store).wf(),
{
    if !store.initialized {
        return Err(StoreError::NotConnected);
    }
    let mut rec = eval_result.duplicate();
    rec.status = StatusType::New;
    store.active.push(rec);
    proof {
        assert(views(store.active@) =~= views(old(store).active@).push(
            with_status(eval_result@, StatusType::New)));
        if old(store).wf() {
            assert forall|j: int| 0 <= j < store.active_orders().len() implies !terminal_rec(
                #[trigger] store.active_orders()[j]) by {
                if j < old(store).active_orders().len() {
                    assert(store.active_orders()[j] == old(store).active_orders()[j]);
                } else {
                    assert(store.active_orders()[j] == with_status(
                        eval_result@,
                        StatusType::New,
                    ));
                }
            }
        }
    }
    Ok(())
}

/// Moves every terminal-status active record into the archive, preserving
/// order, and removes it from the active store.  On an uninitialized store
/// nothing changes.
pub fn move_completed_orders_to_archive(store: &mut OrderStore)
    ensures
        old(store).is_initialized() ==> final(store).active_orders() == old(
            store,
        ).active_orders().filter(|r: OrderView| !terminal_rec(r)) && final(store).archived_orders()
            == old(store).archived_orders() + old(store).active_orders().filter(
            |r: OrderView| terminal_rec(r),
        ),
        !old(store).is_initialized() ==> final(store).active_orders() == old(store).active_orders()
            && final(store).archived_orders() == old(store).archived_orders(),
        final(store).is_initialized() == old(store).is_initialized(),
        final(store).db_name_view() == old(store).db_name_view(),
        old(store).is_initialized() || old(store).wf() ==> final(store).wf(),
{
    if !store.initialized {
        return ;
    }
    let n = store.active.len();
    let mut kept: Vec<EvaluationResult> = Vec::new();
    let mut j: usize = 0;
    proof {
        assert(views(store.active@).take(0) =~= Seq::<OrderView>::empty());
    }
    while j < n
        invariant
            j <= n,
            n == store.active@.len(),
            store.active@ == old(store).active@,
            store.initialized == old(store).initialized,
            store.db_name@ == old(store).db_name@,
            views(kept@) =~= views(store.active@).take(j as int).filter(
                |r: OrderView| !terminal_rec(r),
            ),
            views(store.archived@) =~= views(old(store).archived@) + views(store.active@).take(
                j as int,
            ).filter(|r: OrderView| terminal_rec(r)),
        decreases n - j,
    {
        let rec = store.active[j].duplicate();
        let ghost prefix = views(store.active@).take(j as int);
        let ghost v = views(store.active@)[j as int];
        proof {
            assert(views(store.active@).take(j + 1) =~= prefix.push(v));
            lemma_filter_push(prefix, v, |r: OrderView| !terminal_rec(r));
            lemma_filter_push(prefix, v, |r: OrderView| terminal_rec(r));
        }
        proof {
            assert(v == store.active@[j as int]@);
        }
        if rec.status.is_terminal() {
            let ghost archived_before = store.archived@;
            let ghost rv = rec@;
            store.archived.push(rec);
            proof {
                let tpred = |r: OrderView| terminal_rec(r);
                assert(terminal_rec(v));
                assert(views(store.active@).take(j + 1).filter(tpred) == prefix.filter(
                    tpred,
                ).push(v));
                assert(views(store.archived@) =~= views(archived_before).push(rv));
                assert(views(store.archived@) =~= views(old(store).archived@) + views(
                    store.active@,
                ).take(j + 1).filter(|r: OrderView| terminal_rec(r)));
            }
        } else {
            kept.push(rec);
            proof {
                assert(views(kept@) =~= views(store.active@).take(j + 1).filter(
                    |r: OrderView| !terminal_rec(r)));
            }
        }
        j += 1;
    }
    proof {
        assert(views(store.active@).take(n as int) =~= views(store.active@));
    }
    store.active = kept;
    proof {
        let pred = |r: OrderView| !terminal_rec(r);
        let filtered = views(old(store).active@).filter(pred);
        assert forall|i: int|
            0 <= i < store.active_orders().len() implies !terminal_rec(
            #[trigger] store.active_orders()[i]) by {
            views(old(store).active@).lemma_filter_pred(pred, i);
            assert(pred(filtered[i]));
        }
    }
}

/// Sets the status of the first active record whose date matches the given
/// timestamp key.  A well-formed but unmatched key updates nothing and still
/// succeeds.  When the new status is terminal, the archival sweep then moves
/// every terminal-status active record into the archive.
pub fn modify_order_in_database(store: &mut OrderStore, datetime: &str, new_status: &str) -> (r:
    Result<(), StoreError>)
    ensures
        !old(store).is_initialized() ==> r == Err::<(), StoreError>(StoreError::NotConnected)
            && *final(store) == *old(store),
        old(store).is_initialized() ==> match spec_status_of_str(new_status@) {
            None => r == Err::<(), StoreError>(StoreError::UnknownStatus) && *final(store) == *old(
                store,
            ),
            Some(st) => {
                let updated = match spec_first_match(
                    old(store).active_orders(),
                    order_key(datetime@),
                ) {
                    Some(i) => old(store).active_orders().update(
                        i,
                        with_status(old(store).active_orders()[i], st),
                    ),
                    None => old(store).active_orders(),
                };
                r == Ok::<(), StoreError>(()) && if is_terminal_status(st) {
                    final(store).active_orders() == updated.filter(|x: OrderView| !terminal_rec(x))
                        && final(store).archived_orders() == old(store).archived_orders()
                        + updated.filter(|x: OrderView| terminal_rec(x))
                } else {
                    final(store).active_orders() == updated && final(store).archived_orders()
                        == old(store).archived_orders()
                }
            },
        },
        final(store).is_initialized() == old(store).is_initialized(),
        final(store).db_name_view() == old(store).db_name_view(),
        old(store).wf() ==> final(store).wf(),
{
    if !store.initialized {
        return Err(StoreError::NotConnected);
    }
    let st = match str_to_status_type(new_status) {
        Ok(s) => s,
        Err(_) => {
            return Err(StoreError::UnknownStatus);
        },
    };
    let key: &str = if datetime.unicode_len() > 19 {
        datetime.substring_char(0, 19)
    } else {
        datetime
    };
    assert(key@ == order_key(datetime@));

    let n = store.active.len();
    let mut idx: usize = 0;
    let mut found = false;
    while idx < n && !found
        invariant
            idx <= n,
            n == store.active@.len(),
            key@ == order_key(datetime@),
            found ==> idx < n && views(store.active@)[idx as int].date == key@,
            forall|j: int|
                0 <= j < idx ==> #[trigger] views(store.active@)[j].date != key@,
        decreases n - idx, if found { 0int } else { 1int },
    {
        if str_eq(store.active[idx].date.as_str(), key) {
            found = true;
        } else {
            idx += 1;
        }
    }
    proof {
        if found {
            lemma_first_match_of_witness(views(store.active@), key@, idx as int);
        } else {
            lemma_first_match_characterization(views(store.active@), key@);
            match spec_first_match(views(store.active@), key@) {
                Some(i) => {
                    assert(views(store.active@)[i].date != key@);
                },
                None => {},
            }
        }
    }
    if found {
        let mut rec = store.active[idx].duplicate();
        rec.status = st;
        set_record(&mut store.active, idx, rec);
        proof {
            let ghost stv = st;
            assert(views(store.active@) =~= views(old(store).active@).update(
                idx as int,
                with_status(views(old(store).active@)[idx as int], stv)));
        }
    }
    if st.is_terminal() {
        move_completed_orders_to_archive(store);
    }
    Ok(())
}

/// Replaces the element at `i`.
fn set_record(v: &mut Vec<EvaluationResult>, i: usize, rec: EvaluationResult)
    requires
        i < old(v)@.len(),
    ensures
        final(v)@.len() == old(v)@.len(),
        views(final(v)@) == views(old(v)@).update(i as int, rec@),
{
    let n = v.len();
    let mut out: Vec<EvaluationResult> = Vec::new();
    let mut j: usize = 0;
    while j < n
        invariant
            j <= n,
            n == old(v)@.len(),
            v@ == old(v)@,
            i < n,
            out@.len() == j as int,
            views(out@) =~= views(old(v)@).update(i as int, rec@).take(j as int),
        decreases n - j,
    {
        if j == i {
            let x = rec.duplicate();
            out.push(x);
        } else {
            let d = v[j].duplicate();
            out.push(d);
        }
        proof {
            let whole = views(old(v)@).update(i as int, rec@);
            assert(whole.take(j + 1) =~= whole.take(j as int).push(whole[j as int]));
            assert(views(out@) =~= whole.take(j + 1));
        }
        j += 1;
    }
    proof {
        assert(views(old(v)@).update(i as int, rec@).take(n as int) =~= views(old(v)@).update(
            i as int,
            rec@,
        ));
    }
    *v = out;
}

/// A sequence every element of which satisfies the predicate filters to
/// itself.
pub proof fn lemma_filter_all(s: Seq<OrderView>, pred: spec_fn(OrderView) -> bool)
    requires
        forall|j: int| 0 <= j < s.len() ==> pred(#[trigger] s[j]),
    ensures
        s.filter(pred) == s,
    decreases s.len(),
{
    reveal(Seq::filter);
    if s.len() > 0 {
        lemma_filter_all(s.drop_last(), pred);
        assert(s.drop_last().push(s.last()) =~= s);
    }
}

/// A sequence no element of which satisfies the predicate filters to the
/// empty sequence.
pub proof fn lemma_filter_none(s: Seq<OrderView>, pred: spec_fn(OrderView) -> bool)
    requires
        forall|j: int| 0 <= j < s.len() ==> !pred(#[trigger] s[j]),
    ensures
        s.filter(pred) == Seq::<OrderView>::empty(),
    decreases s.len(),
{
    reveal(Seq::filter);
    if s.len() > 0 {
        lemma_filter_none(s.drop_last(), pred);
    }
}

/// Advancing one active record to a terminal status archives it exactly
/// once.  On a well-formed active store (no terminal records), updating the
/// record at `i` to a terminal status and sweeping leaves the active store
/// equal to the old one with that record removed, and extends the archive by
/// exactly that one record: no duplication, no loss.  Together with the
/// contract of `modify_order_in_database` this describes the store after a
/// completed or canceled order is advanced.
pub proof fn lemma_terminal_advance_archives_exactly_once(s: Seq<OrderView>, i: int, st: StatusType)
    requires
        0 <= i < s.len(),
        is_terminal_status(st),
        forall|j: int| 0 <= j < s.len() ==> !terminal_rec(#[trigger] s[j]),
    ensures
        s.update(i, with_status(s[i], st)).filter(|r: OrderView| terminal_rec(r)) == seq![
            with_status(s[i], st),
        ],
        s.update(i, with_status(s[i], st)).filter(|r: OrderView| !terminal_rec(r)) == s.remove(i),
    decreases s.len(),
{
    reveal(Seq::filter);
    let x = with_status(s[i], st);
    let u = s.update(i, x);
    assert(u.len() == s.len());
    if i == s.len() - 1 {
        assert(u.drop_last() =~= s.drop_last());
        assert(u.last() == x);
        lemma_filter_none(s.drop_last(), |r: OrderView| terminal_rec(r));
        lemma_filter_all(s.drop_last(), |r: OrderView| !terminal_rec(r));
        assert(u.filter(|r: OrderView| terminal_rec(r)) =~= seq![x]);
        assert(s.remove(i) =~= s.drop_last());
        assert(u.filter(|r: OrderView| !terminal_rec(r)) =~= s.remove(i));
    } else {
        assert(u.drop_last() =~= s.drop_last().update(i, with_status(s.drop_last()[i], st)));
        assert(u.last() == s.last());
        assert(!terminal_rec(u.last()));
        lemma_terminal_advance_archives_exactly_once(s.drop_last(), i, st);
        assert(u.filter(|r: OrderView| terminal_rec(r)) =~= seq![x]);
        assert(s.drop_last().remove(i).push(s.last()) =~= s.remove(i));
        assert(u.filter(|r: OrderView| !terminal_rec(r)) =~= s.remove(i));
    }
}

/// Listing the active orders is a function of the store's state alone: two
/// listings with no write between them return identical results.
pub proof fn lemma_read_orders_idempotent(
    store: OrderStore,
    r1: Seq<OrderView>,
    r2: Seq<OrderView>,
)
    requires
        r1 == store.active_orders().reverse(),
        r2 == store.active_orders().reverse(),
    ensures
        r1 == r2,
{
}

/// A stand-in store whose operations succeed without keeping anything.
pub struct DatabaseMockImpl {}

impl DatabaseMockImpl {
    /// Accepts any name and does nothing.
    pub fn initialize_db(&self, _db_name: &str) -> (r: Result<(), StoreError>)
        ensures
            r == Ok::<(), StoreError>(()),
    {
        Ok(())
    }

    /// Always the empty listing.
    pub fn read_orders_from_db(&self) -> (r: Result<Vec<EvaluationResult>, StoreError>)
        ensures
            r matches Ok(v) && v@.len() == 0,
    {
        let orders = Vec::new();
        Ok(orders)
    }

    /// Accepts any record and drops it.
    pub fn add_evaluation_to_db(&self, _eval_result: &EvaluationResult) -> (r: Result<
        (),
        StoreError,
    >)
        ensures
            r == Ok::<(), StoreError>(()),
    {
        Ok(())
    }

    /// Accepts any change and does nothing.
    pub fn modify_order_in_database(&self, _datetime: &str, _new_status: &str) -> (r: Result<
        (),
        StoreError,
    >)
        ensures
            r == Ok::<(), StoreError>(()),
    {
        Ok(())
    }

    /// Always the empty listing.
    pub fn read_completed_orders_from_db(&self) -> (r: Result<Vec<EvaluationResult>, StoreError>)
        ensures
            r matches Ok(v) && v@.len() == 0,
    {
        let orders = Vec::new();
        Ok(orders)
    }
}

} // verus!
