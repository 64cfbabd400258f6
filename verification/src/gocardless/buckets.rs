//! The buckets and the order in which an account's transactions are written.

use crate::calendar::{
    day_number, day_numbers_are_in_order, format_year_month, timestamp_order_is_total,
    year_month_text, Date, Timestamp,
};
use crate::gocardless::transactions::{NoLocalMidnight, Transaction, Transactions};
use crate::text::{
    opt_as_str, opt_str_before, opt_str_text, opt_text, opt_text_before, opt_text_order_is_total,
};
use vstd::multiset::Multiset;
use vstd::prelude::*;
use vstd::string::StringExecFns;

verus! {

/// A transaction together with the list it was returned in.
#[derive(Debug)]
pub enum TransactionWithStatus {
    Pending(Transaction),
    Booked(Transaction),
}

impl TransactionWithStatus {
    /// The transaction, whichever list it came from.
    pub open spec fn transaction(self) -> Transaction {
        match self {
            TransactionWithStatus::Pending(t) => t,
            TransactionWithStatus::Booked(t) => t,
        }
    }

    /// Whether the transaction's dates and instants are well formed.
    pub open spec fn wf(self) -> bool {
        self.transaction().wf()
    }

    /// The transaction, whichever list it came from.
    pub fn get(&self) -> (r: &Transaction)
        ensures
            *r == self.transaction(),
    {
        match self {
            TransactionWithStatus::Pending(t) => t,
            TransactionWithStatus::Booked(t) => t,
        }
    }

    /// The instant that stands for the transaction; see
    /// [`Transaction::timestamp_best_effort`].
    pub fn timestamp_best_effort(&self, zone: &tzfile::Tz) -> (r: Result<
        Option<Timestamp>,
        NoLocalMidnight,
    >)
        ensures
            r == self.transaction().timestamp_in(*zone),
            r matches Ok(t) ==> self.transaction().admits_timestamp(t),
    {
        self.get().timestamp_best_effort(zone)
    }

    /// The provider's identifier of the transaction, if it gave one.
    pub fn transaction_id(&self) -> (r: Option<&str>)
        ensures
            opt_str_text(r) == opt_text(self.transaction().transaction_id),
    {
        opt_as_str(&self.get().transaction_id)
    }

    /// The bank's own identifier of the transaction, if it gave one.
    pub fn internal_transaction_id(&self) -> (r: Option<&str>)
        ensures
            opt_str_text(r) == opt_text(self.transaction().internal_transaction_id),
    {
        opt_as_str(&self.get().internal_transaction_id)
    }
}

/// A tagged transaction with the instant it is ordered by.
#[derive(Debug)]
pub struct Stamped {
    pub entry: TransactionWithStatus,
    pub timestamp: Option<Timestamp>,
}

/// Whether `a` is written before `b` when both stand in one bucket.
///
/// Where both have an instant and the instants differ, the earlier one comes
/// first. Otherwise the transaction identifiers decide, an absent one before
/// any present one; where these are equal too, the internal identifiers
/// decide in the same way.
pub open spec fn sorts_before(a: Stamped, b: Stamped) -> bool {
    let timed = a.timestamp is Some && b.timestamp is Some;
    let a_id = opt_text(a.entry.transaction().transaction_id);
    let b_id = opt_text(b.entry.transaction().transaction_id);
    let a_own = opt_text(a.entry.transaction().internal_transaction_id);
    let b_own = opt_text(b.entry.transaction().internal_transaction_id);
    if timed && a.timestamp->0.before(b.timestamp->0) {
        true
    } else if timed && b.timestamp->0.before(a.timestamp->0) {
        false
    } else if opt_text_before(a_id, b_id) {
        true
    } else if opt_text_before(b_id, a_id) {
        false
    } else {
        opt_text_before(a_own, b_own)
    }
}

/// Whether `a` is written before `b` when both stand in one bucket.
pub fn comes_before(a: &Stamped, b: &Stamped) -> (r: bool)
    ensures
        r == sorts_before(*a, *b),
{
    if let (Some(left), Some(right)) = (a.timestamp, b.timestamp) {
        if left.is_before(&right) {
            return true;
        }
        if right.is_before(&left) {
            return false;
        }
    }
    let a_id = a.entry.transaction_id();
    let b_id = b.entry.transaction_id();
    if opt_str_before(a_id, b_id) {
        return true;
    }
    if opt_str_before(b_id, a_id) {
        return false;
    }
    opt_str_before(a.entry.internal_transaction_id(), b.entry.internal_transaction_id())
}

/// `s` with `x` put in front of the first element that does not sort before `x`.
pub open spec fn insert_in_order(x: Stamped, s: Seq<Stamped>) -> Seq<Stamped>
    decreases s.len(),
{
    if s.len() == 0 {
        seq![x]
    } else if sorts_before(s[0], x) {
        seq![s[0]] + insert_in_order(x, s.drop_first())
    } else {
        seq![x] + s
    }
}

/// The order in which the entries of one bucket are written: each entry, from
/// the last to the first, is put into the ordered rest in front of the first
/// element that does not sort before it. Entries that [`sorts_before`] does
/// not tell apart keep the order in which they were given.
pub open spec fn in_order(s: Seq<Stamped>) -> Seq<Stamped>
    decreases s.len(),
{
    if s.len() == 0 {
        s
    } else {
        insert_in_order(s[0], in_order(s.drop_first()))
    }
}

/// Whether no entry of `s` stands directly behind one that it sorts before.
pub open spec fn neighbours_in_order(s: Seq<Stamped>) -> bool {
    forall|i: int| 0 <= i < s.len() - 1 ==> !sorts_before(#[trigger] s[i + 1], s[i])
}

/// Whether no entry of `s` stands anywhere behind one that it sorts before.
pub open spec fn all_in_order(s: Seq<Stamped>) -> bool {
    forall|i: int, j: int| 0 <= i < j < s.len() ==> !sorts_before(#[trigger] s[j], #[trigger] s[i])
}

/// Whether the entries of `s` all have an instant, or all have none.
pub open spec fn evenly_timed(s: Seq<Stamped>) -> bool {
    ||| forall|i: int| 0 <= i < s.len() ==> (#[trigger] s[i]).timestamp is Some
    ||| forall|i: int| 0 <= i < s.len() ==> (#[trigger] s[i]).timestamp is None
}

/// Whether `a` and `b` have the same instant and the same two identifiers,
/// so that [`sorts_before`] treats them alike against every entry.
pub open spec fn same_keys(a: Stamped, b: Stamped) -> bool {
    &&& a.timestamp == b.timestamp
    &&& opt_text(a.entry.transaction().transaction_id) == opt_text(
        b.entry.transaction().transaction_id,
    )
    &&& opt_text(a.entry.transaction().internal_transaction_id) == opt_text(
        b.entry.transaction().internal_transaction_id,
    )
}

/// No entry sorts before itself, and of two entries at most one sorts before
/// the other.
pub proof fn sorts_before_is_strict(a: Stamped, b: Stamped)
    ensures
        !sorts_before(a, a),
        sorts_before(a, b) ==> !sorts_before(b, a),
        same_keys(a, b) ==> !sorts_before(a, b),
{
    let a_id = opt_text(a.entry.transaction().transaction_id);
    let b_id = opt_text(b.entry.transaction().transaction_id);
    let a_own = opt_text(a.entry.transaction().internal_transaction_id);
    let b_own = opt_text(b.entry.transaction().internal_transaction_id);
    opt_text_order_is_total(a_id, b_id, a_id);
    opt_text_order_is_total(a_own, b_own, a_own);
    if a.timestamp is Some && b.timestamp is Some {
        timestamp_order_is_total(a.timestamp->0, b.timestamp->0, a.timestamp->0);
    }
}

/// Among entries that all have an instant, or all have none, the order is
/// transitive, and so is its complement: an entry that sorts before neither
/// of two others lets them be compared through it.
pub proof fn sorts_before_is_transitive(a: Stamped, b: Stamped, c: Stamped)
    requires
        evenly_timed(seq![a, b, c]),
    ensures
        sorts_before(a, b) && sorts_before(b, c) ==> sorts_before(a, c),
        !sorts_before(a, b) && !sorts_before(b, c) ==> !sorts_before(a, c),
{
    let s = seq![a, b, c];
    assert(s[0] == a && s[1] == b && s[2] == c);
    let a_id = opt_text(a.entry.transaction().transaction_id);
    let b_id = opt_text(b.entry.transaction().transaction_id);
    let c_id = opt_text(c.entry.transaction().transaction_id);
    let a_own = opt_text(a.entry.transaction().internal_transaction_id);
    let b_own = opt_text(b.entry.transaction().internal_transaction_id);
    let c_own = opt_text(c.entry.transaction().internal_transaction_id);
    opt_text_order_is_total(a_id, b_id, c_id);
    opt_text_order_is_total(b_id, c_id, a_id);
    opt_text_order_is_total(c_id, a_id, b_id);
    opt_text_order_is_total(a_id, c_id, b_id);
    opt_text_order_is_total(c_id, b_id, a_id);
    opt_text_order_is_total(b_id, a_id, c_id);
    opt_text_order_is_total(a_own, b_own, c_own);
    opt_text_order_is_total(b_own, c_own, a_own);
    opt_text_order_is_total(c_own, a_own, b_own);
    opt_text_order_is_total(a_own, c_own, b_own);
    opt_text_order_is_total(c_own, b_own, a_own);
    opt_text_order_is_total(b_own, a_own, c_own);
    if a.timestamp is Some && b.timestamp is Some && c.timestamp is Some {
        let (x, y, z) = (a.timestamp->0, b.timestamp->0, c.timestamp->0);
        timestamp_order_is_total(x, y, z);
        timestamp_order_is_total(y, z, x);
        timestamp_order_is_total(z, x, y);
        timestamp_order_is_total(x, z, y);
        timestamp_order_is_total(z, y, x);
        timestamp_order_is_total(y, x, z);
    }
}

/// Where [`insert_in_order`] puts `x`: behind every element in front of that
/// place, each of which sorts before `x`, and in front of one that does not.
pub proof fn insert_position(x: Stamped, s: Seq<Stamped>) -> (p: int)
    ensures
        0 <= p <= s.len(),
        forall|j: int| 0 <= j < p ==> sorts_before(#[trigger] s[j], x),
        p < s.len() ==> !sorts_before(s[p], x),
        insert_in_order(x, s) == s.insert(p, x),
    decreases s.len(),
{
    if s.len() == 0 || !sorts_before(s[0], x) {
        insert_lands_at(x, s, 0);
        0
    } else {
        let rest = s.drop_first();
        let q = insert_position(x, rest);
        assert forall|j: int| 0 <= j < q + 1 implies sorts_before(#[trigger] s[j], x) by {
            if j > 0 {
                assert(s[j] == rest[j - 1]);
            }
        }
        if q + 1 < s.len() {
            assert(s[q + 1] == rest[q]);
        }
        insert_lands_at(x, s, q + 1);
        q + 1
    }
}

/// Ordering a bucket neither drops nor adds nor changes an entry: the
/// result holds the same entries, each as often as the input does.
pub proof fn ordering_keeps_entries(s: Seq<Stamped>)
    ensures
        in_order(s).to_multiset() == s.to_multiset(),
        in_order(s).len() == s.len(),
    decreases s.len(),
{
    if s.len() > 0 {
        let rest = s.drop_first();
        ordering_keeps_entries(rest);
        let p = insert_position(s[0], in_order(rest));
        vstd::seq_lib::to_multiset_insert(in_order(rest), p, s[0]);
        vstd::seq_lib::to_multiset_insert(rest, 0, s[0]);
        assert(rest.insert(0, s[0]) =~= s);
    }
}

/// In an ordered bucket no entry stands directly behind one that it sorts
/// before. This holds of every input, also where some entries have an
/// instant and others have none.
pub proof fn ordering_puts_neighbours_in_order(s: Seq<Stamped>)
    ensures
        neighbours_in_order(in_order(s)),
    decreases s.len(),
{
    if s.len() > 0 {
        let rest = s.drop_first();
        ordering_puts_neighbours_in_order(rest);
        let t = in_order(rest);
        let x = s[0];
        let p = insert_position(x, t);
        let out = t.insert(p, x);
        assert forall|i: int| 0 <= i < out.len() - 1 implies !sorts_before(
            #[trigger] out[i + 1],
            out[i],
        ) by {
            if i + 1 < p {
                assert(out[i + 1] == t[i + 1] && out[i] == t[i]);
            } else if i + 1 == p {
                sorts_before_is_strict(t[i], x);
            } else if i == p {
                assert(out[i + 1] == t[p]);
            } else {
                assert(out[i + 1] == t[i] && out[i] == t[i - 1]);
                assert(t[i] == t[(i - 1) + 1]);
            }
        }
    }
}

/// The test for having the instant and the identifiers of `k`.
pub open spec fn keyed_like(k: Stamped) -> spec_fn(Stamped) -> bool {
    |e: Stamped| same_keys(e, k)
}

/// A test that no element passes leaves nothing.
proof fn filter_of_none(s: Seq<Stamped>, f: spec_fn(Stamped) -> bool)
    requires
        forall|i: int| 0 <= i < s.len() ==> !f(#[trigger] s[i]),
    ensures
        s.filter(f) == Seq::<Stamped>::empty(),
    decreases s.len(),
{
    reveal(Seq::filter);
    if s.len() > 0 {
        let front = s.drop_last();
        assert forall|i: int| 0 <= i < front.len() implies !f(#[trigger] front[i]) by {
            assert(front[i] == s[i]);
        }
        filter_of_none(front, f);
    }
}

/// Ordering is stable: entries with the same instant and the same
/// identifiers come out in the order in which they went in. This holds of
/// every input.
pub proof fn ordering_is_stable(s: Seq<Stamped>, k: Stamped)
    ensures
        in_order(s).filter(keyed_like(k)) == s.filter(keyed_like(k)),
    decreases s.len(),
{
    let f = keyed_like(k);
    if s.len() > 0 {
        let rest = s.drop_first();
        let x = s[0];
        ordering_is_stable(rest, k);
        let t = in_order(rest);
        let p = insert_position(x, t);
        let front = t.take(p);
        let back = t.skip(p);
        assert(t.insert(p, x) =~= front + (seq![x] + back));
        assert(t =~= front + back);
        assert(s =~= seq![x] + rest);
        Seq::filter_distributes_over_add(front, seq![x] + back, f);
        Seq::filter_distributes_over_add(front, back, f);
        back.lemma_filter_prepend(x, f);
        rest.lemma_filter_prepend(x, f);
        if f(x) {
            assert forall|i: int| 0 <= i < front.len() implies !f(#[trigger] front[i]) by {
                assert(front[i] == t[i]);
                sorts_before_is_strict(t[i], x);
            }
            filter_of_none(front, f);
            assert(Seq::<Stamped>::empty() + (seq![x] + back.filter(f)) =~= seq![x] + (
            Seq::<Stamped>::empty() + back.filter(f)));
        } else {
            assert(Seq::<Stamped>::empty() + back.filter(f) =~= back.filter(f));
        }
    }
}

/// Ordering keeps the entries all with an instant, or all without one.
proof fn ordering_keeps_timing(s: Seq<Stamped>)
    requires
        evenly_timed(s),
    ensures
        evenly_timed(in_order(s)),
        forall|i: int, j: int|
            0 <= i < s.len() && 0 <= j < s.len() ==> ((#[trigger] in_order(s)[i]).timestamp is Some
                <==> (#[trigger] s[j]).timestamp is Some),
    decreases s.len(),
{
    ordering_keeps_entries(s);
    if s.len() > 0 {
        let rest = s.drop_first();
        assert forall|i: int| 0 <= i < rest.len() implies ((#[trigger] rest[i]).timestamp is Some
            <==> s[0].timestamp is Some) by {
            assert(rest[i] == s[i + 1]);
        }
        ordering_keeps_timing(rest);
        ordering_keeps_entries(rest);
        let t = in_order(rest);
        let p = insert_position(s[0], t);
        let out = t.insert(p, s[0]);
        assert forall|i: int| 0 <= i < out.len() implies ((#[trigger] out[i]).timestamp is Some
            <==> s[0].timestamp is Some) by {
            if i < p {
                assert(out[i] == t[i]);
                if rest.len() > 0 {
                    assert(rest[0] == s[1]);
                }
            } else if i > p {
                assert(out[i] == t[i - 1]);
                if rest.len() > 0 {
                    assert(rest[0] == s[1]);
                }
            }
        }
    }
}

/// Where the entries all have an instant, or all have none, an ordered
/// bucket is sorted throughout: no entry stands anywhere behind one that it
/// sorts before.
pub proof fn ordering_sorts_evenly_timed(s: Seq<Stamped>)
    requires
        evenly_timed(s),
    ensures
        all_in_order(in_order(s)),
    decreases s.len(),
{
    if s.len() > 0 {
        let rest = s.drop_first();
        assert forall|i: int| 0 <= i < rest.len() implies ((#[trigger] rest[i]).timestamp is Some
            <==> s[0].timestamp is Some) by {
            assert(rest[i] == s[i + 1]);
        }
        ordering_sorts_evenly_timed(rest);
        ordering_keeps_timing(rest);
        ordering_keeps_entries(rest);
        let t = in_order(rest);
        let x = s[0];
        let p = insert_position(x, t);
        let out = t.insert(p, x);
        assert forall|k: int| 0 <= k < t.len() implies ((#[trigger] t[k]).timestamp is Some
            <==> x.timestamp is Some) by {
            assert(rest[0] == s[1]);
        }
        assert forall|i: int, j: int| 0 <= i < j < out.len() implies !sorts_before(
            #[trigger] out[j],
            #[trigger] out[i],
        ) by {
            if j < p {
                assert(out[j] == t[j] && out[i] == t[i]);
            } else if j == p {
                sorts_before_is_strict(t[i], x);
            } else if i == p {
                // x does not come after t[p], which does not come after t[j - 1]
                assert(out[j] == t[j - 1]);
                if j - 1 > p {
                    assert(evenly_timed(seq![t[j - 1], t[p], x])) by {
                        let w = seq![t[j - 1], t[p], x];
                        assert(w[0] == t[j - 1] && w[1] == t[p] && w[2] == x);
                    }
                    sorts_before_is_transitive(t[j - 1], t[p], x);
                }
            } else if i < p {
                assert(out[j] == t[j - 1] && out[i] == t[i]);
            } else {
                assert(out[j] == t[j - 1] && out[i] == t[i - 1]);
            }
        }
    }
}

/// An element is put at the place in front of which every element sorts
/// before it, and at which the element does not.
proof fn insert_lands_at(x: Stamped, s: Seq<Stamped>, p: int)
    requires
        0 <= p <= s.len(),
        forall|j: int| 0 <= j < p ==> sorts_before(#[trigger] s[j], x),
        p < s.len() ==> !sorts_before(s[p], x),
    ensures
        insert_in_order(x, s) == s.insert(p, x),
    decreases s.len(),
{
    if s.len() == 0 {
        assert(s.insert(p, x) =~= seq![x]);
    } else if p == 0 {
        assert(s.insert(0, x) =~= seq![x] + s);
    } else {
        let rest = s.drop_first();
        assert forall|j: int| 0 <= j < p - 1 implies sorts_before(#[trigger] rest[j], x) by {
            assert(rest[j] == s[j + 1]);
        }
        insert_lands_at(x, rest, p - 1);
        assert(s.insert(p, x) =~= seq![s[0]] + rest.insert(p - 1, x));
    }
}

/// Puts the entries of one bucket into the order in which they are written.
pub fn sort_entries(entries: Vec<Stamped>) -> (r: Vec<Stamped>)
    ensures
        r@ == in_order(entries@),
{
    let ghost all = entries@;
    let mut rest = entries;
    let mut out: Vec<Stamped> = Vec::new();
    assert(all.skip(all.len() as int) =~= Seq::<Stamped>::empty());
    while rest.len() > 0
        invariant
            rest@ == all.take(rest.len() as int),
            rest.len() <= all.len(),
            out@ == in_order(all.skip(rest.len() as int)),
        decreases rest.len(),
    {
        let ghost k = rest.len() as int;
        let x = rest.pop().unwrap();
        let mut p: usize = 0;
        while p < out.len() && comes_before(&out[p], &x)
            invariant
                p <= out.len(),
                forall|j: int| 0 <= j < p ==> sorts_before(#[trigger] out@[j], x),
            decreases out.len() - p,
        {
            p += 1;
        }
        proof {
            insert_lands_at(x, out@, p as int);
            assert(all.skip(k - 1).drop_first() =~= all.skip(k));
            assert(all.skip(k - 1)[0] == x);
            assert(rest@ =~= all.take(k - 1));
        }
        out.insert(p, x);
    }
    assert(all.skip(0) =~= all);
    out
}

/// The entries of one output file: those of one calendar month, or those
/// without a date.
#[derive(Debug)]
pub struct Bucket {
    /// The first day of the month, or `None` for the entries without a date.
    pub month: Option<Date>,
    pub entries: Vec<Stamped>,
}

/// The bucket an entry belongs to: the first day of the month of its
/// transaction's date, or `None` where the transaction has no date.
pub open spec fn bucket_month(e: Stamped) -> Option<Date> {
    match e.entry.transaction().best_effort_date() {
        Some(d) => Some(d.month_start()),
        None => None,
    }
}

/// The test for belonging to the bucket `month`.
pub open spec fn month_is(month: Option<Date>) -> spec_fn(Stamped) -> bool {
    |e: Stamped| bucket_month(e) == month
}

/// The entries of `s` that belong to the bucket `month`, in the order of `s`.
pub open spec fn in_month(s: Seq<Stamped>, month: Option<Date>) -> Seq<Stamped> {
    s.filter(month_is(month))
}

/// The buckets that the entries of `s` fall into, each once, in the order in
/// which `s` first reaches them.
pub open spec fn months_of(s: Seq<Stamped>) -> Seq<Option<Date>>
    decreases s.len(),
{
    if s.len() == 0 {
        Seq::empty()
    } else {
        let earlier = months_of(s.drop_last());
        let month = bucket_month(s.last());
        if earlier.contains(month) {
            earlier
        } else {
            earlier.push(month)
        }
    }
}

/// Whether `buckets` are the entries of `s` grouped by month: one bucket for
/// each month of [`months_of`], in that order, holding the entries of that
/// month in the order of `s`.
pub open spec fn grouped(buckets: Seq<Bucket>, s: Seq<Stamped>) -> bool {
    &&& buckets.len() == months_of(s).len()
    &&& forall|i: int|
        0 <= i < buckets.len() ==> {
            &&& (#[trigger] buckets[i]).month == months_of(s)[i]
            &&& buckets[i].entries@ == in_month(s, months_of(s)[i])
        }
}

/// Whether `buckets` are the entries of `s` grouped by month, each bucket in
/// the order in which it is written.
pub open spec fn bucketed(buckets: Seq<Bucket>, s: Seq<Stamped>) -> bool {
    &&& buckets.len() == months_of(s).len()
    &&& forall|i: int|
        0 <= i < buckets.len() ==> {
            &&& (#[trigger] buckets[i]).month == months_of(s)[i]
            &&& buckets[i].entries@ == in_order(in_month(s, months_of(s)[i]))
        }
}

/// No bucket occurs twice among the buckets of `s`, and the bucket of every
/// entry of `s` is among them.
pub proof fn months_are_distinct(s: Seq<Stamped>)
    ensures
        forall|i: int, j: int|
            0 <= i < j < months_of(s).len() ==> months_of(s)[i] != months_of(s)[j],
        forall|k: int| 0 <= k < s.len() ==> months_of(s).contains(bucket_month(#[trigger] s[k])),
    decreases s.len(),
{
    if s.len() > 0 {
        let front = s.drop_last();
        months_are_distinct(front);
        let earlier = months_of(front);
        let month = bucket_month(s.last());
        assert forall|k: int| 0 <= k < s.len() implies months_of(s).contains(
            bucket_month(#[trigger] s[k]),
        ) by {
            if k < s.len() - 1 {
                assert(front[k] == s[k]);
                let w = choose|w: int| 0 <= w < earlier.len() && earlier[w] == bucket_month(s[k]);
                assert(months_of(s)[w] == bucket_month(s[k]));
            } else if earlier.contains(month) {
            } else {
                assert(months_of(s)[earlier.len() as int] == month);
            }
        }
    }
}

/// A bucket that is not among the buckets of `s` holds no entry of `s`.
pub proof fn unseen_month_is_empty(s: Seq<Stamped>, month: Option<Date>)
    requires
        !months_of(s).contains(month),
    ensures
        in_month(s, month) == Seq::<Stamped>::empty(),
    decreases s.len(),
{
    reveal(Seq::filter);
    if s.len() > 0 {
        let front = s.drop_last();
        let earlier = months_of(front);
        if earlier.contains(month) {
            let w = choose|w: int| 0 <= w < earlier.len() && earlier[w] == month;
            assert(months_of(s)[w] == month);
        }
        if bucket_month(s.last()) == month {
            if earlier.contains(month) {
            } else {
                assert(months_of(s)[earlier.len() as int] == month);
            }
        }
        unseen_month_is_empty(front, month);
    }
}

/// The buckets of stamped entries are determined by the entries: two runs
/// over the same entries give the same buckets in the same order, each with
/// the same entries in the same order.
pub proof fn buckets_are_determined(first: Seq<Bucket>, second: Seq<Bucket>, s: Seq<Stamped>)
    requires
        bucketed(first, s),
        bucketed(second, s),
    ensures
        first.len() == second.len(),
        forall|i: int|
            0 <= i < first.len() ==> (#[trigger] first[i]).month == second[i].month
                && first[i].entries@ == second[i].entries@,
{
}

/// Ordering a bucket keeps membership: an entry is in the ordered bucket
/// exactly if it is in the bucket.
pub proof fn ordering_keeps_membership(s: Seq<Stamped>, e: Stamped)
    ensures
        in_order(s).contains(e) <==> s.contains(e),
{
    ordering_keeps_entries(s);
    vstd::seq_lib::to_multiset_contains(s, e);
    vstd::seq_lib::to_multiset_contains(in_order(s), e);
}

/// Bucketing neither drops an entry nor files it under a wrong month:
/// every entry of `s` is in the bucket of its month and in no other bucket,
/// and every entry of a bucket is an entry of `s` of that bucket's month.
pub proof fn every_entry_is_bucketed(buckets: Seq<Bucket>, s: Seq<Stamped>)
    requires
        bucketed(buckets, s),
    ensures
        forall|k: int|
            0 <= k < s.len() ==> exists|i: int|
                0 <= i < buckets.len() && (#[trigger] buckets[i]).month == bucket_month(
                    #[trigger] s[k],
                ) && buckets[i].entries@.contains(s[k]),
        forall|i: int, j: int|
            0 <= i < buckets.len() && 0 <= j < buckets[i].entries.len() ==> s.contains(
                #[trigger] buckets[i].entries@[j],
            ) && bucket_month(buckets[i].entries@[j]) == buckets[i].month,
        forall|i: int, j: int|
            0 <= i < j < buckets.len() ==> (#[trigger] buckets[i]).month != (
            #[trigger] buckets[j]).month,
{
    months_are_distinct(s);
    let months = months_of(s);
    assert forall|k: int| 0 <= k < s.len() implies exists|i: int|
        0 <= i < buckets.len() && (#[trigger] buckets[i]).month == bucket_month(#[trigger] s[k])
            && buckets[i].entries@.contains(s[k]) by {
        let m = bucket_month(s[k]);
        let i = choose|i: int| 0 <= i < months.len() && months[i] == m;
        s.lemma_filter_contains(month_is(m), k);
        ordering_keeps_membership(in_month(s, m), s[k]);
        assert(buckets[i].month == m);
    }
    assert forall|i: int, j: int|
        0 <= i < buckets.len() && 0 <= j < buckets[i].entries.len() implies s.contains(
        #[trigger] buckets[i].entries@[j],
    ) && bucket_month(buckets[i].entries@[j]) == buckets[i].month by {
        let e = buckets[i].entries@[j];
        let m = months[i];
        assert(buckets[i].month == m);
        assert(in_order(in_month(s, m)).contains(e));
        ordering_keeps_membership(in_month(s, m), e);
        s.lemma_filter_contains_rev(month_is(m), e);
        let w = choose|w: int| 0 <= w < in_month(s, m).len() && in_month(s, m)[w] == e;
        s.lemma_filter_pred(month_is(m), w);
    }
    assert forall|i: int, j: int| 0 <= i < j < buckets.len() implies (#[trigger] buckets[i]).month
        != (#[trigger] buckets[j]).month by {
        assert(buckets[i].month == months[i] && buckets[j].month == months[j]);
    }
}

/// The entries of `s` bucket by bucket, for the buckets `months`: the
/// entries of each in the order in which they are written.
pub open spec fn buckets_apart(s: Seq<Stamped>, months: Seq<Option<Date>>) -> Seq<Seq<Stamped>> {
    Seq::new(months.len(), |i: int| in_order(in_month(s, months[i])))
}

/// Every entry of `s` in the order in which a run writes it: bucket after
/// bucket, and within each bucket in the bucket's order.
pub open spec fn written(s: Seq<Stamped>) -> Seq<Stamped> {
    buckets_apart(s, months_of(s)).flatten()
}

/// The entries of `s` that belong to one of the buckets `months`, each as
/// often as it occurs.
pub open spec fn pooled(s: Seq<Stamped>, months: Seq<Option<Date>>) -> Multiset<Stamped>
    decreases months.len(),
{
    if months.len() == 0 {
        Multiset::empty()
    } else {
        pooled(s, months.drop_last()).add(in_month(s, months.last()).to_multiset())
    }
}

/// Whether no bucket occurs twice in `months`.
pub open spec fn no_month_twice(months: Seq<Option<Date>>) -> bool {
    forall|i: int, j: int| 0 <= i < j < months.len() ==> months[i] != months[j]
}

/// What is written for some buckets holds the entries that belong to them.
proof fn written_is_pooled(s: Seq<Stamped>, months: Seq<Option<Date>>)
    ensures
        buckets_apart(s, months).flatten().to_multiset() == pooled(s, months),
    decreases months.len(),
{
    broadcast use vstd::multiset::group_multiset_axioms;

    if months.len() == 0 {
        assert(buckets_apart(s, months) =~= Seq::<Seq<Stamped>>::empty());
        assert(buckets_apart(s, months).flatten() =~= Seq::<Stamped>::empty());
        assert(Seq::<Stamped>::empty().to_multiset() =~= Multiset::<Stamped>::empty()) by {
            vstd::seq_lib::to_multiset_len(Seq::<Stamped>::empty());
        }
    } else {
        let front = months.drop_last();
        let last = in_order(in_month(s, months.last()));
        written_is_pooled(s, front);
        assert(buckets_apart(s, months) =~= buckets_apart(s, front).push(last));
        buckets_apart(s, front).lemma_flatten_push(last);
        vstd::seq_lib::lemma_multiset_commutative(buckets_apart(s, front).flatten(), last);
        ordering_keeps_entries(in_month(s, months.last()));
    }
}

/// One more entry is one more in the pool, where its bucket is among the
/// buckets, and changes nothing where it is not.
proof fn pooled_grows(s: Seq<Stamped>, e: Stamped, months: Seq<Option<Date>>)
    requires
        no_month_twice(months),
    ensures
        pooled(s.push(e), months) == if months.contains(bucket_month(e)) {
            pooled(s, months).insert(e)
        } else {
            pooled(s, months)
        },
    decreases months.len(),
{
    broadcast use vstd::multiset::group_multiset_axioms;

    if months.len() > 0 {
        let front = months.drop_last();
        let m = months.last();
        assert forall|i: int, j: int| 0 <= i < j < front.len() implies front[i] != front[j] by {
            assert(front[i] == months[i] && front[j] == months[j]);
        }
        pooled_grows(s, e, front);
        s.lemma_filter_push(e, month_is(m));
        vstd::seq_lib::to_multiset_build(in_month(s, m), e);
        if bucket_month(e) == m {
            assert(months[months.len() - 1] == m);
            assert(months.contains(m));
            if front.contains(m) {
                let w = choose|w: int| 0 <= w < front.len() && front[w] == m;
                assert(months[w] == m);
            }
            assert(pooled(s.push(e), months) =~= pooled(s, months).insert(e));
        } else {
            if front.contains(bucket_month(e)) {
                let w = choose|w: int| 0 <= w < front.len() && front[w] == bucket_month(e);
                assert(months[w] == bucket_month(e));
            }
            if months.contains(bucket_month(e)) {
                let w = choose|w: int| 0 <= w < months.len() && months[w] == bucket_month(e);
                assert(front[w] == bucket_month(e));
                assert(pooled(s.push(e), months) =~= pooled(s, months).insert(e));
            } else {
                assert(pooled(s.push(e), months) =~= pooled(s, months));
            }
        }
    }
}

/// The buckets of `s` hold every entry of `s`, each as often as `s` does.
proof fn pool_is_whole(s: Seq<Stamped>)
    ensures
        pooled(s, months_of(s)) == s.to_multiset(),
    decreases s.len(),
{
    broadcast use vstd::multiset::group_multiset_axioms;

    if s.len() == 0 {
        assert(s.to_multiset() =~= Multiset::<Stamped>::empty()) by {
            vstd::seq_lib::to_multiset_len(s);
        }
    } else {
        let front = s.drop_last();
        let e = s.last();
        let m = bucket_month(e);
        let earlier = months_of(front);
        assert(s =~= front.push(e));
        pool_is_whole(front);
        months_are_distinct(front);
        pooled_grows(front, e, earlier);
        vstd::seq_lib::to_multiset_build(front, e);
        if !earlier.contains(m) {
            let all = earlier.push(m);
            assert(all.drop_last() =~= earlier);
            assert(all.last() == m);
            unseen_month_is_empty(front, m);
            front.lemma_filter_push(e, month_is(m));
            vstd::seq_lib::to_multiset_build(Seq::<Stamped>::empty(), e);
            assert(Seq::<Stamped>::empty().to_multiset() =~= Multiset::<Stamped>::empty()) by {
                vstd::seq_lib::to_multiset_len(Seq::<Stamped>::empty());
            }
            assert(pooled(s, all) =~= s.to_multiset());
        }
    }
}

/// Every entry is written exactly once: what a run writes over all its
/// buckets holds every entry of `s` as often as `s` does, and so has as
/// many entries as `s`.
pub proof fn every_entry_is_written_once(s: Seq<Stamped>)
    ensures
        written(s).to_multiset() == s.to_multiset(),
        written(s).len() == s.len(),
{
    written_is_pooled(s, months_of(s));
    pool_is_whole(s);
    vstd::seq_lib::to_multiset_len(written(s));
    vstd::seq_lib::to_multiset_len(s);
}

/// The buckets of `s` are the parts of what is written, and none of them is
/// empty.
pub proof fn buckets_are_the_parts(buckets: Seq<Bucket>, s: Seq<Stamped>)
    requires
        bucketed(buckets, s),
    ensures
        Seq::new(buckets.len(), |i: int| buckets[i].entries@) == buckets_apart(s, months_of(s)),
        forall|i: int| 0 <= i < buckets.len() ==> (#[trigger] buckets[i]).entries.len() > 0,
{
    assert(Seq::new(buckets.len(), |i: int| buckets[i].entries@) =~= buckets_apart(
        s,
        months_of(s),
    ));
    assert forall|i: int| 0 <= i < buckets.len() implies (#[trigger] buckets[i]).entries.len()
        > 0 by {
        month_has_an_entry(s, i);
        ordering_keeps_entries(in_month(s, months_of(s)[i]));
    }
}

/// Every bucket of `s` holds an entry of `s`.
pub proof fn month_has_an_entry(s: Seq<Stamped>, i: int)
    requires
        0 <= i < months_of(s).len(),
    ensures
        in_month(s, months_of(s)[i]).len() > 0,
    decreases s.len(),
{
    if s.len() > 0 {
        let front = s.drop_last();
        let e = s.last();
        let m = months_of(s)[i];
        assert(s =~= front.push(e));
        front.lemma_filter_push(e, month_is(m));
        if bucket_month(e) != m {
            assert(months_of(front).contains(bucket_month(e)) || months_of(s) == months_of(
                front,
            ).push(bucket_month(e)));
            assert(i < months_of(front).len());
            assert(months_of(front)[i] == m);
            month_has_an_entry(front, i);
        }
    }
}

/// The first day of the month that `e` belongs to, if its transaction has a date.
pub fn month_key(e: &Stamped) -> (r: Option<Date>)
    ensures
        r == bucket_month(*e),
        e.entry.wf() ==> (r matches Some(d) ==> d.wf()),
{
    match e.entry.get().date_best_effort() {
        Some(d) => Some(d.first_of_month()),
        None => None,
    }
}

/// Whether two buckets are the same.
fn same_month(a: &Option<Date>, b: &Option<Date>) -> (r: bool)
    ensures
        r == (*a == *b),
{
    match (a, b) {
        (None, None) => true,
        (Some(x), Some(y)) => x.year == y.year && x.month == y.month && x.day == y.day,
        _ => false,
    }
}

/// Groups entries by month, keeping within each bucket the order in which
/// the entries were given.
pub fn group_by_month(entries: Vec<Stamped>) -> (r: Vec<Bucket>)
    ensures
        grouped(r@, entries@),
{
    let ghost all = entries@;
    let mut buckets: Vec<Bucket> = Vec::new();
    assert(all.take(0) =~= Seq::<Stamped>::empty());
    proof {
        reveal(Seq::filter);
    }
    for e in it: entries
        invariant
            it.seq() == all,
            grouped(buckets@, all.take(it.index() as int)),
    {
        let ghost k = it.index() as int;
        let ghost seen = all.take(k);
        let ghost now = all.take(k + 1);
        let ghost before = buckets@;
        let month = month_key(&e);
        let mut i: usize = 0;
        while i < buckets.len() && !same_month(&buckets[i].month, &month)
            invariant
                i <= buckets.len(),
                forall|j: int| 0 <= j < i ==> (#[trigger] buckets[j]).month != month,
            decreases buckets.len() - i,
        {
            i += 1;
        }
        proof {
            assert(now =~= seen.push(e));
            assert(now.drop_last() =~= seen);
            assert(now.last() == e);
            months_are_distinct(seen);
            assert forall|m: Option<Date>| #[trigger]
                in_month(now, m) == if bucket_month(e) == m {
                    in_month(seen, m).push(e)
                } else {
                    in_month(seen, m)
                } by {
                seen.lemma_filter_push(e, month_is(m));
            }
        }
        if i < buckets.len() {
            proof {
                assert(months_of(seen)[i as int] == month);
                assert(months_of(now) == months_of(seen));
            }
            buckets[i].entries.push(e);
            proof {
                assert forall|j: int| 0 <= j < buckets.len() implies {
                    &&& (#[trigger] buckets[j]).month == months_of(now)[j]
                    &&& buckets[j].entries@ == in_month(now, months_of(now)[j])
                } by {
                    if j != i {
                        assert(buckets[j] == before[j]);
                    }
                }
            }
        } else {
            proof {
                assert(!months_of(seen).contains(month)) by {
                    if months_of(seen).contains(month) {
                        let w = choose|w: int|
                            0 <= w < months_of(seen).len() && months_of(seen)[w] == month;
                        assert(buckets[w].month == month);
                    }
                }
                assert(months_of(now) == months_of(seen).push(month));
                unseen_month_is_empty(seen, month);
            }
            let mut first: Vec<Stamped> = Vec::new();
            first.push(e);
            buckets.push(Bucket { month, entries: first });
            proof {
                assert(in_month(now, month) =~= seq![e]);
                assert forall|j: int| 0 <= j < buckets.len() implies {
                    &&& (#[trigger] buckets[j]).month == months_of(now)[j]
                    &&& buckets[j].entries@ == in_month(now, months_of(now)[j])
                } by {
                    if j < before.len() {
                        assert(buckets[j] == before[j]);
                        assert(months_of(now)[j] == months_of(seen)[j]);
                    }
                }
            }
        }
    }
    assert(all.take(all.len() as int) =~= all);
    buckets
}

/// Puts each bucket into the order in which it is written.
pub fn sort_buckets(buckets: Vec<Bucket>) -> (r: Vec<Bucket>)
    ensures
        r.len() == buckets.len(),
        forall|i: int|
            0 <= i < r.len() ==> {
                &&& (#[trigger] r[i]).month == buckets[i].month
                &&& r[i].entries@ == in_order(buckets[i].entries@)
            },
{
    let ghost all = buckets@;
    let mut out: Vec<Bucket> = Vec::new();
    for b in it: buckets
        invariant
            it.seq() == all,
            out.len() == it.index(),
            forall|i: int|
                0 <= i < out.len() ==> {
                    &&& (#[trigger] out[i]).month == all[i].month
                    &&& out[i].entries@ == in_order(all[i].entries@)
                },
    {
        let month = b.month;
        let entries = sort_entries(b.entries);
        out.push(Bucket { month, entries });
    }
    out
}

/// Groups stamped entries by month and orders each bucket.
pub fn bucket_stamped(entries: Vec<Stamped>) -> (r: Vec<Bucket>)
    ensures
        bucketed(r@, entries@),
{
    sort_buckets(group_by_month(entries))
}

/// The booked transactions followed by the pending ones, each tagged with
/// the list it came from.
pub open spec fn tagged(booked: Seq<Transaction>, pending: Seq<Transaction>) -> Seq<
    TransactionWithStatus,
> {
    booked.map_values(|t: Transaction| TransactionWithStatus::Booked(t)) + pending.map_values(
        |t: Transaction| TransactionWithStatus::Pending(t),
    )
}

/// Merges the two lists of a transactions answer into one list of tagged
/// transactions: the booked ones first, then the pending ones, each list in
/// its own order.
pub fn tag_transactions(transactions: Transactions) -> (r: Vec<TransactionWithStatus>)
    ensures
        r@ == tagged(transactions.transactions.booked@, transactions.transactions.pending@),
{
    let ghost booked = transactions.transactions.booked@;
    let ghost pending = transactions.transactions.pending@;
    let inner = transactions.transactions;
    let mut out: Vec<TransactionWithStatus> = Vec::new();
    for t in it: inner.booked
        invariant
            it.seq() == booked,
            out@ == booked.take(it.index() as int).map_values(
                |t: Transaction| TransactionWithStatus::Booked(t),
            ),
    {
        out.push(TransactionWithStatus::Booked(t));
        assert(out@ =~= booked.take(it.index() + 1).map_values(
            |t: Transaction| TransactionWithStatus::Booked(t),
        ));
    }
    assert(booked.take(booked.len() as int) =~= booked);
    for t in it: inner.pending
        invariant
            it.seq() == pending,
            out@ == tagged(booked, pending.take(it.index() as int)),
    {
        out.push(TransactionWithStatus::Pending(t));
        assert(out@ =~= tagged(booked, pending.take(it.index() + 1)));
    }
    assert(pending.take(pending.len() as int) =~= pending);
    out
}

/// Whether `stamped` are the entries `entries`, in their order, each with an
/// instant that can stand for it.
pub open spec fn stamps_fit(stamped: Seq<Stamped>, entries: Seq<TransactionWithStatus>) -> bool {
    &&& stamped.len() == entries.len()
    &&& forall|i: int|
        0 <= i < stamped.len() ==> {
            &&& (#[trigger] stamped[i]).entry == entries[i]
            &&& entries[i].transaction().admits_timestamp(stamped[i].timestamp)
        }
}

/// The entries, in their order, each with the instant that stands for it in
/// `zone`; or, where the zone has no single first instant for the deciding
/// date of some entry, the error that names that date for the first such
/// entry.
pub open spec fn stamped_in(entries: Seq<TransactionWithStatus>, zone: tzfile::Tz) -> Result<
    Seq<Stamped>,
    NoLocalMidnight,
>
    decreases entries.len(),
{
    if entries.len() == 0 {
        Ok(Seq::empty())
    } else {
        match stamped_in(entries.drop_last(), zone) {
            Err(e) => Err(e),
            Ok(front) => match entries.last().transaction().timestamp_in(zone) {
                Ok(t) => Ok(front.push(Stamped { entry: entries.last(), timestamp: t })),
                Err(e) => Err(e),
            },
        }
    }
}

/// Stamping keeps the entries and their order.
pub proof fn stamping_keeps_entries(entries: Seq<TransactionWithStatus>, zone: tzfile::Tz)
    ensures
        stamped_in(entries, zone) matches Ok(stamped) ==> stamped.len() == entries.len()
            && forall|i: int| 0 <= i < stamped.len() ==> (#[trigger] stamped[i]).entry == entries[i],
    decreases entries.len(),
{
    if entries.len() > 0 {
        stamping_keeps_entries(entries.drop_last(), zone);
    }
}

/// Once an entry has failed, the entries after it change nothing.
proof fn first_failure_stays(entries: Seq<TransactionWithStatus>, zone: tzfile::Tz, k: int)
    requires
        0 <= k <= entries.len(),
        stamped_in(entries.take(k), zone) is Err,
    ensures
        stamped_in(entries, zone) == stamped_in(entries.take(k), zone),
    decreases entries.len() - k,
{
    if k < entries.len() {
        assert(entries.take(k + 1).drop_last() =~= entries.take(k));
        first_failure_stays(entries, zone, k + 1);
    } else {
        assert(entries.take(k) =~= entries);
    }
}

/// Whether a date decides the instant of some entry of `entries`.
pub open spec fn some_date_decides(entries: Seq<TransactionWithStatus>) -> bool {
    exists|i: int|
        0 <= i < entries.len() && (#[trigger] entries[i]).transaction().deciding_date() is Some
}

/// Where no date decides the instant of an entry, every zone stamps the
/// entries, and every zone alike.
pub proof fn undated_entries_are_stamped(
    entries: Seq<TransactionWithStatus>,
    zone: tzfile::Tz,
    other: tzfile::Tz,
)
    requires
        !some_date_decides(entries),
    ensures
        stamped_in(entries, zone) is Ok,
        stamped_in(entries, zone) == stamped_in(entries, other),
    decreases entries.len(),
{
    if entries.len() > 0 {
        let front = entries.drop_last();
        assert forall|i: int| 0 <= i < front.len() implies (#[trigger] front[i])
            .transaction().deciding_date() is None by {
            assert(front[i] == entries[i]);
        }
        undated_entries_are_stamped(front, zone, other);
        assert(entries[entries.len() - 1].transaction().deciding_date() is None);
    }
}

/// Gives each entry the instant it is ordered by, with dates taken at their
/// first instant in `zone`.
///
/// Fails at the first entry whose deciding date has no single first instant
/// in the zone, naming that date.
pub fn stamp_entries(entries: Vec<TransactionWithStatus>, zone: &tzfile::Tz) -> (r: Result<
    Vec<Stamped>,
    NoLocalMidnight,
>)
    ensures
        match r {
            Ok(stamped) => stamped_in(entries@, *zone) == Ok::<Seq<Stamped>, NoLocalMidnight>(
                stamped@,
            ) && stamps_fit(stamped@, entries@),
            Err(e) => stamped_in(entries@, *zone) == Err::<Seq<Stamped>, NoLocalMidnight>(e),
        },
{
    let ghost all = entries@;
    let mut out: Vec<Stamped> = Vec::new();
    assert(all.take(0) =~= Seq::<TransactionWithStatus>::empty());
    for entry in it: entries
        invariant
            it.seq() == all,
            stamped_in(all.take(it.index() as int), *zone) == Ok::<Seq<Stamped>, NoLocalMidnight>(
                out@,
            ),
            stamps_fit(out@, all.take(it.index() as int)),
    {
        let ghost k = it.index() as int;
        proof {
            assert(all.take(k + 1).drop_last() =~= all.take(k));
            assert(all.take(k + 1).last() == entry);
        }
        let timestamp = match entry.timestamp_best_effort(zone) {
            Ok(t) => t,
            Err(e) => {
                proof {
                    first_failure_stays(all, *zone, k + 1);
                }
                return Err(e);
            },
        };
        out.push(Stamped { entry, timestamp });
    }
    assert(all.take(all.len() as int) =~= all);
    Ok(out)
}

/// The entries of a transactions answer: see [`tagged`].
pub open spec fn entries_of(transactions: Transactions) -> Seq<TransactionWithStatus> {
    tagged(transactions.transactions.booked@, transactions.transactions.pending@)
}

/// Entries that are dated two days or more apart are written in the order
/// of their dates, whatever the time zone makes of the dates: where a date
/// decides the instant of each of two entries, and the one date lies more
/// than a day before the other, the entry of the earlier date sorts before
/// the other, and not the other way round.
pub proof fn days_apart_are_written_in_order(a: Stamped, b: Stamped)
    requires
        a.entry.transaction().deciding_date() is Some,
        b.entry.transaction().deciding_date() is Some,
        a.entry.transaction().admits_timestamp(a.timestamp),
        b.entry.transaction().admits_timestamp(b.timestamp),
        day_number(a.entry.transaction().deciding_date()->0) + 1 < day_number(
            b.entry.transaction().deciding_date()->0,
        ),
    ensures
        sorts_before(a, b),
        !sorts_before(b, a),
{
    day_numbers_are_in_order(a.timestamp->0.date, b.timestamp->0.date);
    sorts_before_is_strict(a, b);
}

/// The buckets of an account's transactions, as they are written: the two
/// lists merged and tagged, every entry stamped with the instant that
/// stands for it in `zone`, the entries grouped by month and each bucket
/// ordered. Fails with the error of [`stamped_in`] where an entry cannot be
/// stamped.
pub fn bucket_transactions(transactions: Transactions, zone: &tzfile::Tz) -> (r: Result<
    Vec<Bucket>,
    NoLocalMidnight,
>)
    ensures
        match r {
            Ok(buckets) => stamped_in(entries_of(transactions), *zone) matches Ok(stamped)
                && bucketed(buckets@, stamped),
            Err(e) => stamped_in(entries_of(transactions), *zone) == Err::<
                Seq<Stamped>,
                NoLocalMidnight,
            >(e),
        },
{
    let entries = tag_transactions(transactions);
    match stamp_entries(entries, zone) {
        Ok(stamped) => Ok(bucket_stamped(stamped)),
        Err(e) => Err(e),
    }
}

/// The name of the file a bucket is written to: year and month with the
/// extension of a file of lines, or the fixed name of the bucket without date.
pub open spec fn bucket_file_text(month: Option<Date>) -> Seq<char> {
    match month {
        Some(d) => year_month_text(d) + ".jsonl"@,
        None => "undated.json"@,
    }
}

/// The name of the file a bucket is written to, inside the account's directory.
pub fn bucket_file_name(month: &Option<Date>) -> (r: String)
    ensures
        r@ == bucket_file_text(*month),
{
    match month {
        Some(d) => {
            let mut name = format_year_month(d);
            name.append(".jsonl");
            name
        },
        None => String::from_str("undated.json"),
    }
}

} // verus!
