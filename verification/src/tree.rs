//! The model of a window tree as the windowing system reports it, query by
//! query, and the order in which a deep enumeration lists its windows.

use vstd::prelude::*;
use vstd::seq_lib::lemma_multiset_commutative;

verus! {

/// One window together with the answer to the query for its children: `None`
/// where the query failed, else the children in the order reported, each with
/// its own answer.
pub struct Branch {
    pub id: u64,
    pub reply: Option<Seq<Branch>>,
}

/// The identifiers of a row of windows, in order.
pub open spec fn ids(row: Seq<Branch>) -> Seq<u64> {
    Seq::new(row.len(), |i: int| row[i].id)
}

/// Everything a deep enumeration lists below `b`: the children of `b` as one
/// flat level, then what lies below the first child, below the second, and so
/// on. A window whose query failed has nothing below it.
pub open spec fn descendants(b: Branch) -> Seq<u64>
    decreases b, 0nat,
{
    match b.reply {
        None => Seq::empty(),
        Some(row) => ids(row) + below(row, row.len()),
    }
}

/// What lies below the first `n` windows of `row`, branch after branch.
pub open spec fn below(row: Seq<Branch>, n: nat) -> Seq<u64>
    decreases row, n,
{
    if n == 0 || n > row.len() {
        Seq::empty()
    } else {
        below(row, (n - 1) as nat) + descendants(row[n - 1])
    }
}

/// Every identifier that the windowing system names in its answers below `b`,
/// in the order in which a deep enumeration receives them: each child is
/// followed at once by what is reported below it.
pub open spec fn reported(b: Branch) -> Seq<u64>
    decreases b, 0nat,
{
    match b.reply {
        None => Seq::empty(),
        Some(row) => row_reported(row, row.len()),
    }
}

/// The first `n` windows of `row`, each followed by what is reported below it.
pub open spec fn row_reported(row: Seq<Branch>, n: nat) -> Seq<u64>
    decreases row, n,
{
    if n == 0 || n > row.len() {
        Seq::empty()
    } else {
        row_reported(row, (n - 1) as nat) + seq![row[n - 1].id] + reported(row[n - 1])
    }
}

/// The windows whose children a deep enumeration of `b` asks for, in order:
/// `b` itself, then every window reported below it.
pub open spec fn queried(b: Branch) -> Seq<u64> {
    seq![b.id] + reported(b)
}

/// The answer to the query for the children of `b`.
pub open spec fn answer(b: Branch) -> Option<Seq<u64>> {
    match b.reply {
        None => None,
        Some(row) => Some(ids(row)),
    }
}

/// The answers that a deep enumeration of `b` receives, in order.
pub open spec fn replies(b: Branch) -> Seq<Option<Seq<u64>>>
    decreases b, 0nat,
{
    match b.reply {
        None => seq![answer(b)],
        Some(row) => seq![answer(b)] + row_replies(row, row.len()),
    }
}

/// The answers received while the first `n` branches of `row` are walked.
pub open spec fn row_replies(row: Seq<Branch>, n: nat) -> Seq<Option<Seq<u64>>>
    decreases row, n,
{
    if n == 0 || n > row.len() {
        Seq::empty()
    } else {
        row_replies(row, (n - 1) as nat) + replies(row[n - 1])
    }
}

/// `n` is `t` or lies in one of the branches below `t`.
pub open spec fn within(t: Branch, n: Branch) -> bool
    decreases t,
{
    n == t || match t.reply {
        None => false,
        Some(row) => exists|j: int| 0 <= j < row.len() && within(#[trigger] row[j], n),
    }
}

proof fn lemma_row_is_rearranged(row: Seq<Branch>, n: nat)
    requires
        n <= row.len(),
    ensures
        row_reported(row, n).to_multiset() =~= ids(row).take(n as int).to_multiset().add(
            below(row, n).to_multiset(),
        ),
    decreases row, n,
{
    broadcast use vstd::multiset::group_multiset_axioms;

    let none = Seq::<u64>::empty();
    if n == 0 {
        assert(ids(row).take(0) =~= none);
        assert(none + none =~= none);
        lemma_multiset_commutative(none, none);
    } else {
        let m = (n - 1) as nat;
        let last = seq![row[n - 1].id];
        lemma_row_is_rearranged(row, m);
        lemma_enumeration_is_rearranged(row[n - 1]);
        assert(ids(row).take(n as int) =~= ids(row).take(m as int) + last);
        lemma_multiset_commutative(ids(row).take(m as int), last);
        lemma_multiset_commutative(row_reported(row, m), last);
        lemma_multiset_commutative(row_reported(row, m) + last, reported(row[n - 1]));
        lemma_multiset_commutative(below(row, m), descendants(row[n - 1]));
    }
}

/// A deep enumeration lists exactly the identifiers that the windowing system
/// reported, each as often as it was reported; only the order differs.
pub proof fn lemma_enumeration_is_rearranged(b: Branch)
    ensures
        descendants(b).to_multiset() =~= reported(b).to_multiset(),
    decreases b, 0nat,
{
    match b.reply {
        None => {},
        Some(row) => {
            lemma_row_is_rearranged(row, row.len());
            assert(ids(row).take(row.len() as int) =~= ids(row));
            lemma_multiset_commutative(ids(row), below(row, row.len()));
        },
    }
}

/// A deep enumeration names a window twice only where the windowing system
/// itself reported that window twice.
pub proof fn lemma_no_window_twice(b: Branch)
    ensures
        descendants(b).no_duplicates() <==> reported(b).no_duplicates(),
{
    lemma_enumeration_is_rearranged(b);
    let listed = descendants(b);
    let named = reported(b);
    if listed.no_duplicates() {
        listed.lemma_multiset_has_no_duplicates();
        named.lemma_multiset_has_no_duplicates_conv();
    }
    if named.no_duplicates() {
        named.lemma_multiset_has_no_duplicates();
        listed.lemma_multiset_has_no_duplicates_conv();
    }
}

proof fn lemma_below_holds_branch(row: Seq<Branch>, n: nat, j: int, x: u64)
    requires
        0 <= j < n <= row.len(),
        descendants(row[j]).contains(x),
    ensures
        below(row, n).contains(x),
    decreases n,
{
    let found = descendants(row[n - 1]);
    let before = below(row, (n - 1) as nat);
    if j == n - 1 {
        let k = choose|k: int| 0 <= k < found.len() && found[k] == x;
        assert((before + found)[before.len() + k] == x);
    } else {
        lemma_below_holds_branch(row, (n - 1) as nat, j, x);
        let k = choose|k: int| 0 <= k < before.len() && before[k] == x;
        assert((before + found)[k] == x);
    }
}

/// No branch is listed in part: where the query for a window of the tree was
/// answered, the enumeration holds every child that the answer names. (A
/// window whose query failed has no children in the tree, and nothing is listed
/// below it.)
pub proof fn lemma_branch_is_whole(t: Branch, n: Branch, j: int)
    requires
        within(t, n),
        n.reply is Some,
        0 <= j < n.reply->0.len(),
    ensures
        descendants(t).contains(n.reply->0[j].id),
    decreases t,
{
    let x = n.reply->0[j].id;
    if n == t {
        let row = t.reply->0;
        assert(ids(row)[j] == x);
        assert(descendants(t)[j] == x);
    } else {
        let row = t.reply->0;
        let i = choose|i: int| 0 <= i < row.len() && within(#[trigger] row[i], n);
        lemma_branch_is_whole(row[i], n, j);
        lemma_below_holds_branch(row, row.len(), i, x);
        let rest = below(row, row.len());
        let k = choose|k: int| 0 <= k < rest.len() && rest[k] == x;
        assert(descendants(t)[ids(row).len() + k] == x);
    }
}

} // verus!
