//! A ledger of per-account amounts kept as a list of writes, in which the
//! latest write for an account is the one that counts.

use vstd::prelude::*;

verus! {

/// The amounts that a list of writes records: each account maps to the
/// amount of its latest write; an account never written is absent.
pub open spec fn ledger_map(writes: Seq<(Seq<char>, int)>) -> Map<Seq<char>, int>
    decreases writes.len(),
{
    if writes.len() == 0 {
        Map::empty()
    } else {
        ledger_map(writes.drop_last()).insert(writes.last().0, writes.last().1)
    }
}

/// `i` is the position of the latest write for `who`.
pub open spec fn is_latest_write(writes: Seq<(Seq<char>, int)>, who: Seq<char>, i: int) -> bool {
    &&& 0 <= i < writes.len()
    &&& writes[i].0 == who
    &&& forall|j: int| i < j < writes.len() ==> #[trigger] writes[j].0 != who
}

/// An account with no write is absent from the ledger.
pub proof fn lemma_ledger_absent(writes: Seq<(Seq<char>, int)>, who: Seq<char>)
    requires
        forall|j: int| 0 <= j < writes.len() ==> #[trigger] writes[j].0 != who,
    ensures
        !ledger_map(writes).dom().contains(who),
    decreases writes.len(),
{
    if writes.len() > 0 {
        let w = writes.drop_last();
        assert forall|j: int| 0 <= j < w.len() implies #[trigger] w[j].0 != who by {
            assert(w[j] == writes[j]);
        }
        lemma_ledger_absent(w, who);
        assert(writes[writes.len() - 1].0 != who);
    }
}

/// The ledger holds, for an account, the amount of its latest write.
pub proof fn lemma_ledger_latest(writes: Seq<(Seq<char>, int)>, who: Seq<char>, i: int)
    requires
        is_latest_write(writes, who, i),
    ensures
        ledger_map(writes).dom().contains(who),
        ledger_map(writes)[who] == writes[i].1,
    decreases writes.len(),
{
    if i < writes.len() - 1 {
        let w = writes.drop_last();
        assert forall|j: int| i < j < w.len() implies #[trigger] w[j].0 != who by {
            assert(w[j] == writes[j]);
        }
        assert(w[i] == writes[i]);
        lemma_ledger_latest(w, who, i);
        assert(writes[writes.len() - 1].0 != who);
    }
}

/// Appending a write records its amount for its account.
pub proof fn lemma_ledger_push(writes: Seq<(Seq<char>, int)>, e: (Seq<char>, int))
    ensures
        ledger_map(writes.push(e)) == ledger_map(writes).insert(e.0, e.1),
{
    assert(writes.push(e).drop_last() =~= writes);
}

/// Overwriting the latest write of an account sets its amount and leaves the
/// other accounts as they were.
pub proof fn lemma_ledger_overwrite(writes: Seq<(Seq<char>, int)>, who: Seq<char>, i: int, v: int)
    requires
        is_latest_write(writes, who, i),
    ensures
        ledger_map(writes.update(i, (who, v))) == ledger_map(writes).insert(who, v),
    decreases writes.len(),
{
    let n = writes.len();
    let u = writes.update(i, (who, v));
    if i == n - 1 {
        assert(u.drop_last() =~= writes.drop_last());
        assert(ledger_map(u) =~= ledger_map(writes).insert(who, v));
    } else {
        let w = writes.drop_last();
        assert(u.drop_last() =~= w.update(i, (who, v)));
        assert forall|j: int| i < j < w.len() implies #[trigger] w[j].0 != who by {
            assert(w[j] == writes[j]);
        }
        lemma_ledger_overwrite(w, who, i, v);
        assert(writes[n - 1].0 != who);
        assert(u.last() == writes.last());
        assert(ledger_map(u) =~= ledger_map(writes).insert(who, v));
    }
}

} // verus!
