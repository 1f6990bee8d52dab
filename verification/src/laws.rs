//! The library's cross-cutting guarantees, proved over the model.
//!
//! Every query form is an instance of `query_result`, so the laws here are
//! stated once over an arbitrary `QueryForm` and hold of the any-term,
//! minimum-should-match and phrase queries alike.
use vstd::prelude::*;

use crate::model::{
    apply_op, apply_ops, clauses_matched, query_result, remove_shard, text_matches, IndexOp,
    QueryForm, SpecDoc,
};
use crate::reader::ReaderView;

verus! {

/// Soundness of every query: an id a query returns names a document of the
/// queried segment whose text satisfies the content predicate. In
/// particular, a query filtered to one segment never returns a local id
/// that exists only in other segments, however similar their texts.
pub proof fn lemma_shard_isolation(snap: Seq<SpecDoc>, shard: u64, form: QueryForm, id: u64)
    requires
        query_result(snap, shard, form).contains(id),
    ensures
        exists|j: int|
            #![trigger snap[j]]
            0 <= j < snap.len() && snap[j].shard == shard && snap[j].local == id && text_matches(
                snap[j].text,
                form,
            ),
    decreases snap.len(),
{
    let whole = query_result(snap, shard, form);
    if snap.len() > 0 {
        let head_hit = snap[0].shard == shard && text_matches(snap[0].text, form);
        if head_hit && snap[0].local == id {
            assert(0 <= 0 < snap.len() && snap[0].shard == shard && snap[0].local == id
                && text_matches(snap[0].text, form));
        } else {
            let head = if head_hit {
                seq![snap[0].local]
            } else {
                Seq::<u64>::empty()
            };
            let tail = query_result(snap.drop_first(), shard, form);
            assert(tail.contains(id)) by {
                let k = choose|k: int| 0 <= k < whole.len() && whole[k] == id;
                assert(whole == head + tail);
                if head.len() <= k {
                    assert(tail[k - head.len()] == id);
                }
            }
            lemma_shard_isolation(snap.drop_first(), shard, form, id);
            let j = choose|j: int|
                #![trigger snap.drop_first()[j]]
                0 <= j < snap.drop_first().len() && snap.drop_first()[j].shard == shard
                    && snap.drop_first()[j].local == id && text_matches(
                    snap.drop_first()[j].text,
                    form,
                );
            assert(snap[j + 1] == snap.drop_first()[j]);
        }
    }
}

/// Completeness of every query: a document of the queried segment whose
/// text satisfies the content predicate has its local id in the result.
pub proof fn lemma_query_result_complete(snap: Seq<SpecDoc>, shard: u64, form: QueryForm, j: int)
    requires
        0 <= j < snap.len(),
        snap[j].shard == shard,
        text_matches(snap[j].text, form),
    ensures
        query_result(snap, shard, form).contains(snap[j].local),
    decreases snap.len(),
{
    let whole = query_result(snap, shard, form);
    let head_hit = snap[0].shard == shard && text_matches(snap[0].text, form);
    let head = if head_hit {
        seq![snap[0].local]
    } else {
        Seq::<u64>::empty()
    };
    let tail = query_result(snap.drop_first(), shard, form);
    assert(whole == head + tail);
    if j == 0 {
        assert(whole[0] == snap[0].local);
    } else {
        assert(snap.drop_first()[j - 1] == snap[j]);
        lemma_query_result_complete(snap.drop_first(), shard, form, j - 1);
        let k = choose|k: int| 0 <= k < tail.len() && tail[k] == snap[j].local;
        assert(whole[head.len() + k] == snap[j].local);
    }
}

/// Shard isolation in the contrapositive, as a caller sees it: a local id
/// that only ever names documents of another segment is never returned by
/// a query filtered to this one, whatever the query.
pub proof fn lemma_shard_isolation_foreign(
    snap: Seq<SpecDoc>,
    s1: u64,
    s2: u64,
    form: QueryForm,
    id: u64,
)
    requires
        s1 != s2,
        forall|j: int|
            #![trigger snap[j]]
            0 <= j < snap.len() && snap[j].local == id ==> snap[j].shard == s2,
    ensures
        !query_result(snap, s1, form).contains(id),
{
    if query_result(snap, s1, form).contains(id) {
        lemma_shard_isolation(snap, s1, form, id);
    }
}

/// Weakening the content predicate can only grow the result set: every id
/// returned under the stronger predicate is returned under the weaker one.
pub proof fn lemma_query_result_monotone(
    snap: Seq<SpecDoc>,
    shard: u64,
    f1: QueryForm,
    f2: QueryForm,
)
    requires
        forall|t: Seq<char>| #[trigger] text_matches(t, f1) ==> text_matches(t, f2),
    ensures
        forall|id: u64|
            #[trigger] query_result(snap, shard, f1).contains(id) ==> query_result(
                snap,
                shard,
                f2,
            ).contains(id),
{
    assert forall|id: u64| #[trigger]
        query_result(snap, shard, f1).contains(id) implies query_result(
        snap,
        shard,
        f2,
    ).contains(id) by {
        lemma_shard_isolation(snap, shard, f1, id);
        let j = choose|j: int|
            #![trigger snap[j]]
            0 <= j < snap.len() && snap[j].shard == shard && snap[j].local == id && text_matches(
                snap[j].text,
                f1,
            );
        lemma_query_result_complete(snap, shard, f2, j);
    }
}

/// Minimum-should-match monotonicity: for a fixed query, the result set
/// under threshold `m + 1` is a subset of the result set under threshold
/// `m` — raising the threshold only shrinks the result.
pub proof fn lemma_min_should_match_monotonic(
    snap: Seq<SpecDoc>,
    shard: u64,
    qtexts: Seq<Seq<char>>,
    m: int,
)
    ensures
        forall|id: u64|
            #[trigger] query_result(snap, shard, QueryForm::Min { qtexts, min: m + 1 }).contains(
                id,
            ) ==> query_result(snap, shard, QueryForm::Min { qtexts, min: m }).contains(id),
{
    let f1 = QueryForm::Min { qtexts, min: m + 1 };
    let f2 = QueryForm::Min { qtexts, min: m };
    assert forall|t: Seq<char>| #[trigger] text_matches(t, f1) implies text_matches(t, f2) by {
        assert(clauses_matched(t, qtexts) >= m + 1 ==> clauses_matched(t, qtexts) >= m);
    }
    lemma_query_result_monotone(snap, shard, f1, f2);
}

/// Folding one more operation after a batch is the same as folding the
/// batch and then that operation.
pub proof fn lemma_apply_ops_snoc(docs: Seq<SpecDoc>, ops: Seq<IndexOp>, op: IndexOp)
    ensures
        apply_ops(docs, ops.push(op)) == apply_op(apply_ops(docs, ops), op),
    decreases ops.len(),
{
    let pushed = ops.push(op);
    if ops.len() == 0 {
        assert(pushed[0] == op);
        assert(pushed.drop_first() =~= Seq::<IndexOp>::empty());
        assert(apply_ops(docs, pushed) == apply_ops(apply_op(docs, op), pushed.drop_first()));
        assert(apply_ops(apply_op(docs, op), pushed.drop_first()) == apply_op(docs, op));
        assert(apply_ops(docs, ops) == docs);
    } else {
        assert(pushed[0] == ops[0]);
        assert(pushed.drop_first() =~= ops.drop_first().push(op));
        lemma_apply_ops_snoc(apply_op(docs, ops[0]), ops.drop_first(), op);
        assert(apply_ops(docs, pushed) == apply_ops(apply_op(docs, ops[0]), pushed.drop_first()));
        assert(apply_ops(docs, ops) == apply_ops(apply_op(docs, ops[0]), ops.drop_first()));
    }
}

/// Removing one segment's documents empties that segment's results and
/// leaves every other segment's results exactly as they were.
pub proof fn lemma_remove_shard_scoping(snap: Seq<SpecDoc>, s: u64, other: u64, form: QueryForm)
    ensures
        query_result(remove_shard(snap, s), s, form) == Seq::<u64>::empty(),
        other != s ==> query_result(remove_shard(snap, s), other, form) == query_result(
            snap,
            other,
            form,
        ),
    decreases snap.len(),
{
    if snap.len() > 0 {
        lemma_remove_shard_scoping(snap.drop_first(), s, other, form);
        let r = remove_shard(snap, s);
        if snap[0].shard == s {
            assert(r =~= remove_shard(snap.drop_first(), s));
        } else {
            assert(r[0] == snap[0]);
            assert(r.len() > 0);
            assert(r.drop_first() =~= remove_shard(snap.drop_first(), s));
            assert(Seq::<u64>::empty() + Seq::<u64>::empty() =~= Seq::<u64>::empty());
        }
    }
}

/// Deletion scoping: after enqueuing `delete_segment(s)` last and
/// committing, a query on segment `s` returns nothing, and every other
/// segment's results are unaffected, whatever the query.
pub proof fn lemma_deletion_scoping(
    committed: Seq<SpecDoc>,
    ops: Seq<IndexOp>,
    s: u64,
    other: u64,
    form: QueryForm,
)
    ensures
        query_result(apply_ops(committed, ops.push(IndexOp::Delete { shard: s })), s, form)
            == Seq::<u64>::empty(),
        other != s ==> query_result(
            apply_ops(committed, ops.push(IndexOp::Delete { shard: s })),
            other,
            form,
        ) == query_result(apply_ops(committed, ops), other, form),
{
    lemma_apply_ops_snoc(committed, ops, IndexOp::Delete { shard: s });
    lemma_remove_shard_scoping(apply_ops(committed, ops), s, other, form);
}

/// For a phrase of fewer than two tokens the slop budget is irrelevant:
/// such a query never reaches the positional predicate, so its result is
/// the same at every slop. (Whether a wider budget can only widen the
/// result of a longer phrase is a property of the engine's slop
/// evaluation, which this model names but does not state.)
pub proof fn lemma_phrase_slop_irrelevant_short(
    snap: Seq<SpecDoc>,
    shard: u64,
    qtoks: Seq<(Seq<char>, nat)>,
    s1: u32,
    s2: u32,
)
    requires
        qtoks.len() <= 1,
    ensures
        crate::model::phrase_result(snap, shard, qtoks, s1) == crate::model::phrase_result(
            snap,
            shard,
            qtoks,
            s2,
        ),
{
}

/// Snapshot isolation: a query's result is a function of the reader's
/// snapshot alone. Two readers over equal snapshots agree on every query;
/// since a writer's commit mutates only the writer, a reader's snapshot —
/// and with it every query result — is unchanged until the reader is
/// explicitly reloaded.
pub proof fn lemma_snapshot_isolation(r1: ReaderView, r2: ReaderView, shard: u64, form: QueryForm)
    requires
        r1.snapshot == r2.snapshot,
    ensures
        query_result(r1.snapshot, shard, form) == query_result(r2.snapshot, shard, form),
{
}

} // verus!
