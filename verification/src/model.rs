//! The mathematical model of the shared index.
//!
//! A committed index state is a sequence of documents, each a
//! (segment id, local id, text) triple. A writer additionally carries the
//! sequence of operations (adds and segment deletions) enqueued since the
//! last commit; committing folds those operations into the committed state
//! in call order. Query semantics are stated over this model: a document's
//! indexed tokens are `tokens_of` its text, a query is one of three content
//! predicates (`QueryForm`) conjoined with an exact segment-id filter, and
//! `query_result` gives the local ids of the matching documents.
use vstd::prelude::*;

verus! {

/// One document of the model: the tenant's segment id, the caller-assigned
/// per-segment local id, and the document text.
pub struct SpecDoc {
    pub shard: u64,
    pub local: u64,
    pub text: Seq<char>,
}

/// One enqueued, not yet committed, writer operation.
pub enum IndexOp {
    Add { shard: u64, local: u64, text: Seq<char> },
    Delete { shard: u64 },
}

/// The tokens the standard analyzer produces for a text, in order, each
/// with its token position. This names the result of the engine's
/// tokenization pipeline (split on non-alphanumeric boundaries, drop
/// overlong tokens, lowercase), a pure function of the text.
pub uninterp spec fn tokens_of(text: Seq<char>) -> Seq<(Seq<char>, nat)>;

/// Whether the engine's positional phrase predicate accepts a document
/// text for the given query tokens (each with its position in the query)
/// within the given slop budget. This names the result of the engine's
/// sloppy-phrase evaluation, a pure function of the document text, the
/// query tokens and the slop.
pub uninterp spec fn phrase_hit(text: Seq<char>, qtoks: Seq<(Seq<char>, nat)>, slop: u32) -> bool;

/// The texts of a token sequence, positions dropped.
pub open spec fn token_texts(toks: Seq<(Seq<char>, nat)>) -> Seq<Seq<char>> {
    toks.map_values(|t: (Seq<char>, nat)| t.0)
}

/// The model view of an executable (text, position) token list.
pub open spec fn token_pairs_view(s: Seq<(String, usize)>) -> Seq<(Seq<char>, nat)> {
    s.map_values(|p: (String, usize)| (p.0@, p.1 as nat))
}

/// The model view of an executable term list.
pub open spec fn string_views(s: Seq<String>) -> Seq<Seq<char>> {
    s.map_values(|x: String| x@)
}

/// Whether the document text tokenizes to a token with text `qt`.
pub open spec fn doc_has_token(text: Seq<char>, qt: Seq<char>) -> bool {
    exists|i: int| 0 <= i < tokens_of(text).len() && tokens_of(text)[i].0 == qt
}

/// Whether the document text contains at least one of the query token
/// texts.
pub open spec fn any_match(text: Seq<char>, qtexts: Seq<Seq<char>>) -> bool {
    exists|i: int| 0 <= i < qtexts.len() && doc_has_token(text, qtexts[i])
}

/// The distinct query token texts, first occurrences kept, in order.
pub open spec fn dedup_texts(q: Seq<Seq<char>>) -> Seq<Seq<char>>
    decreases q.len(),
{
    if q.len() == 0 {
        Seq::<Seq<char>>::empty()
    } else {
        let rest = dedup_texts(q.drop_last());
        if q.drop_last().contains(q.last()) {
            rest
        } else {
            rest.push(q.last())
        }
    }
}

/// Deduplication keeps membership: a text occurs among the distinct query
/// tokens exactly when it occurs among the query tokens.
pub proof fn lemma_dedup_contains(q: Seq<Seq<char>>, x: Seq<char>)
    ensures
        dedup_texts(q).contains(x) == q.contains(x),
    decreases q.len(),
{
    if q.len() > 0 {
        let front = q.drop_last();
        lemma_dedup_contains(front, x);
        assert(q.contains(x) == (front.contains(x) || x == q.last())) by {
            if q.contains(x) {
                let i = choose|i: int| 0 <= i < q.len() && q[i] == x;
                if i < front.len() {
                    assert(front[i] == x);
                }
            }
            if front.contains(x) {
                let i = choose|i: int| 0 <= i < front.len() && front[i] == x;
                assert(q[i] == x);
            }
            if x == q.last() {
                assert(q[q.len() - 1] == x);
            }
        }
        let rest = dedup_texts(front);
        if !front.contains(q.last()) {
            assert(rest.push(q.last()).contains(x) == (rest.contains(x) || x == q.last())) by {
                if rest.push(q.last()).contains(x) {
                    let i = choose|i: int|
                        0 <= i < rest.push(q.last()).len() && rest.push(q.last())[i] == x;
                    if i < rest.len() {
                        assert(rest[i] == x);
                    }
                }
                if rest.contains(x) {
                    let i = choose|i: int| 0 <= i < rest.len() && rest[i] == x;
                    assert(rest.push(q.last())[i] == x);
                }
                if x == q.last() {
                    assert(rest.push(q.last())[rest.len() as int] == x);
                }
            }
        }
    }
}

/// A nonempty query keeps at least one distinct token.
pub proof fn lemma_dedup_nonempty(q: Seq<Seq<char>>)
    requires
        q.len() > 0,
    ensures
        dedup_texts(q).len() > 0,
    decreases q.len(),
{
    let front = q.drop_last();
    if front.len() == 0 {
        assert(!front.contains(q.last()));
    } else {
        lemma_dedup_nonempty(front);
    }
}

/// How many of the disjunctive clauses a document satisfies, one clause
/// per entry of the given token texts. The minimum-should-match query
/// builds its clauses over the distinct query tokens, so it hands this the
/// deduplicated texts.
pub open spec fn clauses_matched(text: Seq<char>, qtexts: Seq<Seq<char>>) -> int
    decreases qtexts.len(),
{
    if qtexts.len() == 0 {
        0
    } else {
        (if doc_has_token(text, qtexts[0]) {
            1int
        } else {
            0int
        }) + clauses_matched(text, qtexts.drop_first())
    }
}

/// Whether a document satisfies at least `min` of the per-token clauses.
pub open spec fn min_match(text: Seq<char>, qtexts: Seq<Seq<char>>, min: int) -> bool {
    clauses_matched(text, qtexts) >= min
}

/// The minimum-should-match threshold is clamped to at least one: a
/// threshold of zero would otherwise turn the content predicate into
/// "match everything".
pub open spec fn clamp_min(min: int) -> int {
    if min < 1 {
        1
    } else {
        min
    }
}

/// A query's content predicate: any-term match, minimum-should-match, or
/// positional phrase within a slop budget.
pub enum QueryForm {
    Any { qtexts: Seq<Seq<char>> },
    Min { qtexts: Seq<Seq<char>>, min: int },
    Phrase { qtoks: Seq<(Seq<char>, nat)>, slop: u32 },
}

/// Whether a document text satisfies a query's content predicate.
pub open spec fn text_matches(text: Seq<char>, form: QueryForm) -> bool {
    match form {
        QueryForm::Any { qtexts } => any_match(text, qtexts),
        QueryForm::Min { qtexts, min } => min_match(text, qtexts, min),
        QueryForm::Phrase { qtoks, slop } => phrase_hit(text, qtoks, slop),
    }
}

/// The local ids of the snapshot's documents that carry the given segment
/// id and whose text satisfies the content predicate, in snapshot order.
/// Query results are unordered: executable contracts state equality of the
/// multisets of this sequence and of the returned ids.
pub open spec fn query_result(snap: Seq<SpecDoc>, shard: u64, form: QueryForm) -> Seq<u64>
    decreases snap.len(),
{
    if snap.len() == 0 {
        Seq::<u64>::empty()
    } else {
        (if snap[0].shard == shard && text_matches(snap[0].text, form) {
            seq![snap[0].local]
        } else {
            Seq::<u64>::empty()
        }) + query_result(snap.drop_first(), shard, form)
    }
}

/// Result of the any-term match query.
pub open spec fn any_result(snap: Seq<SpecDoc>, shard: u64, qtexts: Seq<Seq<char>>) -> Seq<u64> {
    query_result(snap, shard, QueryForm::Any { qtexts })
}

/// Result of the minimum-should-match query, for an already clamped
/// threshold.
pub open spec fn min_result(
    snap: Seq<SpecDoc>,
    shard: u64,
    qtexts: Seq<Seq<char>>,
    min: int,
) -> Seq<u64> {
    query_result(snap, shard, QueryForm::Min { qtexts, min })
}

/// The documents of one segment accepted by the positional phrase
/// predicate.
pub open spec fn phrase_hits(
    snap: Seq<SpecDoc>,
    shard: u64,
    qtoks: Seq<(Seq<char>, nat)>,
    slop: u32,
) -> Seq<u64> {
    query_result(snap, shard, QueryForm::Phrase { qtoks, slop })
}

/// Result of the phrase match query. Zero query tokens match nothing; a
/// phrase of one token is an any-term match; two or more tokens go through
/// the positional phrase predicate.
pub open spec fn phrase_result(
    snap: Seq<SpecDoc>,
    shard: u64,
    qtoks: Seq<(Seq<char>, nat)>,
    slop: u32,
) -> Seq<u64> {
    if qtoks.len() == 0 {
        Seq::<u64>::empty()
    } else if qtoks.len() == 1 {
        any_result(snap, shard, seq![qtoks[0].0])
    } else {
        phrase_hits(snap, shard, qtoks, slop)
    }
}

/// The committed state left by removing every document of one segment.
pub open spec fn remove_shard(docs: Seq<SpecDoc>, shard: u64) -> Seq<SpecDoc>
    decreases docs.len(),
{
    if docs.len() == 0 {
        Seq::<SpecDoc>::empty()
    } else {
        (if docs[0].shard == shard {
            Seq::<SpecDoc>::empty()
        } else {
            seq![docs[0]]
        }) + remove_shard(docs.drop_first(), shard)
    }
}

/// The effect of one enqueued operation on a committed state.
pub open spec fn apply_op(docs: Seq<SpecDoc>, op: IndexOp) -> Seq<SpecDoc> {
    match op {
        IndexOp::Add { shard, local, text } => docs.push(SpecDoc { shard, local, text }),
        IndexOp::Delete { shard } => remove_shard(docs, shard),
    }
}

/// The committed state after a commit: the enqueued operations folded into
/// the previous committed state, in call order. A deletion removes exactly
/// the documents of its segment that precede it in the operation order.
pub open spec fn apply_ops(docs: Seq<SpecDoc>, ops: Seq<IndexOp>) -> Seq<SpecDoc>
    decreases ops.len(),
{
    if ops.len() == 0 {
        docs
    } else {
        apply_ops(apply_op(docs, ops[0]), ops.drop_first())
    }
}

/// The batch of add operations that `add_texts` enqueues: local ids are
/// assigned from `offset_begin` upward in input order.
pub open spec fn batch_adds(shard: u64, texts: Seq<Seq<char>>, offset_begin: u64) -> Seq<IndexOp> {
    Seq::new(
        texts.len(),
        |i: int| IndexOp::Add { shard, local: (offset_begin + i) as u64, text: texts[i] },
    )
}

/// An empty query matches nothing: with no query token texts, no document
/// satisfies the any-term predicate.
pub proof fn lemma_any_result_empty_query(snap: Seq<SpecDoc>, shard: u64)
    ensures
        any_result(snap, shard, Seq::<Seq<char>>::empty()) == Seq::<u64>::empty(),
    decreases snap.len(),
{
    if snap.len() > 0 {
        lemma_any_result_empty_query(snap.drop_first(), shard);
        assert(!any_match(snap[0].text, Seq::<Seq<char>>::empty()));
        assert(Seq::<u64>::empty() + Seq::<u64>::empty() =~= Seq::<u64>::empty());
    }
}

/// A document satisfies at most as many clauses as the query has tokens.
pub proof fn lemma_clauses_matched_le(text: Seq<char>, qtexts: Seq<Seq<char>>)
    ensures
        0 <= clauses_matched(text, qtexts) <= qtexts.len(),
    decreases qtexts.len(),
{
    if qtexts.len() > 0 {
        lemma_clauses_matched_le(text, qtexts.drop_first());
    }
}

/// A minimum-should-match threshold above the number of query tokens is
/// satisfiable by no document, so the result is empty by construction.
pub proof fn lemma_min_result_empty_above_len(
    snap: Seq<SpecDoc>,
    shard: u64,
    qtexts: Seq<Seq<char>>,
    min: int,
)
    requires
        min > qtexts.len(),
    ensures
        min_result(snap, shard, qtexts, min) == Seq::<u64>::empty(),
    decreases snap.len(),
{
    if snap.len() > 0 {
        lemma_min_result_empty_above_len(snap.drop_first(), shard, qtexts, min);
        lemma_clauses_matched_le(snap[0].text, qtexts);
        assert(!min_match(snap[0].text, qtexts, min));
        assert(Seq::<u64>::empty() + Seq::<u64>::empty() =~= Seq::<u64>::empty());
    }
}

} // verus!
