//! The read side: a snapshot-pinned handle over the shared index that
//! composes and executes the three segment-filtered query forms.
//!
//! A reader observes one fixed committed state (its snapshot) until it is
//! explicitly reloaded; every query result is stated over that snapshot.
//! Each query form tokenizes the query string with the analyzer bound to
//! the text field, conjoins the content predicate with an exact-match filter
//! on the segment id, and returns the matching documents' local ids,
//! unordered.
use vstd::prelude::*;

use crate::engine;
use crate::laws::lemma_query_result_complete;
use crate::model::{
    any_match, any_result, clamp_min, dedup_texts, lemma_any_result_empty_query,
    lemma_dedup_contains, lemma_dedup_nonempty, lemma_min_result_empty_above_len, min_result,
    phrase_hit, phrase_hits, phrase_result, string_views, token_pairs_view, token_texts,
    tokens_of, QueryForm, SpecDoc,
};
use crate::TextIndexError;
use tantivy::collector::DocSetCollector;
use tantivy::query::{BooleanQuery, Occur, PhraseQuery, Query, TermQuery};
use tantivy::schema::IndexRecordOption;
use tantivy::Term;

verus! {

/// The model of a reader: the committed documents its snapshot holds, and
/// the tokenizer name its index binds to the text field.
pub struct ReaderView {
    pub snapshot: Seq<SpecDoc>,
    pub tokenizer_name: Seq<char>,
}

/// A read handle over the shared index, pinned to one committed snapshot.
pub struct SharedTextIndexReader {
    index: std::sync::Arc<tantivy::Index>,
    handle: tantivy::IndexReader,
    text_field: tantivy::schema::Field,
    shard_field: tantivy::schema::Field,
    local_id_field: tantivy::schema::Field,
    tokenizer_name: String,
    snapshot: Ghost<Seq<SpecDoc>>,
}

impl View for SharedTextIndexReader {
    type V = ReaderView;

    closed spec fn view(&self) -> ReaderView {
        ReaderView { snapshot: self.snapshot@, tokenizer_name: self.tokenizer_name@ }
    }
}

/// Collects the token texts of a tokenized query, in order.
fn collect_texts(toks: &Vec<(String, usize)>) -> (r: Vec<String>)
    ensures
        string_views(r@) == token_texts(token_pairs_view(toks@)),
{
    let ghost all = token_texts(token_pairs_view(toks@));
    let mut out: Vec<String> = Vec::new();
    let mut i: usize = 0;
    while i < toks.len()
        invariant
            i <= toks@.len(),
            all == token_texts(token_pairs_view(toks@)),
            out@.len() == i,
            string_views(out@) == all.take(i as int),
        decreases toks@.len() - i,
    {
        let pair = &toks[i];
        out.push(pair.0.as_str().to_owned());
        proof {
            assert(string_views(out@) =~= all.take(i + 1)) by {
                assert(all[i as int] == toks@[i as int].0@);
            }
        }
        i += 1;
    }
    proof {
        assert(all.take(toks@.len() as int) =~= all);
    }
    out
}

/// Whether a term list already holds the given text.
fn contains_text(v: &Vec<String>, t: &str) -> (r: bool)
    ensures
        r == string_views(v@).contains(t@),
{
    let mut j: usize = 0;
    while j < v.len()
        invariant
            j <= v@.len(),
            forall|k: int| 0 <= k < j ==> #[trigger] string_views(v@)[k] != t@,
        decreases v@.len() - j,
    {
        let s = &v[j];
        if engine::str_eq(s.as_str(), t) {
            proof {
                assert(string_views(v@)[j as int] == t@);
                assert(string_views(v@).contains(t@));
            }
            return true;
        }
        j += 1;
    }
    proof {
        if string_views(v@).contains(t@) {
            let k = choose|k: int|
                0 <= k < string_views(v@).len() && string_views(v@)[k] == t@;
            assert(string_views(v@)[k] != t@);
        }
    }
    false
}

/// Keeps the first occurrence of each query token text, in order.
fn dedup_terms(terms: &Vec<String>) -> (r: Vec<String>)
    ensures
        string_views(r@) == dedup_texts(string_views(terms@)),
{
    let ghost all = string_views(terms@);
    let mut out: Vec<String> = Vec::new();
    let mut i: usize = 0;
    while i < terms.len()
        invariant
            i <= terms@.len(),
            all == string_views(terms@),
            string_views(out@) == dedup_texts(all.take(i as int)),
        decreases terms@.len() - i,
    {
        let t = &terms[i];
        let dup = contains_text(&out, t.as_str());
        proof {
            assert(all.take(i + 1).drop_last() =~= all.take(i as int));
            assert(all.take(i + 1).last() == all[i as int]);
            assert(all[i as int] == terms@[i as int]@);
            lemma_dedup_contains(all.take(i as int), all[i as int]);
        }
        if !dup {
            out.push(t.as_str().to_owned());
            proof {
                assert(string_views(out@) =~= dedup_texts(all.take(i as int)).push(
                    all[i as int],
                ));
            }
        }
        i += 1;
    }
    proof {
        assert(all.take(all.len() as int) =~= all);
    }
    out
}

impl SharedTextIndexReader {
    /// Builds a reader around an engine handle pinned to the given model
    /// snapshot.
    pub(crate) fn assemble(
        index: std::sync::Arc<tantivy::Index>,
        handle: tantivy::IndexReader,
        text_field: tantivy::schema::Field,
        shard_field: tantivy::schema::Field,
        local_id_field: tantivy::schema::Field,
        tokenizer_name: String,
        Ghost(snapshot): Ghost<Seq<SpecDoc>>,
    ) -> (r: Self)
        ensures
            r@.snapshot == snapshot,
            r@.tokenizer_name == tokenizer_name@,
    {
        SharedTextIndexReader {
            index,
            handle,
            text_field,
            shard_field,
            local_id_field,
            tokenizer_name,
            snapshot: Ghost(snapshot),
        }
    }

    /// Advances this reader's snapshot to the index's current committed
    /// state. Nothing is recorded about the new snapshot's contents:
    /// results of later queries are stated over it as it now is. On
    /// failure the engine keeps serving the previously pinned state, so
    /// the snapshot is unchanged.
    ///
    /// Relies on `tantivy::IndexReader::reload`, which stores the new
    /// searcher only on success.
    #[verifier::external_body]
    pub fn reload(&mut self) -> (r: Result<(), TextIndexError>)
        ensures
            final(self)@.tokenizer_name == old(self)@.tokenizer_name,
            r is Err ==> final(self)@.snapshot == old(self)@.snapshot,
    {
        self.handle.reload().map_err(|e| TextIndexError::Engine(e.to_string()))
    }

    /// Executes the disjunction of the given terms, conjoined with the
    /// segment filter, and reads the matching documents' local ids back
    /// from the `_local_doc_id` column.
    ///
    /// Relies on `BooleanQuery::{new_multiterms_query, new}`, `TermQuery`,
    /// `Searcher::search` with `DocSetCollector` (one hit per live
    /// document, scoring off), and `FastFieldReaders::u64`.
    #[verifier::external_body]
    fn search_any(&self, segment_id: u64, terms: &Vec<String>) -> (r: Result<Vec<u64>, String>)
        requires
            terms@.len() >= 1,
        ensures
            r matches Ok(ids) ==> ids@.to_multiset() == any_result(
                self@.snapshot,
                segment_id,
                string_views(terms@),
            ).to_multiset(),
    {
        let ts = terms.iter().map(|t| Term::from_field_text(self.text_field, t)).collect();
        let tq = BooleanQuery::new_multiterms_query(ts);
        let sf = TermQuery::new(
            Term::from_field_u64(self.shard_field, segment_id),
            IndexRecordOption::Basic,
        );
        let q = BooleanQuery::new(vec![(Occur::Must, Box::new(tq)), (Occur::Must, Box::new(sf))]);
        self.run_collect(&q)
    }

    /// Executes the disjunction of the given terms under a
    /// minimum-should-match threshold (a repeated term contributes one
    /// clause per occurrence), conjoined with the segment filter.
    ///
    /// Relies on `BooleanQuery::{with_minimum_required_clauses, new}`,
    /// `TermQuery`, `Searcher::search` with `DocSetCollector`, and
    /// `FastFieldReaders::u64`. The threshold must not exceed the clause
    /// count: the engine's single-clause fast path returns the lone
    /// clause's scorer without consulting the threshold, so the caller
    /// computes the unsatisfiable case itself.
    #[verifier::external_body]
    fn search_min(&self, segment_id: u64, terms: &Vec<String>, min: usize) -> (r: Result<
        Vec<u64>,
        String,
    >)
        requires
            terms@.len() >= 1,
            min >= 1,
            min <= terms@.len(),
        ensures
            r matches Ok(ids) ==> ids@.to_multiset() == min_result(
                self@.snapshot,
                segment_id,
                string_views(terms@),
                min as int,
            ).to_multiset(),
    {
        let mut subs: Vec<(Occur, Box<dyn Query>)> = Vec::new();
        for t in terms.iter() {
            let term = Term::from_field_text(self.text_field, t);
            subs.push((Occur::Should, Box::new(TermQuery::new(term, IndexRecordOption::Basic))));
        }
        let tq = BooleanQuery::with_minimum_required_clauses(subs, min);
        let sf = TermQuery::new(
            Term::from_field_u64(self.shard_field, segment_id),
            IndexRecordOption::Basic,
        );
        let q = BooleanQuery::new(vec![(Occur::Must, Box::new(tq)), (Occur::Must, Box::new(sf))]);
        self.run_collect(&q)
    }

    /// Executes the positional phrase predicate over the given (text,
    /// position) query tokens within the slop budget, conjoined with the
    /// segment filter.
    ///
    /// Relies on `PhraseQuery::new_with_offset_and_slop` (which demands at
    /// least two tokens), `BooleanQuery::new`, `TermQuery`,
    /// `Searcher::search` with `DocSetCollector`, and
    /// `FastFieldReaders::u64`. The phrase evaluation intersects the query
    /// terms' postings before checking positions, so every hit holds the
    /// query's tokens — in particular it satisfies the any-term predicate.
    #[verifier::external_body]
    fn search_phrase(&self, segment_id: u64, toks: &Vec<(String, usize)>, slop: u32) -> (r: Result<
        Vec<u64>,
        String,
    >)
        requires
            toks@.len() >= 2,
        ensures
            r matches Ok(ids) ==> ids@.to_multiset() == phrase_hits(
                self@.snapshot,
                segment_id,
                token_pairs_view(toks@),
                slop,
            ).to_multiset(),
            r matches Ok(ids) ==> forall|i: int|
                0 <= i < ids@.len() ==> exists|j: int|
                    #![trigger self@.snapshot[j]]
                    0 <= j < self@.snapshot.len() && self@.snapshot[j].shard == segment_id
                        && self@.snapshot[j].local == #[trigger] ids@[i] && phrase_hit(
                        self@.snapshot[j].text,
                        token_pairs_view(toks@),
                        slop,
                    ) && any_match(
                        self@.snapshot[j].text,
                        token_texts(token_pairs_view(toks@)),
                    ),
    {
        let ts: Vec<(usize, Term)> = toks
            .iter()
            .map(|(t, p)| (*p, Term::from_field_text(self.text_field, t)))
            .collect();
        let pq = PhraseQuery::new_with_offset_and_slop(ts, slop);
        let sf = TermQuery::new(
            Term::from_field_u64(self.shard_field, segment_id),
            IndexRecordOption::Basic,
        );
        let q = BooleanQuery::new(vec![(Occur::Must, Box::new(pq)), (Occur::Must, Box::new(sf))]);
        self.run_collect(&q)
    }

    /// Runs a prepared query on this reader's pinned searcher and maps each
    /// matching document to its `_local_doc_id` column value, one hit per
    /// document, partition by partition.
    ///
    /// Relies on `Searcher::search` with `DocSetCollector`,
    /// `Searcher::segment_reader`, `FastFieldReaders::u64` and
    /// `Column::first`.
    #[verifier::external_body]
    fn run_collect(&self, q: &BooleanQuery) -> (r: Result<Vec<u64>, String>) {
        let s = self.handle.searcher();
        let addrs = s.search(q, &DocSetCollector).map_err(|e| e.to_string())?;
        let mut out: Vec<u64> = Vec::new();
        for a in addrs {
            let col = s
                .segment_reader(a.segment_ord)
                .fast_fields()
                .u64("_local_doc_id")
                .map_err(|e| e.to_string())?;
            out.extend(col.first(a.doc_id));
        }
        Ok(out)
    }

    /// Any-term match over one segment: documents of the segment containing
    /// at least one token of the query string. A query that tokenizes to
    /// nothing matches nothing, without reaching the engine.
    pub fn match_query(&self, segment_id: u64, query_str: &str) -> (r: Result<
        Vec<u64>,
        TextIndexError,
    >)
        ensures
            r matches Ok(ids) ==> ids@.to_multiset() == any_result(
                self@.snapshot,
                segment_id,
                token_texts(tokens_of(query_str@)),
            ).to_multiset(),
            tokens_of(query_str@).len() == 0 ==> (r matches Ok(ids) && ids@.len() == 0),
    {
        let toks = engine::tokenize_default(query_str);
        let terms = collect_texts(&toks);
        if terms.is_empty() {
            proof {
                assert(token_texts(tokens_of(query_str@)) =~= Seq::<Seq<char>>::empty());
                lemma_any_result_empty_query(self@.snapshot, segment_id);
            }
            return Ok(Vec::new());
        }
        match self.search_any(segment_id, &terms) {
            Ok(ids) => Ok(ids),
            Err(m) => Err(TextIndexError::Engine(m)),
        }
    }

    /// Minimum-should-match query over one segment: documents of the
    /// segment containing at least `max(1, min_should_match)` of the
    /// distinct query tokens (a repeated query token counts once). A
    /// threshold above the distinct-token count is satisfiable by no
    /// document; a query that tokenizes to nothing matches nothing,
    /// without reaching the engine.
    pub fn match_query_with_minimum(
        &self,
        segment_id: u64,
        query_str: &str,
        min_should_match: usize,
    ) -> (r: Result<Vec<u64>, TextIndexError>)
        ensures
            r matches Ok(ids) ==> ids@.to_multiset() == min_result(
                self@.snapshot,
                segment_id,
                dedup_texts(token_texts(tokens_of(query_str@))),
                clamp_min(min_should_match as int),
            ).to_multiset(),
            tokens_of(query_str@).len() == 0 ==> (r matches Ok(ids) && ids@.len() == 0),
            clamp_min(min_should_match as int) > dedup_texts(
                token_texts(tokens_of(query_str@)),
            ).len() ==> (r matches Ok(ids) ==> ids@.len() == 0),
    {
        let toks = engine::tokenize_default(query_str);
        let terms_all = collect_texts(&toks);
        let ghost qtexts = token_texts(tokens_of(query_str@));
        let ghost distinct = dedup_texts(qtexts);
        if terms_all.is_empty() {
            proof {
                assert(qtexts =~= Seq::<Seq<char>>::empty());
                lemma_min_result_empty_above_len(
                    self@.snapshot,
                    segment_id,
                    distinct,
                    clamp_min(min_should_match as int),
                );
            }
            return Ok(Vec::new());
        }
        let terms = dedup_terms(&terms_all);
        proof {
            lemma_dedup_nonempty(qtexts);
        }
        let effective_min: usize = if min_should_match < 1 {
            1
        } else {
            min_should_match
        };
        if effective_min > terms.len() {
            // More required clauses than distinct tokens: no document can
            // satisfy this, so no search is needed.
            proof {
                lemma_min_result_empty_above_len(
                    self@.snapshot,
                    segment_id,
                    distinct,
                    clamp_min(min_should_match as int),
                );
            }
            return Ok(Vec::new());
        }
        match self.search_min(segment_id, &terms, effective_min) {
            Ok(ids) => Ok(ids),
            Err(m) => Err(TextIndexError::Engine(m)),
        }
    }

    /// Phrase match over one segment: documents of the segment in which
    /// the query's tokens occur in order within the slop budget. A phrase
    /// of one token is an any-term match; a query that tokenizes to
    /// nothing matches nothing, without reaching the engine. Every phrase
    /// result is also an any-term result for the same query, at any slop.
    pub fn phrase_match_query(&self, segment_id: u64, query_str: &str, slop: u32) -> (r: Result<
        Vec<u64>,
        TextIndexError,
    >)
        ensures
            r matches Ok(ids) ==> ids@.to_multiset() == phrase_result(
                self@.snapshot,
                segment_id,
                tokens_of(query_str@),
                slop,
            ).to_multiset(),
            tokens_of(query_str@).len() == 0 ==> (r matches Ok(ids) && ids@.len() == 0),
            r matches Ok(ids) ==> forall|id: u64|
                #[trigger] ids@.contains(id) ==> any_result(
                    self@.snapshot,
                    segment_id,
                    token_texts(tokens_of(query_str@)),
                ).contains(id),
    {
        let toks = engine::tokenize_default(query_str);
        let ghost qtoks = tokens_of(query_str@);
        let ghost qtexts = token_texts(qtoks);
        if toks.is_empty() {
            proof {
                assert(qtoks.len() == 0);
            }
            return Ok(Vec::new());
        }
        if toks.len() == 1 {
            let terms = collect_texts(&toks);
            proof {
                assert(string_views(terms@) =~= seq![qtoks[0].0]);
                assert(string_views(terms@) =~= qtexts);
            }
            return match self.search_any(segment_id, &terms) {
                Ok(ids) => {
                    proof {
                        ids@.to_multiset_ensures();
                        any_result(self@.snapshot, segment_id, qtexts).to_multiset_ensures();
                        assert forall|id: u64| #[trigger] ids@.contains(id) implies any_result(
                            self@.snapshot,
                            segment_id,
                            qtexts,
                        ).contains(id) by {
                            assert(ids@.to_multiset().count(id) > 0);
                        }
                    }
                    Ok(ids)
                },
                Err(m) => Err(TextIndexError::Engine(m)),
            };
        }
        match self.search_phrase(segment_id, &toks, slop) {
            Ok(ids) => {
                proof {
                    assert forall|id: u64| #[trigger] ids@.contains(id) implies any_result(
                        self@.snapshot,
                        segment_id,
                        qtexts,
                    ).contains(id) by {
                        let i = choose|i: int| 0 <= i < ids@.len() && ids@[i] == id;
                        let j = choose|j: int|
                            #![trigger self@.snapshot[j]]
                            0 <= j < self@.snapshot.len() && self@.snapshot[j].shard == segment_id
                                && self@.snapshot[j].local == ids@[i] && phrase_hit(
                                self@.snapshot[j].text,
                                token_pairs_view(toks@),
                                slop,
                            ) && any_match(
                                self@.snapshot[j].text,
                                token_texts(token_pairs_view(toks@)),
                            );
                        lemma_query_result_complete(
                            self@.snapshot,
                            segment_id,
                            QueryForm::Any { qtexts },
                            j,
                        );
                    }
                }
                Ok(ids)
            },
            Err(m) => Err(TextIndexError::Engine(m)),
        }
    }

    /// Registers an additional named analyzer on the shared index, so that
    /// queries against other fields or future schema revisions tokenize
    /// consistently with the write side. The name must differ from the one
    /// bound to the text field: rebinding that name would change how later
    /// writes and queries tokenize and desynchronize the two sides, so
    /// this library refuses it outright.
    ///
    /// Relies on `TokenizerManager::register`.
    #[verifier::external_body]
    pub fn register_tokenizer(
        &self,
        tokenizer_name: &str,
        tokenizer: tantivy::tokenizer::TextAnalyzer,
    )
        requires
            tokenizer_name@ != self@.tokenizer_name,
    {
        self.index.tokenizers().register(tokenizer_name, tokenizer);
    }

    /// The tokenizer name bound to the text field of this reader's index.
    pub fn tokenizer_name(&self) -> (r: &String)
        ensures
            r@ == self@.tokenizer_name,
    {
        &self.tokenizer_name
    }
}

} // verus!
