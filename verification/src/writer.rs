//! The write side: exclusive owner of the mutable index.
//!
//! A writer ingests documents tagged with a (segment id, local id) pair,
//! enqueues segment-scoped deletions, and publishes everything enqueued at
//! `commit`. Its model is the committed document sequence together with the
//! enqueued-but-uncommitted operation sequence; every mutation states how it
//! advances that model.
use vstd::prelude::*;

use crate::engine;
use crate::model::{apply_ops, batch_adds, string_views, IndexOp, SpecDoc};
use crate::reader::SharedTextIndexReader;
use crate::TextIndexError;

verus! {

/// Whether an analyzer configuration names the built-in standard analyzer:
/// nothing, or an empty configuration object.
pub open spec fn default_analyzer_params(s: Seq<char>) -> bool {
    s.len() == 0 || s == "{}"@
}

/// Whether the engine's schema accepts a text field name: at least one
/// character, not starting with `-`, and not colliding with the reserved
/// id fields of the shared schema.
pub open spec fn valid_field_name(s: Seq<char>) -> bool {
    s.len() > 0 && s[0] != '-' && s != "_segment_id"@ && s != "_local_doc_id"@
}

/// The model of a writer: the committed documents, the operations enqueued
/// since the last commit, and the tokenizer name its index binds to the
/// text field.
pub struct WriterView {
    pub committed: Seq<SpecDoc>,
    pub ops: Seq<IndexOp>,
    pub tokenizer_name: Seq<char>,
}

/// The writing handle over the shared index.
pub struct SharedTextIndexWriter {
    index: std::sync::Arc<tantivy::Index>,
    writer: engine::WriterHandle,
    text_field: tantivy::schema::Field,
    shard_field: tantivy::schema::Field,
    local_id_field: tantivy::schema::Field,
    tokenizer_name: String,
    committed: Ghost<Seq<SpecDoc>>,
    ops: Ghost<Seq<IndexOp>>,
}

impl View for SharedTextIndexWriter {
    type V = WriterView;

    closed spec fn view(&self) -> WriterView {
        WriterView {
            committed: self.committed@,
            ops: self.ops@,
            tokenizer_name: self.tokenizer_name@,
        }
    }
}

impl SharedTextIndexWriter {
    /// Opens a fresh, empty, in-memory shared index: a text field tokenized
    /// under `tokenizer_name` with positions kept, plus the segment-id and
    /// local-id fields; binds the standard analyzer to that name; and
    /// starts the engine's writer with the given worker thread count and
    /// overall memory budget. The analyzer configuration must name the
    /// standard analyzer, and the field name must be one the engine's
    /// schema accepts; anything else is rejected as a configuration error.
    pub fn new(
        field_name: &str,
        tokenizer_name: &str,
        analyzer_params: &str,
        num_threads: usize,
        overall_memory_budget_in_bytes: usize,
    ) -> (r: Result<Self, TextIndexError>)
        requires
            num_threads >= 1,
        ensures
            r matches Ok(w) ==> w@.committed == Seq::<SpecDoc>::empty() && w@.ops == Seq::<
                IndexOp,
            >::empty() && w@.tokenizer_name == tokenizer_name@,
            !default_analyzer_params(analyzer_params@) ==> (r matches Err(e)
                && e is InvalidAnalyzerParams),
            r matches Err(e) && e is InvalidAnalyzerParams ==> !default_analyzer_params(
                analyzer_params@,
            ),
            default_analyzer_params(analyzer_params@) && !valid_field_name(field_name@) ==> (
            r matches Err(e) && e is InvalidFieldName),
            r matches Err(e) && e is InvalidFieldName ==> !valid_field_name(field_name@),
    {
        if !(analyzer_params.is_empty() || engine::str_eq(analyzer_params, "{}")) {
            return Err(TextIndexError::InvalidAnalyzerParams);
        }
        if field_name.is_empty() || engine::starts_with_char(field_name, '-') || engine::str_eq(
            field_name,
            "_segment_id",
        ) || engine::str_eq(field_name, "_local_doc_id") {
            return Err(TextIndexError::InvalidFieldName);
        }
        let (index, text_field, shard_field, local_id_field) = engine::open_shared_index(
            field_name,
            tokenizer_name,
        );
        engine::register_standard_analyzer(&index, tokenizer_name);
        let writer = match engine::make_writer(
            &index,
            num_threads,
            overall_memory_budget_in_bytes,
        ) {
            Ok(w) => w,
            Err(m) => {
                return Err(TextIndexError::Engine(m));
            },
        };
        Ok(
            SharedTextIndexWriter {
                index: std::sync::Arc::new(index),
                writer,
                text_field,
                shard_field,
                local_id_field,
                tokenizer_name: tokenizer_name.to_owned(),
                committed: Ghost(Seq::empty()),
                ops: Ghost(Seq::empty()),
            },
        )
    }

    /// Enqueues one document for the given segment under the given local
    /// id. The document becomes visible to readers only after a commit; on
    /// an engine failure nothing is enqueued.
    pub fn add_text(&mut self, segment_id: u64, local_doc_id: u64, text: &str) -> (r: Result<
        (),
        TextIndexError,
    >)
        ensures
            r is Ok ==> final(self)@.ops == old(self)@.ops.push(
                IndexOp::Add { shard: segment_id, local: local_doc_id, text: text@ },
            ),
            r is Err ==> final(self)@.ops == old(self)@.ops,
            final(self)@.committed == old(self)@.committed,
            final(self)@.tokenizer_name == old(self)@.tokenizer_name,
    {
        match engine::enqueue_doc(
            &self.writer,
            &self.text_field,
            &self.shard_field,
            &self.local_id_field,
            segment_id,
            local_doc_id,
            text,
        ) {
            Ok(()) => {
                proof {
                    self.ops@ = self.ops@.push(
                        IndexOp::Add { shard: segment_id, local: local_doc_id, text: text@ },
                    );
                }
                Ok(())
            },
            Err(m) => Err(TextIndexError::Engine(m)),
        }
    }

    /// Enqueues one document per text for the given segment, assigning
    /// local ids `offset_begin, offset_begin + 1, ...` in input order. The
    /// batch is not atomic: a mid-batch engine failure leaves the prior
    /// texts enqueued.
    pub fn add_texts(&mut self, segment_id: u64, texts: &Vec<String>, offset_begin: u64) -> (r:
        Result<(), TextIndexError>)
        requires
            offset_begin + texts@.len() <= u64::MAX,
        ensures
            r is Ok ==> final(self)@.ops == old(self)@.ops + batch_adds(
                segment_id,
                string_views(texts@),
                offset_begin,
            ),
            r is Err ==> exists|k: int|
                0 <= k < texts@.len() && final(self)@.ops == old(self)@.ops + #[trigger] batch_adds(
                    segment_id,
                    string_views(texts@),
                    offset_begin,
                ).take(k),
            final(self)@.committed == old(self)@.committed,
            final(self)@.tokenizer_name == old(self)@.tokenizer_name,
    {
        let ghost batch = batch_adds(segment_id, string_views(texts@), offset_begin);
        let mut i: usize = 0;
        while i < texts.len()
            invariant
                i <= texts@.len(),
                offset_begin + texts@.len() <= u64::MAX,
                batch == batch_adds(segment_id, string_views(texts@), offset_begin),
                self@.ops == old(self)@.ops + batch.take(i as int),
                self@.committed == old(self)@.committed,
                self@.tokenizer_name == old(self)@.tokenizer_name,
            decreases texts@.len() - i,
        {
            let text = &texts[i];
            let local: u64 = offset_begin + (i as u64);
            match self.add_text(segment_id, local, text.as_str()) {
                Ok(()) => {
                    proof {
                        assert(batch[i as int] == IndexOp::Add {
                            shard: segment_id,
                            local,
                            text: text@,
                        });
                        assert(batch.take(i as int).push(batch[i as int]) =~= batch.take(
                            i as int + 1,
                        ));
                        assert(self@.ops =~= old(self)@.ops + batch.take(i as int + 1));
                    }
                },
                Err(e) => {
                    proof {
                        assert((i as int) < texts@.len());
                        assert(self@.ops == old(self)@.ops + batch.take(i as int));
                    }
                    return Err(e);
                },
            }
            i += 1;
        }
        proof {
            assert(batch.take(texts@.len() as int) =~= batch);
        }
        Ok(())
    }

    /// Enqueues the deletion of every document of the given segment,
    /// effective at the next commit.
    pub fn delete_segment(&mut self, segment_id: u64) -> (r: Result<(), TextIndexError>)
        ensures
            r is Ok,
            final(self)@.ops == old(self)@.ops.push(IndexOp::Delete { shard: segment_id }),
            final(self)@.committed == old(self)@.committed,
            final(self)@.tokenizer_name == old(self)@.tokenizer_name,
    {
        engine::delete_docs_by_shard(&self.writer, &self.shard_field, segment_id);
        proof {
            self.ops@ = self.ops@.push(IndexOp::Delete { shard: segment_id });
        }
        Ok(())
    }

    /// Publishes everything enqueued since the last commit, in call order,
    /// and blocks until the flush completes. All-or-nothing: on an engine
    /// failure nothing of the pending batch is published and it stays
    /// enqueued.
    pub fn commit(&mut self) -> (r: Result<(), TextIndexError>)
        ensures
            r is Ok ==> final(self)@.committed == apply_ops(old(self)@.committed, old(self)@.ops)
                && final(self)@.ops == Seq::<IndexOp>::empty(),
            r is Err ==> final(self)@ == old(self)@,
            final(self)@.tokenizer_name == old(self)@.tokenizer_name,
    {
        match engine::commit_writer(&mut self.writer) {
            Ok(()) => {
                proof {
                    self.committed@ = apply_ops(self.committed@, self.ops@);
                    self.ops@ = Seq::empty();
                }
                Ok(())
            },
            Err(m) => Err(TextIndexError::Engine(m)),
        }
    }

    /// Creates a reader over the shared index, pinned to the current
    /// committed state. The reader observes later commits only after its
    /// own explicit reload, and holds the index alive independently of this
    /// writer.
    pub fn create_reader(&self) -> (r: Result<SharedTextIndexReader, TextIndexError>)
        ensures
            r matches Ok(rd) ==> rd@.snapshot == self@.committed && rd@.tokenizer_name
                == self@.tokenizer_name,
    {
        match engine::make_manual_reader(&self.index) {
            Ok(handle) => Ok(
                SharedTextIndexReader::assemble(
                    engine::clone_index_arc(&self.index),
                    handle,
                    engine::copy_field(&self.text_field),
                    engine::copy_field(&self.shard_field),
                    engine::copy_field(&self.local_id_field),
                    self.tokenizer_name.as_str().to_owned(),
                    Ghost(self.committed@),
                ),
            ),
            Err(m) => Err(TextIndexError::Engine(m)),
        }
    }

    /// Registers an additional named analyzer on the shared index, so that
    /// query-side tokenization of other names stays consistent with the
    /// write side. The name must differ from the one bound to the text
    /// field: rebinding that name would change how later writes and
    /// queries tokenize and desynchronize the two sides, so this library
    /// refuses it outright.
    ///
    /// Relies on `TokenizerManager::register`.
    #[verifier::external_body]
    pub fn register_tokenizer(
        &self,
        tokenizer_name: &str,
        tokenizer: tantivy::tokenizer::TextAnalyzer,
    )
        requires
            tokenizer_name@ != self@.tokenizer_name,
    {
        self.index.tokenizers().register(tokenizer_name, tokenizer);
    }

    /// The writer's own handle to the shared index.
    pub closed spec fn index_handle(&self) -> std::sync::Arc<tantivy::Index> {
        self.index
    }

    /// Hands out a shared handle to the underlying index — the same index
    /// this writer mutates, not a copy; the index lives as long as any
    /// such handle.
    ///
    /// Relies on `Arc::clone`: the clone aliases the writer's own index.
    #[verifier::external_body]
    pub fn get_index(&self) -> (r: std::sync::Arc<tantivy::Index>)
        ensures
            r == self.index_handle(),
    {
        self.index.clone()
    }

    /// The tokenizer name bound to the text field of this writer's index.
    pub fn tokenizer_name(&self) -> (r: &String)
        ensures
            r@ == self@.tokenizer_name,
    {
        &self.tokenizer_name
    }
}

} // verus!
