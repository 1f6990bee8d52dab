//! The trusted interface to the underlying index engine (the `tantivy`
//! crate) and to the few `std` items that vstd leaves unspecified.
//!
//! Everything in this module is believed, not proved: each wrapper's body
//! only makes the named outside call and converts its arguments and result.
//! The engine's types are declared opaque; what the library knows of the
//! index contents is stated in the model (`crate::model`) and connected to
//! the engine by the contracts of the wrappers here and of the trusted
//! search methods of the reader.
use vstd::prelude::*;

use crate::model::{token_pairs_view, tokens_of};
use tantivy::schema::{IndexRecordOption, NumericOptions, TextFieldIndexing, TextOptions};
use tantivy::tokenizer::{LowerCaser, RemoveLongFilter, SimpleTokenizer, TextAnalyzer, TokenStream};
use tantivy::ReloadPolicy;

verus! {

#[verifier::external_type_specification]
#[verifier::external_body]
pub struct ExIndex(tantivy::Index);

#[verifier::external_type_specification]
#[verifier::external_body]
pub struct ExIndexReader(tantivy::IndexReader);

/// Holds the engine's `tantivy::IndexWriter`. The writer type's generic
/// parameter is bound by an engine trait, which keeps the type itself from
/// being declared to the verifier; this struct hides it instead, and the
/// wrappers below are the only doors to it.
#[verifier::external_body]
pub struct WriterHandle {
    inner: tantivy::IndexWriter,
}

#[verifier::external_type_specification]
#[verifier::external_body]
pub struct ExField(tantivy::schema::Field);

#[verifier::external_type_specification]
#[verifier::external_body]
pub struct ExBooleanQuery(tantivy::query::BooleanQuery);

#[verifier::external_type_specification]
#[verifier::external_body]
pub struct ExTextAnalyzer(tantivy::tokenizer::TextAnalyzer);

/// Relies on `str`'s `PartialEq`: two string slices are equal exactly when
/// their character sequences are.
#[verifier::external_body]
pub(crate) fn str_eq(a: &str, b: &str) -> (r: bool)
    ensures
        r == (a@ == b@),
{
    a == b
}

/// Relies on `str::starts_with` with a `char` pattern: true exactly when
/// the string's first character is the given one.
#[verifier::external_body]
pub(crate) fn starts_with_char(s: &str, c: char) -> (r: bool)
    ensures
        r == (s@.len() > 0 && s@[0] == c),
{
    s.starts_with(c)
}

/// Relies on `tantivy::schema::Field` being a plain `Copy` field handle.
#[verifier::external_body]
pub(crate) fn copy_field(f: &tantivy::schema::Field) -> (r: tantivy::schema::Field)
    ensures
        r == *f,
{
    *f
}

/// Relies on `Arc::clone`: the clone is a handle to the same index.
#[verifier::external_body]
pub(crate) fn clone_index_arc(a: &std::sync::Arc<tantivy::Index>) -> (r: std::sync::Arc<
    tantivy::Index,
>)
    ensures
        r == *a,
{
    std::sync::Arc::clone(a)
}

/// Relies on `tantivy::tokenizer::TextAnalyzer::token_stream` over the
/// standard pipeline (`SimpleTokenizer`, `RemoveLongFilter::limit(40)`,
/// `LowerCaser`), the same pipeline the index binds to its text field: the
/// returned (text, position) pairs are a function of the input text alone.
#[verifier::external_body]
pub(crate) fn tokenize_default(text: &str) -> (r: Vec<(String, usize)>)
    ensures
        token_pairs_view(r@) == tokens_of(text@),
{
    let mut analyzer = TextAnalyzer::builder(SimpleTokenizer::default())
        .filter(RemoveLongFilter::limit(40))
        .filter(LowerCaser)
        .build();
    let mut stream = analyzer.token_stream(text);
    let mut out: Vec<(String, usize)> = Vec::new();
    while stream.advance() {
        out.push((stream.token().text.clone(), stream.token().position));
    }
    out
}

/// Relies on `Schema::builder`, `SchemaBuilder::{add_text_field,
/// add_u64_field, build}` and `Index::create_in_ram`: an empty in-memory
/// index whose schema holds the tokenized text field (positions kept, field
/// norms off), the indexed-and-columnar `_segment_id` field and the
/// columnar-only `_local_doc_id` field. Returns the index and the three
/// field handles, in that order. The schema builder panics on a field name
/// that is empty, starts with `-`, or repeats an existing field's name:
/// the precondition excludes those.
#[verifier::external_body]
pub(crate) fn open_shared_index(field_name: &str, tokenizer_name: &str) -> (r: (
    tantivy::Index,
    tantivy::schema::Field,
    tantivy::schema::Field,
    tantivy::schema::Field,
))
    requires
        crate::writer::valid_field_name(field_name@),
{
    let mut b = tantivy::schema::Schema::builder();
    let ind = TextFieldIndexing::default()
        .set_tokenizer(tokenizer_name)
        .set_fieldnorms(false)
        .set_index_option(IndexRecordOption::WithFreqsAndPositions);
    let text = b.add_text_field(field_name, TextOptions::default().set_indexing_options(ind));
    let shard = b.add_u64_field("_segment_id", NumericOptions::default().set_indexed().set_fast());
    let local = b.add_u64_field("_local_doc_id", NumericOptions::default().set_fast());
    (tantivy::Index::create_in_ram(b.build()), text, shard, local)
}

/// Relies on `TokenizerManager::register`: binds the standard pipeline
/// (`SimpleTokenizer`, `RemoveLongFilter::limit(40)`, `LowerCaser`) — the
/// pipeline `tokenize_default` runs — to the given name on this index.
#[verifier::external_body]
pub(crate) fn register_standard_analyzer(index: &tantivy::Index, tokenizer_name: &str) {
    index.tokenizers().register(
        tokenizer_name,
        TextAnalyzer::builder(SimpleTokenizer::default())
            .filter(RemoveLongFilter::limit(40))
            .filter(LowerCaser)
            .build(),
    );
}

/// Relies on `Index::writer_with_num_threads`: a writer over the index with
/// the given worker thread count and overall memory budget, or the engine's
/// error (for instance a memory arena per thread outside the engine's
/// bounds). The thread count must be positive: the engine divides the
/// budget by it.
#[verifier::external_body]
pub(crate) fn make_writer(
    index: &tantivy::Index,
    num_threads: usize,
    overall_memory_budget_in_bytes: usize,
) -> (r: Result<WriterHandle, String>)
    requires
        num_threads >= 1,
{
    match index.writer_with_num_threads(num_threads, overall_memory_budget_in_bytes) {
        Ok(inner) => Ok(WriterHandle { inner }),
        Err(e) => Err(e.to_string()),
    }
}

/// Relies on `TantivyDocument::{default, add_text, add_u64}` and
/// `IndexWriter::add_document`: enqueues one document carrying the text and
/// the two id fields; on `Err` the document was not enqueued.
#[verifier::external_body]
pub(crate) fn enqueue_doc(
    w: &WriterHandle,
    text_field: &tantivy::schema::Field,
    shard_field: &tantivy::schema::Field,
    local_field: &tantivy::schema::Field,
    segment_id: u64,
    local_doc_id: u64,
    text: &str,
) -> (r: Result<(), String>)
{
    let mut doc = tantivy::TantivyDocument::default();
    doc.add_text(*text_field, text);
    doc.add_u64(*shard_field, segment_id);
    doc.add_u64(*local_field, local_doc_id);
    w.inner.add_document(doc).map(|_| ()).map_err(|e| e.to_string())
}

/// Relies on `Term::from_field_u64` and `IndexWriter::delete_term`: marks
/// for deletion, effective at the next commit, every document whose
/// `_segment_id` field equals the given value.
#[verifier::external_body]
pub(crate) fn delete_docs_by_shard(
    w: &WriterHandle,
    shard_field: &tantivy::schema::Field,
    segment_id: u64,
) {
    w.inner.delete_term(tantivy::Term::from_field_u64(*shard_field, segment_id));
}

/// Relies on `IndexWriter::commit`: flushes every enqueued add and pending
/// deletion into the live index and blocks until done; on `Err` nothing of
/// the pending batch was published.
#[verifier::external_body]
pub(crate) fn commit_writer(w: &mut WriterHandle) -> (r: Result<(), String>) {
    w.inner.commit().map(|_| ()).map_err(|e| e.to_string())
}

/// Relies on `Index::reader_builder` with `ReloadPolicy::Manual`: a reader
/// pinned to the index's current committed state, which advances only on an
/// explicit reload, never behind the caller's back.
#[verifier::external_body]
pub(crate) fn make_manual_reader(index: &tantivy::Index) -> (r: Result<
    tantivy::IndexReader,
    String,
>)
{
    index.reader_builder().reload_policy(ReloadPolicy::Manual).try_into().map_err(
        |e: tantivy::TantivyError| e.to_string(),
    )
}

} // verus!
