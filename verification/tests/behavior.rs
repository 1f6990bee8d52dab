use std::collections::HashSet;

use shared_text_index::writer::SharedTextIndexWriter;
use shared_text_index::TextIndexError;
use tantivy::tokenizer::{SimpleTokenizer, TextAnalyzer};

fn set(ids: Vec<u64>) -> HashSet<u64> {
    ids.into_iter().collect()
}

#[test]
fn test_invalid_analyzer_params_rejected() {
    let result = SharedTextIndexWriter::new("text", "default", "{\"tokenizer\": \"x\"}", 1, 50_000_000);
    assert!(matches!(result, Err(TextIndexError::InvalidAnalyzerParams)));
    // The empty configuration and the empty object both name the standard analyzer.
    assert!(SharedTextIndexWriter::new("text", "default", "", 1, 50_000_000).is_ok());
    assert!(SharedTextIndexWriter::new("text", "default", "{}", 1, 50_000_000).is_ok());
}

#[test]
fn test_invalid_field_name_rejected() {
    // The engine's schema refuses these names; the library rejects them as
    // configuration errors instead of panicking.
    for bad in ["", "-x", "_segment_id", "_local_doc_id"] {
        let result = SharedTextIndexWriter::new(bad, "default", "{}", 1, 50_000_000);
        assert!(matches!(result, Err(TextIndexError::InvalidFieldName)));
    }
    // Any other characters are fine.
    assert!(SharedTextIndexWriter::new("weird.name", "default", "{}", 1, 50_000_000).is_ok());
}

#[test]
fn test_min_should_match_counts_distinct_tokens() {
    let mut writer = SharedTextIndexWriter::new("text", "default", "{}", 1, 50_000_000).unwrap();
    writer.add_text(1, 0, "a b").unwrap();
    writer.commit().unwrap();
    let reader = writer.create_reader().unwrap();

    // "a a" has one distinct token: a threshold of two is unsatisfiable,
    // however often the token repeats in the query.
    assert!(reader.match_query_with_minimum(1, "a a", 2).unwrap().is_empty());
    // With two distinct tokens present, the same threshold is met.
    assert_eq!(reader.match_query_with_minimum(1, "a a b", 2).unwrap(), vec![0]);
}

#[test]
fn test_empty_query_matches_nothing() {
    let mut writer = SharedTextIndexWriter::new("text", "default", "{}", 1, 50_000_000).unwrap();
    writer.add_text(1, 0, "hello world").unwrap();
    writer.commit().unwrap();
    let reader = writer.create_reader().unwrap();

    // Punctuation-only input tokenizes to nothing: empty result, not a full scan.
    assert!(reader.match_query(1, "!!! ... ???").unwrap().is_empty());
    assert!(reader.match_query(1, "").unwrap().is_empty());
    assert!(reader.match_query_with_minimum(1, "...", 1).unwrap().is_empty());
    assert!(reader.phrase_match_query(1, "~~ !!", 0).unwrap().is_empty());
}

#[test]
fn test_tokenization_normalizes_case() {
    let mut writer = SharedTextIndexWriter::new("text", "default", "{}", 1, 50_000_000).unwrap();
    writer.add_text(1, 0, "HeLLo WoRLD").unwrap();
    writer.commit().unwrap();
    let reader = writer.create_reader().unwrap();

    // Write side and query side run the same lowercasing analyzer.
    assert_eq!(reader.match_query(1, "hello").unwrap(), vec![0]);
    assert_eq!(reader.match_query(1, "HELLO").unwrap(), vec![0]);
}

#[test]
fn test_add_texts_assigns_offsets() {
    let mut writer = SharedTextIndexWriter::new("text", "default", "{}", 1, 50_000_000).unwrap();
    let texts = vec!["red apple".to_owned(), "green apple".to_owned(), "blue sky".to_owned()];
    writer.add_texts(7, &texts, 10).unwrap();
    writer.commit().unwrap();
    let reader = writer.create_reader().unwrap();

    assert_eq!(set(reader.match_query(7, "apple").unwrap()), set(vec![10, 11]));
    assert_eq!(set(reader.match_query(7, "sky").unwrap()), set(vec![12]));
}

#[test]
fn test_min_should_match_clamped_to_one() {
    let mut writer = SharedTextIndexWriter::new("text", "default", "{}", 1, 50_000_000).unwrap();
    writer.add_text(1, 0, "a b").unwrap();
    writer.add_text(1, 1, "c d").unwrap();
    writer.commit().unwrap();
    let reader = writer.create_reader().unwrap();

    // A threshold of zero is clamped to one, not "match everything".
    let at_zero = set(reader.match_query_with_minimum(1, "a b", 0).unwrap());
    let at_one = set(reader.match_query_with_minimum(1, "a b", 1).unwrap());
    assert_eq!(at_zero, at_one);
    assert_eq!(at_zero, set(vec![0]));
}

#[test]
fn test_min_should_match_above_token_count() {
    let mut writer = SharedTextIndexWriter::new("text", "default", "{}", 1, 50_000_000).unwrap();
    writer.add_text(1, 0, "a b c").unwrap();
    writer.commit().unwrap();
    let reader = writer.create_reader().unwrap();

    // More required clauses than query tokens: unsatisfiable by construction.
    assert!(reader.match_query_with_minimum(1, "a b c", 4).unwrap().is_empty());
}

#[test]
fn test_phrase_of_one_token_is_any_match() {
    let mut writer = SharedTextIndexWriter::new("text", "default", "{}", 1, 50_000_000).unwrap();
    writer.add_text(1, 0, "lone word").unwrap();
    writer.add_text(1, 1, "word salad").unwrap();
    writer.commit().unwrap();
    let reader = writer.create_reader().unwrap();

    let via_phrase = set(reader.phrase_match_query(1, "word", 0).unwrap());
    let via_match = set(reader.match_query(1, "word").unwrap());
    assert_eq!(via_phrase, via_match);
    assert_eq!(via_phrase, set(vec![0, 1]));
}

#[test]
fn test_snapshot_isolation_until_reload() {
    let mut writer = SharedTextIndexWriter::new("text", "default", "{}", 1, 50_000_000).unwrap();
    writer.add_text(1, 0, "stable fact").unwrap();
    writer.commit().unwrap();
    let mut reader = writer.create_reader().unwrap();

    let before = set(reader.match_query(1, "fact").unwrap());
    assert_eq!(before, set(vec![0]));

    // A commit on the writer is invisible to the un-reloaded reader.
    writer.add_text(1, 1, "new fact").unwrap();
    writer.commit().unwrap();
    let after_commit = set(reader.match_query(1, "fact").unwrap());
    assert_eq!(after_commit, before);

    // Only an explicit reload advances the snapshot.
    reader.reload().unwrap();
    let after_reload = set(reader.match_query(1, "fact").unwrap());
    assert_eq!(after_reload, set(vec![0, 1]));
}

#[test]
fn test_register_additional_tokenizer() {
    let mut writer = SharedTextIndexWriter::new("text", "default", "{}", 1, 50_000_000).unwrap();
    assert_eq!(writer.tokenizer_name().as_str(), "default");

    // An additional analyzer may be bound to any other name, on either handle.
    let analyzer = TextAnalyzer::builder(SimpleTokenizer::default()).build();
    writer.register_tokenizer("verbatim", analyzer);

    writer.add_text(1, 0, "some text").unwrap();
    writer.commit().unwrap();
    let reader = writer.create_reader().unwrap();
    assert_eq!(reader.tokenizer_name().as_str(), "default");
    let analyzer = TextAnalyzer::builder(SimpleTokenizer::default()).build();
    reader.register_tokenizer("verbatim_read", analyzer);

    // The text field still tokenizes with the analyzer bound at creation.
    assert_eq!(reader.match_query(1, "text").unwrap(), vec![0]);
}

#[test]
fn test_deletion_leaves_other_segments_untouched() {
    let mut writer = SharedTextIndexWriter::new("text", "default", "{}", 1, 50_000_000).unwrap();
    writer.add_text(1, 0, "shared words here").unwrap();
    writer.add_text(2, 0, "shared words here").unwrap();
    writer.add_text(3, 9, "shared words here").unwrap();
    writer.commit().unwrap();

    writer.delete_segment(2).unwrap();
    writer.commit().unwrap();

    let reader = writer.create_reader().unwrap();
    assert_eq!(set(reader.match_query(1, "shared").unwrap()), set(vec![0]));
    assert!(reader.match_query(2, "shared").unwrap().is_empty());
    assert_eq!(set(reader.match_query(3, "shared").unwrap()), set(vec![9]));
}

#[test]
fn test_phrase_slop_widens_results() {
    let mut writer = SharedTextIndexWriter::new("text", "default", "{}", 1, 50_000_000).unwrap();
    writer.add_text(1, 0, "quick brown fox").unwrap();
    writer.add_text(1, 1, "quick and rather brown fox").unwrap();
    writer.commit().unwrap();
    let reader = writer.create_reader().unwrap();

    // Every result at a tighter slop stays a result at a looser one.
    let slop0 = set(reader.phrase_match_query(1, "quick brown", 0).unwrap());
    let slop1 = set(reader.phrase_match_query(1, "quick brown", 1).unwrap());
    let slop2 = set(reader.phrase_match_query(1, "quick brown", 2).unwrap());
    assert_eq!(slop0, set(vec![0]));
    assert!(slop0.is_subset(&slop1));
    assert!(slop1.is_subset(&slop2));
    assert_eq!(slop2, set(vec![0, 1]));
}

#[test]
fn test_overlong_tokens_are_dropped() {
    let mut writer = SharedTextIndexWriter::new("text", "default", "{}", 1, 50_000_000).unwrap();
    let long_word = "a".repeat(45);
    writer.add_text(1, 0, &format!("short {}", long_word)).unwrap();
    writer.commit().unwrap();
    let reader = writer.create_reader().unwrap();

    // The standard pipeline drops tokens over forty characters on both the
    // write side and the query side.
    assert_eq!(reader.match_query(1, "short").unwrap(), vec![0]);
    assert!(reader.match_query(1, &long_word).unwrap().is_empty());
}

#[test]
fn test_large_sparse_segment_ids() {
    let mut writer = SharedTextIndexWriter::new("text", "default", "{}", 1, 50_000_000).unwrap();
    writer.add_text(u64::MAX, 3, "far tenant").unwrap();
    writer.add_text(0, 4, "far tenant").unwrap();
    writer.commit().unwrap();
    let reader = writer.create_reader().unwrap();

    // Segment ids need not be dense or small.
    assert_eq!(reader.match_query(u64::MAX, "tenant").unwrap(), vec![3]);
    assert_eq!(reader.match_query(0, "tenant").unwrap(), vec![4]);
    assert!(reader.match_query(1, "tenant").unwrap().is_empty());
}

#[test]
fn test_engine_error_carries_message() {
    // A memory budget far below the engine's per-thread minimum is refused.
    let result = SharedTextIndexWriter::new("text", "default", "{}", 1, 1024);
    match result {
        Err(TextIndexError::Engine(message)) => assert!(!message.is_empty()),
        _ => panic!("expected an engine error for a tiny memory budget"),
    }
}
