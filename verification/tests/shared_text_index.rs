use std::collections::HashSet;

use shared_text_index::writer::SharedTextIndexWriter;

#[test]
fn test_shared_text_index_basic() {
    let mut writer = SharedTextIndexWriter::new("text", "default", "{}", 1, 50_000_000).unwrap();

    // Add docs for segment 1
    writer.add_text(1, 0, "hello world").unwrap();
    writer.add_text(1, 1, "hello rust").unwrap();

    // Add docs for segment 2
    writer.add_text(2, 0, "hello python").unwrap();
    writer.add_text(2, 1, "goodbye world").unwrap();

    writer.commit().unwrap();

    let reader = writer.create_reader().unwrap();

    // Query segment 1 for "hello"
    let results = reader.match_query(1, "hello").unwrap();
    let result_set: HashSet<u64> = results.into_iter().collect();
    assert_eq!(result_set, vec![0, 1].into_iter().collect::<HashSet<u64>>());

    // Query segment 2 for "hello"
    let results = reader.match_query(2, "hello").unwrap();
    let result_set: HashSet<u64> = results.into_iter().collect();
    assert_eq!(result_set, vec![0].into_iter().collect::<HashSet<u64>>());

    // Query segment 1 for "world"
    let results = reader.match_query(1, "world").unwrap();
    let result_set: HashSet<u64> = results.into_iter().collect();
    assert_eq!(result_set, vec![0].into_iter().collect::<HashSet<u64>>());

    // Query segment 2 for "world"
    let results = reader.match_query(2, "world").unwrap();
    let result_set: HashSet<u64> = results.into_iter().collect();
    assert_eq!(result_set, vec![1].into_iter().collect::<HashSet<u64>>());
}

#[test]
fn test_shared_text_index_segment_isolation() {
    let mut writer = SharedTextIndexWriter::new("text", "default", "{}", 1, 50_000_000).unwrap();

    // Add same text to different segments with different local_doc_ids
    writer.add_text(100, 0, "unique content").unwrap();
    writer.add_text(200, 5, "unique content").unwrap();
    writer.add_text(300, 10, "different content").unwrap();

    writer.commit().unwrap();

    let reader = writer.create_reader().unwrap();

    // Each segment should only see its own docs
    let results = reader.match_query(100, "unique").unwrap();
    assert_eq!(results, vec![0]);

    let results = reader.match_query(200, "unique").unwrap();
    assert_eq!(results, vec![5]);

    let results = reader.match_query(300, "unique").unwrap();
    assert!(results.is_empty());

    let results = reader.match_query(300, "different").unwrap();
    assert_eq!(results, vec![10]);
}

#[test]
fn test_shared_text_index_delete_segment() {
    let mut writer = SharedTextIndexWriter::new("text", "default", "{}", 1, 50_000_000).unwrap();

    writer.add_text(1, 0, "hello world").unwrap();
    writer.add_text(2, 0, "hello world").unwrap();
    writer.commit().unwrap();

    let mut reader = writer.create_reader().unwrap();

    // Both segments have data
    assert!(!reader.match_query(1, "hello").unwrap().is_empty());
    assert!(!reader.match_query(2, "hello").unwrap().is_empty());

    // Delete segment 1
    writer.delete_segment(1).unwrap();
    writer.commit().unwrap();
    reader.reload().unwrap();

    // Segment 1 should be empty, segment 2 should still have data
    assert!(reader.match_query(1, "hello").unwrap().is_empty());
    assert!(!reader.match_query(2, "hello").unwrap().is_empty());
}

#[test]
fn test_shared_text_index_phrase_match() {
    let mut writer = SharedTextIndexWriter::new("text", "default", "{}", 1, 50_000_000).unwrap();

    writer.add_text(1, 0, "hello world today").unwrap();
    writer.add_text(1, 1, "hello beautiful world").unwrap();
    writer.add_text(2, 0, "hello world").unwrap();

    writer.commit().unwrap();

    let reader = writer.create_reader().unwrap();

    // Exact phrase match with slop=0
    let results = reader.phrase_match_query(1, "hello world", 0).unwrap();
    let result_set: HashSet<u64> = results.into_iter().collect();
    assert_eq!(result_set, vec![0].into_iter().collect::<HashSet<u64>>());

    // Phrase match with slop=1 should also match "hello beautiful world"
    let results = reader.phrase_match_query(1, "hello world", 1).unwrap();
    let result_set: HashSet<u64> = results.into_iter().collect();
    assert_eq!(result_set, vec![0, 1].into_iter().collect::<HashSet<u64>>());

    // Segment 2 should have its own results
    let results = reader.phrase_match_query(2, "hello world", 0).unwrap();
    assert_eq!(results, vec![0]);
}

#[test]
fn test_shared_text_index_min_should_match() {
    let mut writer = SharedTextIndexWriter::new("text", "default", "{}", 1, 50_000_000).unwrap();

    writer.add_text(1, 0, "a b").unwrap();
    writer.add_text(1, 1, "a c").unwrap();
    writer.add_text(1, 2, "b c").unwrap();
    writer.add_text(1, 3, "a b c").unwrap();

    writer.commit().unwrap();

    let reader = writer.create_reader().unwrap();

    // min=1: any token matches
    let results = reader.match_query_with_minimum(1, "a b", 1).unwrap();
    let result_set: HashSet<u64> = results.into_iter().collect();
    assert_eq!(result_set, vec![0, 1, 2, 3].into_iter().collect::<HashSet<u64>>());

    // min=2: at least 2 tokens must match
    let results = reader.match_query_with_minimum(1, "a b c", 2).unwrap();
    let result_set: HashSet<u64> = results.into_iter().collect();
    assert_eq!(result_set, vec![0, 1, 2, 3].into_iter().collect::<HashSet<u64>>());

    // min=3: all 3 tokens must match
    let results = reader.match_query_with_minimum(1, "a b c", 3).unwrap();
    let result_set: HashSet<u64> = results.into_iter().collect();
    assert_eq!(result_set, vec![3].into_iter().collect::<HashSet<u64>>());
}
