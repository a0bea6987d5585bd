use gateway::error::GatewayError;
use gateway::search::{map_results, search_context, search_limit, SearchQuery, SemanticSearchResult};

fn uuid(text: &str) -> u128 {
    uuid::Uuid::parse_str(text).expect("uuid").as_u128()
}

#[test]
fn map_results_exposes_doc_id_and_legacy_file_id_alias() {
    let doc_id = uuid("aaaaaaaa-bbbb-cccc-dddd-eeeeeeeeeeee");
    let results = map_results(
        vec![SemanticSearchResult {
            score_bits: 0.9f32.to_bits(),
            title: Some("Contract".into()),
            snippet: Some("Clause text".into()),
            doc_id: Some(doc_id),
            paragraph_id: Some("p-1".into()),
            context_id: Some("42".into()),
        }],
        7,
    )
    .expect("valid vector search result");
    assert_eq!(results.len(), 1);
    assert_eq!(results[0].context_id, 42);
    assert_eq!(results[0].doc_id, doc_id);
    assert_eq!(results[0].file_id, doc_id);
    assert_eq!(results[0].evidence.as_ref().map(|e| e.doc_id), Some(doc_id));
    assert_eq!(f32::from_bits(results[0].relevance_score_bits), 0.9f32);
}

#[test]
fn map_results_skips_items_without_doc_id() {
    let results = map_results(
        vec![SemanticSearchResult {
            score_bits: 0.9f32.to_bits(),
            title: None,
            snippet: None,
            doc_id: None,
            paragraph_id: Some("p-1".into()),
            context_id: None,
        }],
        7,
    )
    .expect("valid vector search result");
    assert!(results.is_empty());
}

#[test]
fn map_results_rejects_invalid_context_id() {
    let doc_id = uuid("aaaaaaaa-bbbb-cccc-dddd-eeeeeeeeeeee");
    let result = map_results(
        vec![SemanticSearchResult {
            score_bits: 0.9f32.to_bits(),
            title: None,
            snippet: None,
            doc_id: Some(doc_id),
            paragraph_id: None,
            context_id: Some("invalid".into()),
        }],
        7,
    );
    assert!(result.is_err());
}

#[test]
fn hits_without_context_take_the_requested_one() {
    let results = map_results(
        vec![SemanticSearchResult {
            score_bits: 0,
            title: None,
            snippet: Some("s".into()),
            doc_id: Some(5),
            paragraph_id: None,
            context_id: None,
        }],
        7,
    )
    .expect("valid");
    assert_eq!(results[0].context_id, 7);
    assert_eq!(results[0].evidence.as_ref().and_then(|e| e.snippet.clone()).as_deref(), Some("s"));
}

#[test]
fn search_needs_context_and_query() {
    let q = |text: &str, context_id: Option<i32>| SearchQuery { q: text.to_string(), context_id, limit: None };
    assert!(matches!(search_context(&q("x", None)), Err(GatewayError::InvalidField { field, message })
        if field == "context_id" && message == "context_id is required for search"));
    assert!(matches!(search_context(&q(" \n ", Some(3))), Err(GatewayError::InvalidField { field, message })
        if field == "q" && message == "query cannot be empty"));
    assert_eq!(search_context(&q(" contract ", Some(3))).unwrap(), 3);
}

#[test]
fn search_limit_defaults_and_refuses_zero() {
    assert_eq!(search_limit(None).unwrap(), 20);
    assert_eq!(search_limit(Some(5)).unwrap(), 5);
    assert!(matches!(search_limit(Some(0)), Err(GatewayError::InvalidField { field, message })
        if field == "limit" && message == "limit must be greater than zero"));
}
