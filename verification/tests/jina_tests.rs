use am_workspace::jina::{default_endpoint, embed_request, embedding_order, status_error, JinaEmbedOpts};

fn opts_with_key(key: &str) -> JinaEmbedOpts {
    let mut o = JinaEmbedOpts::default();
    o.api_key = key.to_string();
    o
}

#[test]
fn default_options() {
    let o = JinaEmbedOpts::default();
    assert_eq!(o.api_key, "");
    assert_eq!(o.model, "jina-embeddings-v4");
    assert_eq!(o.task, "code.passage");
    assert_eq!(o.dimensions, 2048);
    assert!(o.truncate && o.normalized && !o.late_chunking && !o.return_multivector);
    assert_eq!(default_endpoint(), "https://api.jina.ai/v1/embeddings");
}

#[test]
fn no_passages_need_no_request() {
    assert_eq!(embed_request(&Vec::new(), &opts_with_key("")), Ok(None));
}

#[test]
fn missing_key_is_refused() {
    assert_eq!(
        embed_request(&vec!["a".to_string()], &opts_with_key("")),
        Err("JINA_API_KEY is empty; set env JINA_API_KEY or pass via CLI --jina-api-key".to_string())
    );
}

#[test]
fn request_headers_and_body() {
    let (headers, body) = embed_request(&vec!["a".to_string(), "b\"c".to_string()], &opts_with_key("k1"))
        .unwrap()
        .unwrap();
    assert_eq!(
        headers,
        vec![
            ("Accept".to_string(), "application/json".to_string()),
            ("Content-Type".to_string(), "application/json".to_string()),
            ("Authorization".to_string(), "Bearer k1".to_string()),
        ]
    );
    assert_eq!(
        body,
        r#"{"dimensions":2048,"input":["a","b\"c"],"late_chunking":false,"model":"jina-embeddings-v4","normalized":true,"return_multivector":false,"task":"code.passage","truncate":true}"#
    );
}

#[test]
fn unsuccessful_answer_error() {
    assert_eq!(
        status_error("500 Internal Server Error", "line1\nline2"),
        "Jina embeddings HTTP 500 Internal Server Error: line1 line2"
    );
    let long = "x".repeat(900);
    assert_eq!(status_error("429 Too Many Requests", &long), format!("Jina embeddings HTTP 429 Too Many Requests: {}", "x".repeat(800)));
}

#[test]
fn vectors_are_taken_by_index_stably() {
    let items = vec![(Some(2), true), (Some(0), true), (None, true), (Some(0), true)];
    assert_eq!(embedding_order(&items, 4), Ok(vec![2, 1, 3, 0]));
    assert_eq!(embedding_order(&Vec::new(), 0), Ok(vec![]));
}

#[test]
fn item_without_vector_is_an_error() {
    let items = vec![(Some(0), true), (Some(1), false)];
    assert_eq!(
        embedding_order(&items, 2),
        Err("Jina embeddings response contained an item without embedding[]".to_string())
    );
}

#[test]
fn answer_with_another_count_is_an_error() {
    let items = vec![(Some(0), true), (Some(1), true)];
    assert_eq!(
        embedding_order(&items, 3),
        Err("Jina embeddings count mismatch (expected 3, got 2).".to_string())
    );
    assert_eq!(
        embedding_order(&vec![(Some(0), false)], 2),
        Err("Jina embeddings response contained an item without embedding[]".to_string())
    );
}
