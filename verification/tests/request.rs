use builder_server::request::{BuildRequest, SourceFile};

fn pairs(request: BuildRequest) -> Vec<(String, String)> {
    request.into_files().into_iter().map(|f: SourceFile| (f.path, f.content)).collect()
}

fn pair(path: &str, content: &str) -> (String, String) {
    (path.to_string(), content.to_string())
}

#[test]
fn new_request_is_empty() {
    assert!(pairs(BuildRequest::new()).is_empty());
}

#[test]
fn insert_keeps_the_order_of_new_paths() {
    let mut request = BuildRequest::new();
    request.insert("lib.rs".to_string(), "a".to_string());
    request.insert("state.rs".to_string(), "b".to_string());
    request.insert("instructions/mod.rs".to_string(), "c".to_string());
    assert_eq!(
        pairs(request),
        vec![pair("lib.rs", "a"), pair("state.rs", "b"), pair("instructions/mod.rs", "c")]
    );
}

#[test]
fn insert_replaces_the_content_of_a_known_path() {
    let mut request = BuildRequest::new();
    request.insert("lib.rs".to_string(), "old".to_string());
    request.insert("state.rs".to_string(), "b".to_string());
    request.insert("lib.rs".to_string(), "new".to_string());
    assert_eq!(pairs(request), vec![pair("lib.rs", "new"), pair("state.rs", "b")]);
}

#[test]
fn insert_tells_paths_apart_exactly() {
    let mut request = BuildRequest::new();
    request.insert("lib.rs".to_string(), "1".to_string());
    request.insert("Lib.rs".to_string(), "2".to_string());
    request.insert("./lib.rs".to_string(), "3".to_string());
    request.insert("".to_string(), "4".to_string());
    request.insert("".to_string(), "5".to_string());
    assert_eq!(
        pairs(request),
        vec![pair("lib.rs", "1"), pair("Lib.rs", "2"), pair("./lib.rs", "3"), pair("", "5")]
    );
}
