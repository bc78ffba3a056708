use chromatic::api::chroma::{
    auth_header, documents_from_response, is_success, ChromaClient, Document, FailedRequest,
    GetDocumentsResponse, DEFAULT_DOCUMENT_LIMIT,
};
use std::collections::HashMap;
use chromatic::api::{
    ApiVersion, ChromaError, Database, GetDocumentsRequest, HeartbeatResponse, ServerInfo, Tenant,
};

#[test]
fn api_version_names() {
    assert_eq!(ApiVersion::V1.as_str(), "v1");
    assert_eq!(ApiVersion::V2.as_str(), "v2");
    assert_eq!(ApiVersion::default(), ApiVersion::V2);
}

#[test]
fn error_messages() {
    assert_eq!(
        ChromaError::ConnectionFailed("timeout".to_string()).message(),
        "Connection failed: timeout"
    );
    assert_eq!(
        ChromaError::RequestFailed("404".to_string()).message(),
        "Request failed: 404"
    );
    assert_eq!(
        ChromaError::InvalidResponse("eof".to_string()).message(),
        "Invalid response: eof"
    );
    assert_eq!(ChromaError::RequestFailed(String::new()).message(), "Request failed: ");
}

fn client(base: &str, version: ApiVersion) -> ChromaClient {
    ChromaClient::new(base, "", "authorization", version).expect("no token, no failure")
}

#[test]
fn base_url_loses_its_trailing_slashes() {
    assert_eq!(client("http://h:8000/", ApiVersion::V2).base_url, "http://h:8000");
    assert_eq!(client("http://h:8000///", ApiVersion::V2).base_url, "http://h:8000");
    assert_eq!(client("http://h:8000", ApiVersion::V1).base_url, "http://h:8000");
    assert_eq!(client("http://h/a/", ApiVersion::V1).base_url, "http://h/a");
    assert_eq!(client("///", ApiVersion::V1).base_url, "");
    assert_eq!(client("", ApiVersion::V1).base_url, "");
    assert_eq!(client("http://h\u{e9}/", ApiVersion::V1).base_url, "http://h\u{e9}");
    assert_eq!(client("a/", ApiVersion::V1).api_version, ApiVersion::V1);
}

#[test]
fn addresses_of_the_second_version() {
    let e = client("http://h:8000/", ApiVersion::V2);
    assert_eq!(e.api_prefix(), "http://h:8000/api/v2");
    assert_eq!(e.heartbeat_url(), "http://h:8000/api/v2/heartbeat");
    assert_eq!(e.version_url(), "http://h:8000/api/v2/version");
    assert_eq!(e.tenants_url(), "http://h:8000/api/v2/tenants");
    assert_eq!(e.tenant_url("t"), "http://h:8000/api/v2/tenants/t");
    assert_eq!(e.databases_url("t"), "http://h:8000/api/v2/tenants/t/databases");
    assert_eq!(e.database_url("t", "d"), "http://h:8000/api/v2/tenants/t/databases/d");
    assert_eq!(
        e.collections_url("t", "d"),
        "http://h:8000/api/v2/tenants/t/databases/d/collections"
    );
    assert_eq!(
        e.documents_url("c", "t", "d"),
        "http://h:8000/api/v2/tenants/t/databases/d/collections/c/get"
    );
}

#[test]
fn addresses_of_the_first_version() {
    let e = client("http://h:8000", ApiVersion::V1);
    assert_eq!(e.api_prefix(), "http://h:8000/api/v1");
    assert_eq!(e.heartbeat_url(), "http://h:8000/api/v1/heartbeat");
    assert_eq!(e.tenant_url("t"), "http://h:8000/api/v1/tenants/t");
    assert_eq!(e.databases_url("t"), "http://h:8000/api/v1/databases?tenant=t");
    assert_eq!(e.database_url("t", "d"), "http://h:8000/api/v1/databases/d?tenant=t");
    assert_eq!(
        e.collections_url("t", "d"),
        "http://h:8000/api/v1/databases/d/collections?tenant=t"
    );
    assert_eq!(
        e.documents_url("c", "t", "d"),
        "http://h:8000/api/v1/databases/d/collections/c/get?tenant=t"
    );
}

#[test]
fn document_request_page() {
    assert_eq!(DEFAULT_DOCUMENT_LIMIT, 100);
    let r = GetDocumentsRequest::page(None, None);
    assert!(r.ids.is_none());
    assert_eq!(r.limit, Some(100));
    assert_eq!(r.offset, None);
    assert_eq!(r.parts, vec!["documents".to_string(), "metadatas".to_string()]);
    let r = GetDocumentsRequest::page(Some(5), Some(10));
    assert_eq!(r.limit, Some(5));
    assert_eq!(r.offset, Some(10));
    let r = GetDocumentsRequest::page(Some(0), None);
    assert_eq!(r.limit, Some(0));
}

#[test]
fn server_info_and_created_records() {
    let d = ServerInfo::default();
    assert_eq!((d.version.as_str(), d.heartbeat_ns, d.api_version.as_str()), ("", 0, ""));
    let beat = HeartbeatResponse { nanosecond_heartbeat: 42 };
    let info = ServerInfo::combine("1.0.0".to_string(), &beat, ApiVersion::V1);
    assert_eq!((info.version.as_str(), info.heartbeat_ns, info.api_version.as_str()), ("1.0.0", 42, "v1"));
    assert_eq!(Tenant::created("acme").name, "acme");
    let db = Database::created("acme", "main");
    assert_eq!((db.id.as_str(), db.name.as_str(), db.tenant.as_str()), ("", "main", "acme"));
}

#[test]
fn no_token_no_header() {
    assert_eq!(auth_header("", "authorization").unwrap(), None);
    assert_eq!(auth_header("", "x-chroma-token").unwrap(), None);
    let c = ChromaClient::new("http://h/", "", "x-chroma-token", ApiVersion::V1).unwrap();
    assert!(c.auth_header.is_none());
    assert_eq!(c.base_url, "http://h");
    assert_eq!(c.api_version, ApiVersion::V1);
}

#[test]
fn bearer_and_token_headers() {
    let h = auth_header("secret", "authorization").unwrap().unwrap();
    assert_eq!((h.name.as_str(), h.value.as_str()), ("authorization", "Bearer secret"));
    let h = auth_header("secret", "x-chroma-token").unwrap().unwrap();
    assert_eq!((h.name.as_str(), h.value.as_str()), ("x-chroma-token", "secret"));
    let h = auth_header("secret", "anything else").unwrap().unwrap();
    assert_eq!((h.name.as_str(), h.value.as_str()), ("authorization", "Bearer secret"));
    let h = auth_header("tab\tand \u{e9}", "x-chroma-token").unwrap().unwrap();
    assert_eq!(h.value, "tab\tand \u{e9}");
    let c = ChromaClient::new("http://h//", "k", "x-chroma-token", ApiVersion::V2).unwrap();
    let h = c.auth_header.clone().unwrap();
    assert_eq!((h.name.as_str(), h.value.as_str()), ("x-chroma-token", "k"));
    assert_eq!(c.heartbeat_url(), "http://h/api/v2/heartbeat");
}

#[test]
fn token_with_control_character_is_refused() {
    for token in ["line\nbreak", "bell\u{7}", "del\u{7f}", "\r"] {
        for kind in ["authorization", "x-chroma-token"] {
            match auth_header(token, kind) {
                Err(ChromaError::ConnectionFailed(text)) => {
                    assert_eq!(text, "failed to parse header value")
                }
                other => panic!("refused expected, got {:?}", other),
            }
            match ChromaClient::new("http://h", token, kind, ApiVersion::V2) {
                Err(ChromaError::ConnectionFailed(text)) => {
                    assert_eq!(text, "failed to parse header value")
                }
                other => panic!("refused expected, got {:?}", other),
            }
        }
    }
}

#[test]
fn success_is_the_two_hundreds() {
    assert!(is_success(200));
    assert!(is_success(204));
    assert!(is_success(299));
    assert!(!is_success(199));
    assert!(!is_success(300));
    assert!(!is_success(404));
    assert!(!is_success(0));
}

fn request_failed(e: ChromaError) -> String {
    match e {
        ChromaError::RequestFailed(text) => text,
        other => panic!("a failed request expected, got {:?}", other),
    }
}

#[test]
fn failures_name_the_status() {
    assert_eq!(
        request_failed(FailedRequest::Plain.failure(404)),
        "Server returned status: 404 Not Found"
    );
    assert_eq!(
        request_failed(FailedRequest::Plain.failure(500)),
        "Server returned status: 500 Internal Server Error"
    );
    assert_eq!(
        request_failed(FailedRequest::Plain.failure_with_body(503, "busy")),
        "Server returned status: 503 Service Unavailable - busy"
    );
    assert_eq!(
        request_failed(FailedRequest::Plain.failure(799)),
        "Server returned status: 799 <unknown status code>"
    );
    assert_eq!(
        request_failed(FailedRequest::GetTenant { tenant: "t" }.failure_with_body(404, "{}")),
        "Tenant 't' not found: 404 Not Found - {}"
    );
    assert_eq!(
        request_failed(
            FailedRequest::GetDatabase { tenant: "t", database: "d" }.failure_with_body(404, "")
        ),
        "Database 'd' not found in tenant 't': 404 Not Found - "
    );
    assert_eq!(
        request_failed(FailedRequest::ListDatabases { tenant: "t" }.failure_with_body(401, "no")),
        "Failed to list databases for tenant 't': 401 Unauthorized - no"
    );
    assert_eq!(
        request_failed(FailedRequest::CreateTenant { tenant: "t" }.failure_with_body(409, "dup")),
        "Failed to create tenant 't': 409 Conflict - dup"
    );
    assert_eq!(
        request_failed(
            FailedRequest::CreateDatabase { tenant: "t", database: "d" }
                .failure_with_body(400, "bad")
        ),
        "Failed to create database 'd' in tenant 't': 400 Bad Request - bad"
    );
}

#[test]
fn documents_are_put_together_by_position() {
    let mut meta = HashMap::new();
    meta.insert("k".to_string(), serde_json::Value::from(3));
    let response = GetDocumentsResponse {
        ids: vec!["a".to_string(), "b".to_string(), "c".to_string()],
        documents: Some(vec![Some("first".to_string()), None]),
        metadatas: Some(vec![None, Some(meta.clone()), None, Some(HashMap::new())]),
    };
    let docs = documents_from_response(response);
    assert_eq!(docs.len(), 3);
    assert_eq!(docs[0].id, "a");
    assert_eq!(docs[0].document.as_deref(), Some("first"));
    assert!(docs[0].metadata.is_none());
    assert_eq!(docs[1].id, "b");
    assert!(docs[1].document.is_none());
    assert_eq!(docs[1].metadata, Some(meta));
    assert_eq!(docs[2].id, "c");
    assert!(docs[2].document.is_none());
    assert!(docs[2].metadata.is_none());
}

#[test]
fn documents_without_texts_or_metadata() {
    let response = GetDocumentsResponse {
        ids: vec!["a".to_string(), "b".to_string()],
        documents: None,
        metadatas: None,
    };
    let docs = documents_from_response(response);
    assert_eq!(docs.len(), 2);
    assert!(docs.iter().all(|d| d.document.is_none() && d.metadata.is_none()));
    assert_eq!(docs[1].id, "b");
    let none = documents_from_response(GetDocumentsResponse {
        ids: Vec::new(),
        documents: Some(vec![Some("orphan".to_string())]),
        metadatas: None,
    });
    assert!(none.is_empty());
    let d = Document::default();
    assert_eq!(d.id, "");
    assert!(d.document.is_none() && d.metadata.is_none());
    let copy = docs[0].duplicate();
    assert_eq!(copy.id, "a");
}
