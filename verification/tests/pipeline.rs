use block_proxy::backend::select_backend;
use block_proxy::config::load_config;
use block_proxy::egress::build_pool;
use block_proxy::forward::build_target_url;
use block_proxy::forward::plan_forward;
use block_proxy::forward::SelectError;
use block_proxy::headers::filter_headers;
use block_proxy::headers::is_content_length_name;
use block_proxy::relay::relay_outcome;
use block_proxy::relay::relay_response;
use block_proxy::relay::select_error_response;
use block_proxy::relay::transport_error_response;
use block_proxy::relay::ProxyResponse;
use block_proxy::relay::SendOutcome;
use block_proxy::relay::BAD_GATEWAY;
use block_proxy::rotation::rotation_index;
use block_proxy::rotation::RotationCounter;

fn json(text: &str) -> serde_json::Value {
    serde_json::from_str::<serde_json::Value>(text).unwrap()
}

#[test]
fn load_config_keeps_fields() {
    let urls = vec!["http://a".to_string(), "http://b".to_string()];
    let proxies = vec!["http://egress:3128".to_string()];
    let c = load_config(8080, urls.clone(), proxies.clone());
    assert_eq!(c.http_port, 8080);
    assert_eq!(c.block_engine_urls, urls);
    assert_eq!(c.proxy, proxies);
}

#[test]
fn rotation_cycles_in_index_order() {
    let picked: Vec<usize> = (5usize..13).map(|c| rotation_index(c, 4)).collect();
    assert_eq!(picked, vec![1, 2, 3, 0, 1, 2, 3, 0]);
}

#[test]
fn rotation_counter_sequence() {
    let mut counter = RotationCounter::new();
    assert_eq!(counter.next_index(3), 0);
    assert_eq!(counter.next_index(3), 1);
    assert_eq!(counter.next_index(3), 2);
    assert_eq!(counter.next_index(3), 0);
    assert_eq!(counter.count, 4);
}

#[test]
fn rotation_counter_wraps_at_limit() {
    let mut counter = RotationCounter { count: usize::MAX };
    let i = counter.next_index(2);
    assert_eq!(i, usize::MAX % 2);
    assert_eq!(counter.count, 0);
}

#[test]
fn pool_holds_one_client_per_address() {
    let addresses = vec![
        "http://127.0.0.1:3128".to_string(),
        "socks5://127.0.0.1:1080".to_string(),
    ];
    let pool = build_pool(&addresses).unwrap();
    assert_eq!(pool.len(), 2);

    let empty: Vec<String> = vec![];
    assert_eq!(build_pool(&empty).unwrap().len(), 0);
}

#[test]
fn rejected_address_aborts_pool_construction() {
    let addresses = vec![
        "http://127.0.0.1:3128".to_string(),
        "not a proxy address".to_string(),
    ];
    let err = build_pool(&addresses).unwrap_err();
    assert_eq!(err.index, 1);
}

#[test]
fn content_length_name_matching() {
    assert!(is_content_length_name("content-length"));
    assert!(is_content_length_name("Content-Length"));
    assert!(is_content_length_name("CONTENT-LENGTH"));
    assert!(!is_content_length_name("content-length-x"));
    assert!(!is_content_length_name("content_length"));
    assert!(!is_content_length_name("content-lengt"));
    assert!(!is_content_length_name(""));
}

#[test]
fn filter_drops_only_content_length() {
    let headers = vec![
        ("Content-Length".to_string(), "42".to_string()),
        ("Accept".to_string(), "*/*".to_string()),
        ("CONTENT-LENGTH".to_string(), "7".to_string()),
        ("X-Custom".to_string(), "a b c".to_string()),
        ("content-length".to_string(), "1".to_string()),
        ("Authorization".to_string(), "Bearer t".to_string()),
    ];
    let out = filter_headers(&headers);
    assert_eq!(
        out,
        vec![
            ("Accept".to_string(), "*/*".to_string()),
            ("X-Custom".to_string(), "a b c".to_string()),
            ("Authorization".to_string(), "Bearer t".to_string()),
        ]
    );
}

#[test]
fn build_target_url_joins_backend_and_path() {
    let url = build_target_url("http://engine.example:8080", "bundles");
    assert_eq!(url, "http://engine.example:8080/bundles");
}

#[test]
fn empty_backend_list_rejected_before_any_send() {
    let urls: Vec<String> = vec![];
    let headers = vec![("Accept".to_string(), "*/*".to_string())];
    let r = plan_forward(
        "POST".to_string(),
        "bundles",
        &headers,
        json("{}"),
        &urls,
        3,
        0,
    );
    match r {
        Err(SelectError::NoBackend) => {}
        _ => panic!("expected the no-backend error"),
    }
    match select_error_response(&SelectError::NoBackend) {
        ProxyResponse::Text { status, body } => {
            assert_eq!(status, BAD_GATEWAY);
            assert_eq!(status, 502);
            assert!(body.contains("No block engine URLs available"));
        }
        _ => panic!("expected a text response"),
    }
}

#[test]
fn empty_egress_pool_rejected_with_distinct_cause() {
    let urls = vec!["http://a".to_string()];
    let headers: Vec<(String, String)> = vec![];
    let r = plan_forward(
        "POST".to_string(),
        "bundles",
        &headers,
        json("{}"),
        &urls,
        0,
        7,
    );
    match r {
        Err(SelectError::NoEgress) => {}
        _ => panic!("expected the no-egress error"),
    }
    match select_error_response(&SelectError::NoEgress) {
        ProxyResponse::Text { status, body } => {
            assert_eq!(status, 502);
            assert!(!body.contains("No block engine URLs available"));
        }
        _ => panic!("expected a text response"),
    }
}

#[test]
fn plan_forward_builds_the_outbound_request() {
    let urls = vec!["http://engine".to_string()];
    let headers = vec![
        ("content-length".to_string(), "11".to_string()),
        ("Accept".to_string(), "*/*".to_string()),
    ];
    let body = json("{\"tip\":1000}");
    let plan = plan_forward(
        "POST".to_string(),
        "api/v1/bundles",
        &headers,
        body.clone(),
        &urls,
        2,
        5,
    )
    .unwrap();
    assert_eq!(plan.method, "POST");
    assert_eq!(plan.target_url, "http://engine/api/v1/bundles");
    assert_eq!(plan.egress_index, 1);
    assert_eq!(
        plan.headers,
        vec![("Accept".to_string(), "*/*".to_string())]
    );
    assert_eq!(plan.body, body);
}

#[test]
fn backend_selection_hits_every_url() {
    let urls = vec![
        "http://a".to_string(),
        "http://b".to_string(),
        "http://c".to_string(),
    ];
    let mut seen = [false; 3];
    for _ in 0..300 {
        let i = select_backend(&urls).unwrap();
        assert!(i < 3);
        seen[i] = true;
    }
    assert!(seen[0] && seen[1] && seen[2]);
}

#[test]
fn backend_selection_fails_only_on_empty_list() {
    let urls: Vec<String> = vec![];
    assert!(select_backend(&urls).is_none());
    let one = vec!["http://a".to_string()];
    assert_eq!(select_backend(&one), Some(0));
}

#[test]
fn non_json_body_relayed_as_identical_text() {
    let r = relay_response(404, "route not found, sorry".to_string());
    match r {
        ProxyResponse::Text { status, body } => {
            assert_eq!(status, 404);
            assert_eq!(body, "route not found, sorry");
        }
        _ => panic!("expected a text response"),
    }
}

#[test]
fn json_body_relayed_structurally() {
    let r = relay_response(200, "{\"a\":[1,2],\"b\":null}".to_string());
    match r {
        ProxyResponse::Json { status, body } => {
            assert_eq!(status, 200);
            assert_eq!(body, json("{\"b\":null,\"a\":[1,2]}"));
        }
        _ => panic!("expected a structured response"),
    }
}

#[test]
fn echoed_body_round_trips_deep_equal() {
    let original = json("{\"txs\":[\"a\",\"b\"],\"meta\":{\"n\":3,\"ok\":true}}");
    let echoed_text = serde_json::to_string(&original).unwrap();
    match relay_response(200, echoed_text) {
        ProxyResponse::Json { status, body } => {
            assert_eq!(status, 200);
            assert_eq!(body, original);
        }
        _ => panic!("expected a structured response"),
    }
}

#[test]
fn transport_failure_becomes_bad_gateway_with_cause() {
    match transport_error_response("operation timed out") {
        ProxyResponse::Text { status, body } => {
            assert_eq!(status, 502);
            assert_eq!(body, "Request failed: operation timed out");
        }
        _ => panic!("expected a text response"),
    }
    let outcome = SendOutcome::TransportFailed {
        message: "connection refused".to_string(),
    };
    match relay_outcome(outcome) {
        ProxyResponse::Text { status, body } => {
            assert_eq!(status, BAD_GATEWAY);
            assert_eq!(body, "Request failed: connection refused");
        }
        _ => panic!("expected a text response"),
    }
}

#[test]
fn unreadable_body_replaced_by_placeholder() {
    let outcome = SendOutcome::Delivered {
        status: 200,
        body: None,
    };
    match relay_outcome(outcome) {
        ProxyResponse::Text { status, body } => {
            assert_eq!(status, 200);
            assert_eq!(body, "No body");
        }
        _ => panic!("expected a text response"),
    }
}

#[test]
fn delivered_body_relayed_under_its_own_status() {
    let outcome = SendOutcome::Delivered {
        status: 201,
        body: Some("{\"ok\":true}".to_string()),
    };
    match relay_outcome(outcome) {
        ProxyResponse::Json { status, body } => {
            assert_eq!(status, 201);
            assert_eq!(body, json("{\"ok\":true}"));
        }
        _ => panic!("expected a structured response"),
    }
}
