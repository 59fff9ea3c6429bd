use tmdb_cli::transport::push_optional;
use tmdb_cli::{status_is_success, FetchError, Reply, Request, TIMEOUT_SECS};

fn pair(key: &str, value: &str) -> (String, String) {
    (key.to_string(), value.to_string())
}

#[test]
fn timeout_is_thirty_seconds() {
    assert_eq!(TIMEOUT_SECS, 30);
}

#[test]
fn success_range_is_two_hundred_to_two_ninety_nine() {
    assert!(!status_is_success(0));
    assert!(!status_is_success(100));
    assert!(!status_is_success(199));
    assert!(status_is_success(200));
    assert!(status_is_success(201));
    assert!(status_is_success(204));
    assert!(status_is_success(299));
    assert!(!status_is_success(300));
    assert!(!status_is_success(301));
    assert!(!status_is_success(304));
    assert!(!status_is_success(400));
    assert!(!status_is_success(404));
    assert!(!status_is_success(500));
    assert!(!status_is_success(u16::MAX));
}

#[test]
fn success_range_holds_exactly_one_hundred_codes() {
    let mut count = 0;
    for status in 0..=u16::MAX {
        if status_is_success(status) {
            count += 1;
            assert!((200..=299).contains(&status));
        }
    }
    assert_eq!(count, 100);
}

#[test]
fn demand_success_hands_out_the_body_of_a_good_reply() {
    let reply: Reply<u32, String> = Reply::Response { status: 200, body: Some(7) };
    assert_eq!(reply.demand_success(), Ok(7));
    let reply: Reply<String, String> = Reply::Response { status: 299, body: Some("x".to_string()) };
    assert_eq!(reply.demand_success(), Ok("x".to_string()));
}

#[test]
fn demand_success_reports_a_missing_response_as_transport() {
    let reply: Reply<u32, String> = Reply::NoResponse("connection refused".to_string());
    assert_eq!(
        reply.demand_success(),
        Err(FetchError::Transport("connection refused".to_string()))
    );
}

#[test]
fn demand_success_reports_a_bad_status_with_its_code() {
    let reply: Reply<u32, String> = Reply::Response { status: 404, body: None };
    assert_eq!(reply.demand_success(), Err(FetchError::Status { code: 404 }));
    let reply: Reply<u32, String> = Reply::Response { status: 500, body: None };
    assert_eq!(reply.demand_success(), Err(FetchError::Status { code: 500 }));
    let reply: Reply<u32, String> = Reply::Response { status: 301, body: None };
    assert_eq!(reply.demand_success(), Err(FetchError::Status { code: 301 }));
    let reply: Reply<u32, String> = Reply::Response { status: 199, body: None };
    assert_eq!(reply.demand_success(), Err(FetchError::Status { code: 199 }));
    let reply: Reply<u32, String> = Reply::Response { status: 300, body: None };
    assert_eq!(reply.demand_success(), Err(FetchError::Status { code: 300 }));
}

#[test]
fn demand_success_hands_the_transport_error_on_untouched() {
    // The error is any value of the transport's choosing.
    let reply: Reply<u32, (i32, bool)> = Reply::NoResponse((-7, false));
    assert_eq!(reply.demand_success(), Err(FetchError::Transport((-7, false))));
    let reply: Reply<u32, Vec<u8>> = Reply::NoResponse(vec![1, 2, 3]);
    assert_eq!(reply.demand_success(), Err(FetchError::Transport(vec![1, 2, 3])));
}

#[test]
fn demand_success_puts_the_status_before_the_body() {
    // A readable body does not rescue a response that was not a success.
    let reply: Reply<u32, String> = Reply::Response { status: 401, body: Some(1) };
    assert_eq!(reply.demand_success(), Err(FetchError::Status { code: 401 }));
}

#[test]
fn demand_success_reports_an_unreadable_body_as_decode() {
    let reply: Reply<u32, String> = Reply::Response { status: 200, body: None };
    assert_eq!(reply.demand_success(), Err(FetchError::Decode));
    let reply: Reply<u32, String> = Reply::Response { status: 204, body: None };
    assert_eq!(reply.demand_success(), Err(FetchError::Decode));
}

#[test]
fn single_request_carries_only_the_token() {
    let request = Request::single("http://h/3/movie/1".to_string(), "secret");
    assert_eq!(request.url, "http://h/3/movie/1");
    assert_eq!(request.query, vec![pair("api_key", "secret")]);
}

#[test]
fn page_request_puts_token_then_page_then_params() {
    let params = vec![pair("region", "USA"), pair("region", "FR"), pair("a", "")];
    let request = Request::page("http://h/list", "secret", 3, &params);
    assert_eq!(request.url, "http://h/list");
    assert_eq!(
        request.query,
        vec![
            pair("api_key", "secret"),
            pair("page", "3"),
            pair("region", "USA"),
            pair("region", "FR"),
            pair("a", ""),
        ]
    );
    // The parameters that were passed in are still whole.
    assert_eq!(params.len(), 3);
}

#[test]
fn page_request_without_params_has_two_pairs() {
    let request = Request::page("u", "t", u64::MAX, &Vec::new());
    assert_eq!(request.query, vec![pair("api_key", "t"), pair("page", "18446744073709551615")]);
}

#[test]
fn push_optional_adds_a_value_that_is_there() {
    let mut params = vec![pair("query", "x")];
    push_optional(&mut params, "year", &Some("2016".to_string()));
    assert_eq!(params, vec![pair("query", "x"), pair("year", "2016")]);
}

#[test]
fn push_optional_adds_nothing_for_a_missing_value() {
    let mut params = vec![pair("query", "x")];
    push_optional(&mut params, "year", &None);
    assert_eq!(params, vec![pair("query", "x")]);
}

#[test]
fn push_optional_keeps_an_empty_value_that_was_set() {
    let mut params = Vec::new();
    push_optional(&mut params, "region", &Some(String::new()));
    assert_eq!(params, vec![pair("region", "")]);
}
