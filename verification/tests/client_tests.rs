use querycourse::client::{details_url, query_params, search_url, ClientBuilder};
use querycourse::model::{
    Language, QueryError, DEFAULT_API_URL, DEFAULT_TIMEOUT_SECS, DEFAULT_USER_AGENT,
};
use querycourse::numbers::{parse_decimal, parse_i32};
use querycourse::strings::canonicalize_nodes;

#[test]
fn builder_defaults_are_the_documented_ones() {
    let config = ClientBuilder::new().build();

    assert_eq!(config.base_url, DEFAULT_API_URL);
    assert_eq!(config.user_agent, DEFAULT_USER_AGENT);
    assert_eq!(config.timeout_secs, DEFAULT_TIMEOUT_SECS);
    assert_eq!(config.timeout_secs, 10);
    assert_eq!(config.local_address, None);
}

#[test]
fn builder_overrides_stick() {
    let config = ClientBuilder::new()
        .api_url("https://example.com/api/".to_string())
        .user_agent("agent".to_string())
        .timeout_secs(3)
        .local_address("10.0.0.1".to_string())
        .build();

    assert_eq!(config.base_url, "https://example.com/api/");
    assert_eq!(config.user_agent, "agent");
    assert_eq!(config.timeout_secs, 3);
    assert_eq!(config.local_address.as_deref(), Some("10.0.0.1"));
}

#[test]
fn endpoint_urls_join_the_base_and_the_frozen_paths() {
    let config = ClientBuilder::new()
        .api_url("https://example.com/api/".to_string())
        .build();

    assert_eq!(
        search_url(&config).as_deref(),
        Some("https://example.com/api/courses")
    );
    assert_eq!(
        details_url(&config).as_deref(),
        Some("https://example.com/api/coursedetials")
    );
}

#[test]
fn an_unparsable_base_url_yields_nothing() {
    let config = ClientBuilder::new().api_url("not a url".to_string()).build();

    assert_eq!(search_url(&config), None);
}

#[test]
fn query_params_carry_the_three_filters() {
    let params = query_params("1122", "AT2005701", Language::En);

    assert_eq!(params.len(), 3);
    assert_eq!(params[0].name, "semester");
    assert_eq!(params[0].value, "1122");
    assert_eq!(params[1].name, "course_no");
    assert_eq!(params[1].value, "AT2005701");
    assert_eq!(params[2].name, "language");
    assert_eq!(params[2].value, "en");
}

#[test]
fn error_messages_name_their_kind() {
    let http = QueryError::HttpError("timed out".to_string());
    let parse = QueryError::ParseError("bad row".to_string());

    assert_eq!(http.message(), "HTTP Error: timed out");
    assert_eq!(parse.message(), "Parse Error: bad row");
}

#[test]
fn integers_parse_by_the_wire_grammar() {
    assert_eq!(parse_i32("9999"), Some(9999));
    assert_eq!(parse_i32("0"), Some(0));
    assert_eq!(parse_i32("-53"), Some(-53));
    assert_eq!(parse_i32("2147483647"), Some(i32::MAX));
    assert_eq!(parse_i32("-2147483648"), Some(i32::MIN));
    assert_eq!(parse_i32("2147483648"), None);
    assert_eq!(parse_i32(""), None);
    assert_eq!(parse_i32("-"), None);
    assert_eq!(parse_i32("12a"), None);
    assert_eq!(parse_i32("3.0"), None);
}

#[test]
fn decimals_parse_exactly_as_written() {
    let three = parse_decimal("3.0").unwrap();
    assert_eq!((three.int_part, three.frac, three.frac_len), (3, 0, 1));

    let half = parse_decimal("2.50").unwrap();
    assert_eq!((half.int_part, half.frac, half.frac_len), (2, 50, 2));

    let whole = parse_decimal("4").unwrap();
    assert_eq!((whole.int_part, whole.frac, whole.frac_len), (4, 0, 0));

    assert_eq!(parse_decimal(""), None);
    assert_eq!(parse_decimal("3."), None);
    assert_eq!(parse_decimal(".5"), None);
    assert_eq!(parse_decimal("1.2.3"), None);
    assert_eq!(parse_decimal("-1.0"), None);
}

#[test]
fn node_lists_canonicalize_sorted_and_deduplicated() {
    assert_eq!(canonicalize_nodes("T2,T1,R1,T1"), "R1,T1,T2");
    assert_eq!(canonicalize_nodes("R1"), "R1");
    assert_eq!(canonicalize_nodes(""), "");
    assert_eq!(canonicalize_nodes("B,A,B,A"), "A,B");
}
