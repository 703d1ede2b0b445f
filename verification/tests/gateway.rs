use tenant_gateway::Credentials;
use tenant_gateway::GatewayResult;
use tenant_gateway::Method;
use tenant_gateway::RequestSpec;
use tenant_gateway::bearer_header;
use tenant_gateway::reduce_response;
use tenant_gateway::transport_failure;
use tenant_gateway::u16_to_decimal;

fn creds(base: &str, tenant: &str, token: &str) -> Credentials {
    Credentials {
        base_url: base.to_string(),
        tenant_id: tenant.to_string(),
        bearer_token: token.to_string(),
    }
}

#[test]
fn get_tenant_url_and_headers() {
    let spec = RequestSpec::get_tenant();
    let c = creds("https://api.example.com", "t-17", "tok");
    let r = spec.prepare(&c, None);
    assert_eq!(r.method, Method::Get);
    assert_eq!(r.url, "https://api.example.com/tenants/t-17");
    assert_eq!(r.headers.len(), 2);
    assert_eq!(r.headers[0].name, "Authorization");
    assert_eq!(r.headers[0].value, "Bearer tok");
    assert_eq!(r.headers[1].name, "Accept");
    assert_eq!(r.headers[1].value, "application/json");
    assert!(r.body.is_none());
}

#[test]
fn put_tenant_targets_bulk_customers_endpoint() {
    let spec = RequestSpec::put_tenant();
    let c = creds("https://api.example.com", "t-17", "tok");
    let payload = "{\"name\":\"acme\"}".to_string();
    let r = spec.prepare(&c, Some(payload.clone()));
    assert_eq!(r.method, Method::Post);
    assert_eq!(r.url, "https://api.example.com/mspCustomers");
    assert_eq!(r.headers.len(), 2);
    assert_eq!(r.headers[0].name, "Authorization");
    assert_eq!(r.headers[1].name, "Content-Type");
    assert_eq!(r.headers[1].value, "application/json");
    assert_eq!(r.body.as_deref(), Some(payload.as_str()));
}

#[test]
fn put_tenant_by_id_targets_tenant_endpoint() {
    let spec = RequestSpec::put_tenant_by_id();
    let c = creds("https://api.example.com", "t-17", "tok");
    let r = spec.prepare(&c, Some("{\"a\":1}".to_string()));
    assert_eq!(r.method, Method::Put);
    assert_eq!(r.url, "https://api.example.com/tenants/t-17");
}

#[test]
fn query_venues_request_shape() {
    let spec = RequestSpec::query_venues();
    let c = creds("https://api.example.com", "t-9", "secret");
    let r = spec.prepare(&c, Some("{\"page\":1}".to_string()));
    assert_eq!(r.method, Method::Post);
    assert_eq!(r.url, "https://api.example.com/venues/query");
    assert_eq!(r.headers.len(), 3);
    assert_eq!(r.headers[0].name, "Authorization");
    assert_eq!(r.headers[0].value, "Bearer secret");
    assert_eq!(r.headers[1].name, "Content-Type");
    assert_eq!(r.headers[2].name, "x-rks-tenantid");
    assert_eq!(r.headers[2].value, "t-9");
}

#[test]
fn query_wifi_networks_url() {
    let spec = RequestSpec::query_wifi_networks();
    let c = creds("https://api.example.com", "t-9", "secret");
    let r = spec.prepare(&c, Some("{}".to_string()));
    assert_eq!(r.url, "https://api.example.com/wifiNetworks/query");
    assert_eq!(r.method, Method::Post);
}

#[test]
fn query_access_points_url() {
    let spec = RequestSpec::query_access_points();
    let c = creds("https://api.example.com", "t-9", "secret");
    let r = spec.prepare(&c, Some("{}".to_string()));
    assert_eq!(r.url, "https://api.example.com/venues/aps/query");
    assert_eq!(r.headers[2].name, "x-rks-tenantid");
}

#[test]
fn body_passes_through_verbatim() {
    let spec = RequestSpec::query_venues();
    let c = creds("http://h", "t", "k");
    let payload = "{\"filters\":{\"zone\":[\"a\",\"b\"]},\"page\":2}".to_string();
    let r = spec.prepare(&c, Some(payload.clone()));
    assert_eq!(r.body, Some(payload));
}

#[test]
fn empty_body_passes_through() {
    let spec = RequestSpec::query_venues();
    let c = creds("http://h", "t", "k");
    let r = spec.prepare(&c, Some(String::new()));
    assert_eq!(r.body, Some(String::new()));
}

#[test]
fn success_response_returned_unchanged() {
    let r = reduce_response(200, "{\"id\":1}".to_string());
    assert_eq!(r, GatewayResult::Success("{\"id\":1}".to_string()));
}

#[test]
fn not_found_becomes_formatted_failure() {
    let r = reduce_response(404, "not found".to_string());
    assert_eq!(r, GatewayResult::Failure("HTTP 404: not found".to_string()));
}

#[test]
fn status_range_edges() {
    assert_eq!(
        reduce_response(199, "x".to_string()),
        GatewayResult::Failure("HTTP 199: x".to_string())
    );
    assert_eq!(reduce_response(200, "x".to_string()), GatewayResult::Success("x".to_string()));
    assert_eq!(reduce_response(299, "x".to_string()), GatewayResult::Success("x".to_string()));
    assert_eq!(
        reduce_response(300, "x".to_string()),
        GatewayResult::Failure("HTTP 300: x".to_string())
    );
    assert_eq!(
        reduce_response(500, "boom".to_string()),
        GatewayResult::Failure("HTTP 500: boom".to_string())
    );
}

#[test]
fn transport_failure_message_is_prefixed() {
    let r = transport_failure("connection refused".to_string());
    match r {
        GatewayResult::Failure(m) => {
            assert!(m.starts_with("Request failed:"));
            assert_eq!(m, "Request failed: connection refused");
        }
        GatewayResult::Success(_) => panic!("transport failure reported as success"),
    }
}

#[test]
fn decimal_formatting_exact_values() {
    assert_eq!(u16_to_decimal(0), "0");
    assert_eq!(u16_to_decimal(7), "7");
    assert_eq!(u16_to_decimal(10), "10");
    assert_eq!(u16_to_decimal(42), "42");
    assert_eq!(u16_to_decimal(100), "100");
    assert_eq!(u16_to_decimal(404), "404");
    assert_eq!(u16_to_decimal(65535), "65535");
}

#[test]
fn bearer_header_exact_value() {
    assert_eq!(bearer_header(&"abc".to_string()), "Bearer abc");
    assert_eq!(bearer_header(&String::new()), "Bearer ");
}

#[test]
fn independent_calls_do_not_share_credentials() {
    let spec_a = RequestSpec::query_venues();
    let spec_b = RequestSpec::get_tenant();
    let ca = creds("https://a.example.com", "tenant-a", "token-a");
    let cb = creds("https://b.example.com", "tenant-b", "token-b");
    let body_a = "{\"from\":\"a\"}".to_string();
    let ra = spec_a.prepare(&ca, Some(body_a.clone()));
    let rb = spec_b.prepare(&cb, None);
    assert_eq!(ra.headers[0].value, "Bearer token-a");
    assert_eq!(rb.headers[0].value, "Bearer token-b");
    assert_ne!(ra.headers[0].value, rb.headers[0].value);
    assert_eq!(ra.headers[2].value, "tenant-a");
    assert_eq!(ra.body, Some(body_a));
    assert!(rb.body.is_none());
    assert!(rb.url.contains("tenant-b"));
    assert!(!rb.url.contains("tenant-a"));
}

#[test]
fn identical_get_exchanges_reduce_identically() {
    let spec = RequestSpec::get_tenant();
    let c = creds("https://api.example.com", "t-1", "tok");
    let r1 = spec.prepare(&c, None);
    let r2 = spec.prepare(&c, None);
    assert_eq!(r1.url, r2.url);
    let out1 = reduce_response(200, "{\"id\":1}".to_string());
    let out2 = reduce_response(200, "{\"id\":1}".to_string());
    assert_eq!(out1, out2);
    assert_eq!(out1, GatewayResult::Success("{\"id\":1}".to_string()));
}
