//! Tenant API gateway: builds outbound HTTP requests for a fixed set of
//! tenant-management endpoints and reduces HTTP responses into a uniform
//! success-or-failure result. The network exchange itself is performed by
//! the surrounding application; this crate holds the request construction
//! and response reduction logic.

mod request;
mod response;

pub use response::GatewayResult;
pub use response::dec_rep;
pub use response::digit_char;
pub use response::http_failure_message;
pub use response::is_success_status;
pub use response::law_get_idempotent;
pub use response::law_transport_failure_prefixed;
pub use response::reduce_response;
pub use response::reduces;
pub use response::transport_failure;
pub use response::transport_failure_message;
pub use response::u16_to_decimal;

pub use request::Credentials;
pub use request::Header;
pub use request::Method;
pub use request::OutboundRequest;
pub use request::RequestSpec;
pub use request::bearer_header;
pub use request::bearer_value;
pub use request::is_get_tenant;
pub use request::is_put_tenant;
pub use request::is_put_tenant_by_id;
pub use request::is_query_access_points;
pub use request::is_query_venues;
pub use request::is_query_wifi_networks;
pub use request::law_body_verbatim;
pub use request::law_get_tenant_request;
pub use request::law_no_credential_leak;
pub use request::prepared;
pub use request::spec_body;
pub use request::spec_headers;
pub use request::spec_url;
