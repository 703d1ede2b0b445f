//! Construction of outbound requests: endpoint tables, URL resolution and
//! header assembly, all stated over `Seq<char>` views.

use vstd::prelude::*;
use vstd::string::StringExecFns;

verus! {

/// HTTP method of an outbound request.
#[derive(Clone, Copy, Debug, PartialEq, Eq, Structural)]
pub enum Method {
    Get,
    Post,
    Put,
}

/// Connection parameters supplied by the caller for one call; never stored
/// beyond the call that receives them.
#[derive(Clone, Debug)]
pub struct Credentials {
    pub base_url: String,
    pub tenant_id: String,
    pub bearer_token: String,
}

/// Immutable description of one logical operation: where the request goes
/// and which headers and body it carries.
#[derive(Clone, Debug)]
pub struct RequestSpec {
    /// HTTP method used for the exchange.
    pub method: Method,
    /// Path fragment appended to the base URL.
    pub suffix: String,
    /// Whether the tenant id is appended after the suffix.
    pub substitutes_tenant: bool,
    /// Whether a JSON body is attached (and `Content-Type` sent).
    pub requires_body: bool,
    /// Whether the tenant-scoping header `x-rks-tenantid` is sent.
    pub tenant_header: bool,
    /// Whether `Accept: application/json` is sent (read operations).
    pub accept_json: bool,
}

/// One outgoing header, name and value.
#[derive(Clone, Debug)]
pub struct Header {
    pub name: String,
    pub value: String,
}

impl View for Header {
    type V = (Seq<char>, Seq<char>);

    open spec fn view(&self) -> (Seq<char>, Seq<char>) {
        (self.name@, self.value@)
    }
}

impl DeepView for Header {
    type V = (Seq<char>, Seq<char>);

    open spec fn deep_view(&self) -> (Seq<char>, Seq<char>) {
        self@
    }
}

/// A fully resolved request, ready to be handed to an HTTP client:
/// concrete URL, ordered header list, and the JSON body text, if any.
#[derive(Clone, Debug)]
pub struct OutboundRequest {
    pub method: Method,
    pub url: String,
    pub headers: Vec<Header>,
    pub body: Option<String>,
}

/// The URL an operation resolves to: base URL, then the operation's path
/// suffix, then the tenant id where the path is tenant-scoped.
pub open spec fn spec_url(s: RequestSpec, c: Credentials) -> Seq<char> {
    c.base_url@ + s.suffix@ + (if s.substitutes_tenant {
        c.tenant_id@
    } else {
        Seq::<char>::empty()
    })
}

/// The value of the `Authorization` header for a given token.
pub open spec fn bearer_value(token: Seq<char>) -> Seq<char> {
    "Bearer "@ + token
}

/// The exact header list an operation sends, in order: always
/// `Authorization`, then `Accept` for read operations, `Content-Type` when
/// a body is sent, and the tenant-scoping header where required.
pub open spec fn spec_headers(s: RequestSpec, c: Credentials) -> Seq<(Seq<char>, Seq<char>)> {
    seq![("Authorization"@, bearer_value(c.bearer_token@))] + (if s.accept_json {
        seq![("Accept"@, "application/json"@)]
    } else {
        Seq::<(Seq<char>, Seq<char>)>::empty()
    }) + (if s.requires_body {
        seq![("Content-Type"@, "application/json"@)]
    } else {
        Seq::<(Seq<char>, Seq<char>)>::empty()
    }) + (if s.tenant_header {
        seq![("x-rks-tenantid"@, c.tenant_id@)]
    } else {
        Seq::<(Seq<char>, Seq<char>)>::empty()
    })
}

/// The body the request carries: the caller's JSON text, verbatim, when the
/// operation sends one; nothing otherwise.
pub open spec fn spec_body(s: RequestSpec, body: Option<Seq<char>>) -> Option<Seq<char>> {
    if s.requires_body {
        body
    } else {
        None
    }
}

/// Full characterization of a prepared request: method, URL, header list and
/// body are each exactly what the operation and the call's own credentials
/// and payload determine — nothing else flows in.
pub open spec fn prepared(
    s: RequestSpec,
    c: Credentials,
    body: Option<Seq<char>>,
    r: OutboundRequest,
) -> bool {
    &&& r.method == s.method
    &&& r.url@ == spec_url(s, c)
    &&& r.headers.deep_view() == spec_headers(s, c)
    &&& r.body.deep_view() == spec_body(s, body)
}

pub open spec fn is_get_tenant(s: RequestSpec) -> bool {
    &&& s.method == Method::Get
    &&& s.suffix@ == "/tenants/"@
    &&& s.substitutes_tenant
    &&& !s.requires_body
    &&& !s.tenant_header
    &&& s.accept_json
}

pub open spec fn is_put_tenant(s: RequestSpec) -> bool {
    &&& s.method == Method::Post
    &&& s.suffix@ == "/mspCustomers"@
    &&& !s.substitutes_tenant
    &&& s.requires_body
    &&& !s.tenant_header
    &&& !s.accept_json
}

pub open spec fn is_put_tenant_by_id(s: RequestSpec) -> bool {
    &&& s.method == Method::Put
    &&& s.suffix@ == "/tenants/"@
    &&& s.substitutes_tenant
    &&& s.requires_body
    &&& !s.tenant_header
    &&& !s.accept_json
}

pub open spec fn is_query_venues(s: RequestSpec) -> bool {
    &&& s.method == Method::Post
    &&& s.suffix@ == "/venues/query"@
    &&& !s.substitutes_tenant
    &&& s.requires_body
    &&& s.tenant_header
    &&& !s.accept_json
}

pub open spec fn is_query_wifi_networks(s: RequestSpec) -> bool {
    &&& s.method == Method::Post
    &&& s.suffix@ == "/wifiNetworks/query"@
    &&& !s.substitutes_tenant
    &&& s.requires_body
    &&& s.tenant_header
    &&& !s.accept_json
}

pub open spec fn is_query_access_points(s: RequestSpec) -> bool {
    &&& s.method == Method::Post
    &&& s.suffix@ == "/venues/aps/query"@
    &&& !s.substitutes_tenant
    &&& s.requires_body
    &&& s.tenant_header
    &&& !s.accept_json
}

impl RequestSpec {
    /// Read one tenant: `GET {base}/tenants/{tenantId}`.
    pub fn get_tenant() -> (s: RequestSpec)
        ensures
            is_get_tenant(s),
    {
        RequestSpec {
            method: Method::Get,
            suffix: String::from_str("/tenants/"),
            substitutes_tenant: true,
            requires_body: false,
            tenant_header: false,
            accept_json: true,
        }
    }

    /// Update a tenant through the bulk customers endpoint:
    /// `POST {base}/mspCustomers` with the payload flat, as given.
    /// A second historical variant of the same operation is
    /// [`RequestSpec::put_tenant_by_id`]; which of the two matches the
    /// upstream API must be confirmed with its owner.
    pub fn put_tenant() -> (s: RequestSpec)
        ensures
            is_put_tenant(s),
    {
        RequestSpec {
            method: Method::Post,
            suffix: String::from_str("/mspCustomers"),
            substitutes_tenant: false,
            requires_body: true,
            tenant_header: false,
            accept_json: false,
        }
    }

    /// Update one tenant in place: `PUT {base}/tenants/{tenantId}` with the
    /// tenant-shaped payload. See [`RequestSpec::put_tenant`] for the other
    /// historical variant of this operation.
    pub fn put_tenant_by_id() -> (s: RequestSpec)
        ensures
            is_put_tenant_by_id(s),
    {
        RequestSpec {
            method: Method::Put,
            suffix: String::from_str("/tenants/"),
            substitutes_tenant: true,
            requires_body: true,
            tenant_header: false,
            accept_json: false,
        }
    }

    /// Query venues: `POST {base}/venues/query`, tenant-scoped by header.
    pub fn query_venues() -> (s: RequestSpec)
        ensures
            is_query_venues(s),
    {
        RequestSpec {
            method: Method::Post,
            suffix: String::from_str("/venues/query"),
            substitutes_tenant: false,
            requires_body: true,
            tenant_header: true,
            accept_json: false,
        }
    }

    /// Query Wi-Fi networks: `POST {base}/wifiNetworks/query`, tenant-scoped
    /// by header.
    pub fn query_wifi_networks() -> (s: RequestSpec)
        ensures
            is_query_wifi_networks(s),
    {
        RequestSpec {
            method: Method::Post,
            suffix: String::from_str("/wifiNetworks/query"),
            substitutes_tenant: false,
            requires_body: true,
            tenant_header: true,
            accept_json: false,
        }
    }

    /// Query access points: `POST {base}/venues/aps/query`, tenant-scoped by
    /// header.
    pub fn query_access_points() -> (s: RequestSpec)
        ensures
            is_query_access_points(s),
    {
        RequestSpec {
            method: Method::Post,
            suffix: String::from_str("/venues/aps/query"),
            substitutes_tenant: false,
            requires_body: true,
            tenant_header: true,
            accept_json: false,
        }
    }

    /// Resolve the concrete URL for this operation under the given
    /// credentials.
    pub fn build_url(&self, creds: &Credentials) -> (r: String)
        ensures
            r@ == spec_url(*self, *creds),
    {
        let mut url = creds.base_url.clone();
        url.append(self.suffix.as_str());
        if self.substitutes_tenant {
            url.append(creds.tenant_id.as_str());
        } else {
            proof {
                assert(creds.base_url@ + self.suffix@ + Seq::<char>::empty() =~= creds.base_url@
                    + self.suffix@);
            }
        }
        url
    }

    /// Build the complete outbound request for this operation: URL, headers
    /// and body, each pinned to the operation table and this call's inputs.
    pub fn prepare(&self, creds: &Credentials, body: Option<String>) -> (r: OutboundRequest)
        requires
            self.requires_body ==> body is Some,
        ensures
            prepared(*self, *creds, body.deep_view(), r),
    {
        let url = self.build_url(creds);
        let mut headers: Vec<Header> = Vec::new();
        headers.push(
            Header {
                name: String::from_str("Authorization"),
                value: bearer_header(&creds.bearer_token),
            },
        );
        if self.accept_json {
            headers.push(
                Header {
                    name: String::from_str("Accept"),
                    value: String::from_str("application/json"),
                },
            );
        }
        if self.requires_body {
            headers.push(
                Header {
                    name: String::from_str("Content-Type"),
                    value: String::from_str("application/json"),
                },
            );
        }
        if self.tenant_header {
            headers.push(
                Header { name: String::from_str("x-rks-tenantid"), value: creds.tenant_id.clone() },
            );
        }
        proof {
            assert(headers.deep_view() =~= spec_headers(*self, *creds));
        }
        let out_body = if self.requires_body {
            body
        } else {
            None
        };
        OutboundRequest { method: self.method, url, headers, body: out_body }
    }
}

/// The `Authorization` header value for a token: `Bearer ` followed by the
/// token, verbatim.
pub fn bearer_header(token: &String) -> (r: String)
    ensures
        r@ == bearer_value(token@),
{
    let mut s = String::from_str("Bearer ");
    s.append(token.as_str());
    s
}

/// The tenant-read operation resolves to exactly
/// `base_url + "/tenants/" + tenant_id`, and the first header it sends is
/// `Authorization: Bearer <token>`.
pub proof fn law_get_tenant_request(s: RequestSpec, c: Credentials, r: OutboundRequest)
    requires
        is_get_tenant(s),
        prepared(s, c, None, r),
    ensures
        r.url@ == c.base_url@ + "/tenants/"@ + c.tenant_id@,
        r.headers.deep_view().len() > 0,
        r.headers.deep_view()[0] == ("Authorization"@, "Bearer "@ + c.bearer_token@),
{
    assert(spec_headers(s, c)[0] == ("Authorization"@, bearer_value(c.bearer_token@)));
}

/// A request sent with a body carries the caller's payload verbatim: no
/// field is added, removed or renamed on the way out.
pub proof fn law_body_verbatim(
    s: RequestSpec,
    c: Credentials,
    payload: Seq<char>,
    r: OutboundRequest,
)
    requires
        s.requires_body,
        prepared(s, c, Some(payload), r),
    ensures
        r.body.deep_view() == Some(payload),
{
}

/// Two independently prepared requests never share credential material:
/// each carries the authorization value of its own call, and calls made
/// with different tokens produce different authorization values.
pub proof fn law_no_credential_leak(
    s1: RequestSpec,
    c1: Credentials,
    b1: Option<Seq<char>>,
    r1: OutboundRequest,
    s2: RequestSpec,
    c2: Credentials,
    b2: Option<Seq<char>>,
    r2: OutboundRequest,
)
    requires
        prepared(s1, c1, b1, r1),
        prepared(s2, c2, b2, r2),
    ensures
        r1.headers.deep_view()[0].1 == bearer_value(c1.bearer_token@),
        r2.headers.deep_view()[0].1 == bearer_value(c2.bearer_token@),
        c1.bearer_token@ != c2.bearer_token@ ==> r1.headers.deep_view()[0].1
            != r2.headers.deep_view()[0].1,
        s1.requires_body && s2.requires_body ==> r1.body.deep_view() == spec_body(s1, b1)
            && r2.body.deep_view() == spec_body(s2, b2),
{
    assert(spec_headers(s1, c1)[0].1 == bearer_value(c1.bearer_token@));
    assert(spec_headers(s2, c2)[0].1 == bearer_value(c2.bearer_token@));
    if c1.bearer_token@ != c2.bearer_token@ {
        let t1 = c1.bearer_token@;
        let t2 = c2.bearer_token@;
        let p = "Bearer "@;
        if bearer_value(t1) == bearer_value(t2) {
            assert(t1.len() == t2.len()) by {
                assert((p + t1).len() == (p + t2).len());
            }
            assert(t1 =~= t2) by {
                assert forall|i: int| 0 <= i < t1.len() implies t1[i] == t2[i] by {
                    assert((p + t1)[p.len() + i] == t1[i]);
                    assert((p + t2)[p.len() + i] == t2[i]);
                }
            }
            assert(false);
        }
    }
}

} // verus!
