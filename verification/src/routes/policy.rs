use vstd::prelude::*;

verus! {

/// The HTTP methods that the API serves.
#[derive(Clone, Copy, PartialEq, Eq, Structural, Debug)]
pub enum Method {
    Get,
    Post,
    Put,
    Delete,
}

/// The endpoints of the API.
#[derive(Clone, Copy, PartialEq, Eq, Structural, Debug)]
pub enum Endpoint {
    Health,
    Register,
    Login,
    Refresh,
    ForgotPassword,
    ResetPassword,
    Logout,
    GetMe,
    ListData,
    CreateData,
}

/// The prefix of every API path.
pub const API_PREFIX: &'static str = "/api/v1";

/// The largest request body that is read, in bytes.
pub const BODY_LIMIT_BYTES: usize = 1048576;

/// The page served for paths that name no static file.
pub const FALLBACK_PAGE: &'static str = "200.html";

/// The method and path (below the API prefix) of an endpoint.
pub open spec fn spec_route(e: Endpoint) -> (Method, Seq<char>) {
    match e {
        Endpoint::Health => (Method::Get, "/health"@),
        Endpoint::Register => (Method::Post, "/auth/register"@),
        Endpoint::Login => (Method::Post, "/auth/login"@),
        Endpoint::Refresh => (Method::Post, "/auth/refresh"@),
        Endpoint::ForgotPassword => (Method::Post, "/auth/forgot-password"@),
        Endpoint::ResetPassword => (Method::Post, "/auth/reset-password"@),
        Endpoint::Logout => (Method::Post, "/auth/logout"@),
        Endpoint::GetMe => (Method::Get, "/user/me"@),
        Endpoint::ListData => (Method::Get, "/user/data"@),
        Endpoint::CreateData => (Method::Post, "/user/data"@),
    }
}

/// Whether an endpoint's handler reads a JSON request body: registration,
/// login, refresh, the two password-reset steps, logout and the creation of
/// a data item. The others only read.
pub open spec fn spec_reads_json_body(e: Endpoint) -> bool {
    e is Register || e is Login || e is Refresh || e is ForgotPassword || e is ResetPassword
        || e is Logout || e is CreateData
}

/// Whether an endpoint belongs to authentication (the account and its
/// tokens), as opposed to the health check and the user's own data.
pub open spec fn spec_is_auth_endpoint(e: Endpoint) -> bool {
    e is Register || e is Login || e is Refresh || e is ForgotPassword || e is ResetPassword
        || e is Logout
}

/// Whether an endpoint requires an authenticated user.
pub open spec fn spec_requires_auth(e: Endpoint) -> bool {
    match e {
        Endpoint::Logout | Endpoint::GetMe | Endpoint::ListData | Endpoint::CreateData => true,
        _ => false,
    }
}

impl Endpoint {
    /// The method and path, below the API prefix, under which the endpoint
    /// is served.
    pub fn route(self) -> (r: (Method, &'static str))
        ensures
            (r.0, r.1@) == spec_route(self),
            spec_reads_json_body(self) ==> r.0 == Method::Post,
            !spec_reads_json_body(self) ==> r.0 == Method::Get,
            spec_is_auth_endpoint(self) ==> "/auth/"@.is_prefix_of(r.1@),
    {
        proof {
            endpoint_methods_follow_bodies(self);
            auth_endpoints_under_auth(self);
        }
        match self {
            Endpoint::Health => (Method::Get, "/health"),
            Endpoint::Register => (Method::Post, "/auth/register"),
            Endpoint::Login => (Method::Post, "/auth/login"),
            Endpoint::Refresh => (Method::Post, "/auth/refresh"),
            Endpoint::ForgotPassword => (Method::Post, "/auth/forgot-password"),
            Endpoint::ResetPassword => (Method::Post, "/auth/reset-password"),
            Endpoint::Logout => (Method::Post, "/auth/logout"),
            Endpoint::GetMe => (Method::Get, "/user/me"),
            Endpoint::ListData => (Method::Get, "/user/data"),
            Endpoint::CreateData => (Method::Post, "/user/data"),
        }
    }

    /// Whether the endpoint requires an authenticated user (a bearer access
    /// token).
    pub fn requires_auth(self) -> (b: bool)
        ensures
            b == spec_requires_auth(self),
    {
        match self {
            Endpoint::Logout | Endpoint::GetMe | Endpoint::ListData | Endpoint::CreateData => true,
            _ => false,
        }
    }
}

/// The endpoints, in the order they are registered.
pub open spec fn spec_endpoints() -> Seq<Endpoint> {
    seq![
        Endpoint::Health,
        Endpoint::Register,
        Endpoint::Login,
        Endpoint::Refresh,
        Endpoint::ForgotPassword,
        Endpoint::ResetPassword,
        Endpoint::Logout,
        Endpoint::GetMe,
        Endpoint::ListData,
        Endpoint::CreateData,
    ]
}

/// The endpoints, in the order they are registered.
pub fn endpoints() -> (es: Vec<Endpoint>)
    ensures
        es@ == spec_endpoints(),
{
    let es = vec![
        Endpoint::Health,
        Endpoint::Register,
        Endpoint::Login,
        Endpoint::Refresh,
        Endpoint::ForgotPassword,
        Endpoint::ResetPassword,
        Endpoint::Logout,
        Endpoint::GetMe,
        Endpoint::ListData,
        Endpoint::CreateData,
    ];
    assert(es@ =~= spec_endpoints());
    es
}

/// No two endpoints share a method and a path, and every endpoint is listed.
pub proof fn routes_are_unambiguous()
    ensures
        forall|i: int, j: int|
            0 <= i < j < spec_endpoints().len() ==> spec_route(#[trigger] spec_endpoints()[i])
                != spec_route(#[trigger] spec_endpoints()[j]),
        forall|e: Endpoint| spec_endpoints().contains(e),
{
    reveal_strlit("/health");
    reveal_strlit("/auth/register");
    reveal_strlit("/auth/login");
    reveal_strlit("/auth/refresh");
    reveal_strlit("/auth/forgot-password");
    reveal_strlit("/auth/reset-password");
    reveal_strlit("/auth/logout");
    reveal_strlit("/user/me");
    reveal_strlit("/user/data");
    let es = spec_endpoints();
    assert forall|i: int, j: int| 0 <= i < j < es.len() implies spec_route(#[trigger] es[i])
        != spec_route(#[trigger] es[j]) by {
        let (mi, pi) = spec_route(es[i]);
        let (mj, pj) = spec_route(es[j]);
        if mi == mj {
            assert(pi.len() != pj.len());
        }
    }
    assert forall|e: Endpoint| spec_endpoints().contains(e) by {
        match e {
            Endpoint::Health => assert(spec_endpoints()[0] == e),
            Endpoint::Register => assert(spec_endpoints()[1] == e),
            Endpoint::Login => assert(spec_endpoints()[2] == e),
            Endpoint::Refresh => assert(spec_endpoints()[3] == e),
            Endpoint::ForgotPassword => assert(spec_endpoints()[4] == e),
            Endpoint::ResetPassword => assert(spec_endpoints()[5] == e),
            Endpoint::Logout => assert(spec_endpoints()[6] == e),
            Endpoint::GetMe => assert(spec_endpoints()[7] == e),
            Endpoint::ListData => assert(spec_endpoints()[8] == e),
            Endpoint::CreateData => assert(spec_endpoints()[9] == e),
        }
    }
}

/// The headers set on every response that does not already carry them.
pub open spec fn spec_security_headers() -> Seq<(Seq<char>, Seq<char>)> {
    seq![
        ("x-frame-options"@, "DENY"@),
        ("x-content-type-options"@, "nosniff"@),
        ("referrer-policy"@, "strict-origin-when-cross-origin"@),
    ]
}

/// The headers set on every response that does not already carry them.
pub fn security_headers() -> (hs: Vec<(&'static str, &'static str)>)
    ensures
        hs@.map_values(|h: (&'static str, &'static str)| (h.0@, h.1@)) == spec_security_headers(),
{
    let hs = vec![
        ("x-frame-options", "DENY"),
        ("x-content-type-options", "nosniff"),
        ("referrer-policy", "strict-origin-when-cross-origin"),
    ];
    assert(hs@.map_values(|h: (&'static str, &'static str)| (h.0@, h.1@))
        =~= spec_security_headers());
    hs
}

/// The methods that cross-origin requests from the frontend may use.
pub fn cors_methods() -> (ms: Vec<Method>)
    ensures
        ms@ == seq![Method::Get, Method::Post, Method::Put, Method::Delete],
{
    let ms = vec![Method::Get, Method::Post, Method::Put, Method::Delete];
    assert(ms@ =~= seq![Method::Get, Method::Post, Method::Put, Method::Delete]);
    ms
}

/// The request headers that cross-origin requests from the frontend may
/// carry.
pub fn cors_headers() -> (hs: Vec<&'static str>)
    ensures
        hs@.map_values(|h: &'static str| h@) == seq!["authorization"@, "content-type"@],
{
    let hs = vec!["authorization", "content-type"];
    assert(hs@.map_values(|h: &'static str| h@) =~= seq!["authorization"@, "content-type"@]);
    hs
}

/// The full path of an endpoint: the API prefix, then its route.
pub open spec fn spec_full_path(e: Endpoint) -> Seq<char> {
    API_PREFIX@ + spec_route(e).1
}

/// The full path of an endpoint.
pub fn full_path(e: Endpoint) -> (p: String)
    ensures
        p@ == spec_full_path(e),
{
    let mut p = API_PREFIX.to_owned();
    p.append(e.route().1);
    p
}

/// An endpoint is served by POST exactly when its handler reads a JSON body,
/// and by GET otherwise.
pub proof fn endpoint_methods_follow_bodies(e: Endpoint)
    ensures
        spec_reads_json_body(e) <==> spec_route(e).0 == Method::Post,
        !spec_reads_json_body(e) <==> spec_route(e).0 == Method::Get,
{
}

/// Every authentication endpoint is served below `/auth/`, and no other
/// endpoint is.
pub proof fn auth_endpoints_under_auth(e: Endpoint)
    ensures
        spec_is_auth_endpoint(e) <==> "/auth/"@.is_prefix_of(spec_route(e).1),
{
    reveal_strlit("/auth/");
    reveal_strlit("/auth/register");
    reveal_strlit("/auth/login");
    reveal_strlit("/auth/refresh");
    reveal_strlit("/auth/forgot-password");
    reveal_strlit("/auth/reset-password");
    reveal_strlit("/auth/logout");
    reveal_strlit("/health");
    reveal_strlit("/user/me");
    reveal_strlit("/user/data");
    let p = spec_route(e).1;
    let pre = "/auth/"@;
    if spec_is_auth_endpoint(e) {
        assert(p.subrange(0, 6) =~= pre);
        assert(pre.is_prefix_of(p));
    } else {
        assert(p[1] != pre[1]);
        if pre.is_prefix_of(p) {
            assert(p.subrange(0, 6)[1] == p[1]);
        }
    }
}

} // verus!
