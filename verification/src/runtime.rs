//! The Runtime endpoint: the regional `runtime.{region}.kiro.dev` host, with the
//! same headers as the other endpoints and no `x-amz-target`.

use reqwest::RequestBuilder;
use vstd::prelude::*;

use crate::context::{ContextModel, RequestContext};
use crate::headers::{
    api_headers, api_headers_spec, apply_headers, builder_decorated, has_header_named,
    headers_view, mcp_headers, mcp_headers_spec, user_agent_of, user_agent_spec,
    x_amz_user_agent_of, x_amz_user_agent_spec, Header,
};
use crate::outside::{builder_has_room, is_random_uuid_text, new_invocation_id};

verus! {

/// Name of the Runtime endpoint.
pub const RUNTIME_ENDPOINT_NAME: &'static str = "runtime";

/// The regional Kiro runtime host.
pub open spec fn runtime_host_spec(region: Seq<char>) -> Seq<char> {
    "runtime."@ + region + ".kiro.dev"@
}

/// The assistant API URL of the Runtime endpoint.
pub open spec fn runtime_api_url_spec(region: Seq<char>) -> Seq<char> {
    "https://runtime."@ + region + ".kiro.dev/generateAssistantResponse"@
}

/// The MCP URL of the Runtime endpoint.
pub open spec fn runtime_mcp_url_spec(region: Seq<char>) -> Seq<char> {
    "https://runtime."@ + region + ".kiro.dev/mcp"@
}

/// The assistant API headers of the Runtime endpoint.
pub open spec fn runtime_api_headers_spec(m: ContextModel, invocation_id: Seq<char>) -> Seq<
    (Seq<char>, Seq<char>),
> {
    api_headers_spec(
        None,
        runtime_host_spec(m.api_region),
        m,
        invocation_id,
    )
}

/// The MCP headers of the Runtime endpoint.
pub open spec fn runtime_mcp_headers_spec(m: ContextModel, invocation_id: Seq<char>) -> Seq<
    (Seq<char>, Seq<char>),
> {
    mcp_headers_spec(runtime_host_spec(m.api_region), m, invocation_id)
}

/// The Runtime endpoint.
pub struct RuntimeEndpoint;

impl RuntimeEndpoint {
    pub fn new() -> (e: Self)
        ensures
            e == RuntimeEndpoint,
    {
        RuntimeEndpoint
    }

    /// The region of the request.
    pub fn api_region<'a>(&self, ctx: &'a RequestContext<'_>) -> (r: &'a str)
        ensures
            r@ == ctx@.api_region,
            r@ == match ctx.credentials.api_region {
                Some(x) => x@,
                None => match ctx.config.api_region {
                    Some(x) => x@,
                    None => "us-east-1"@,
                },
            },
    {
        ctx.credentials.effective_api_region(ctx.config)
    }

    /// `runtime.{region}.kiro.dev`.
    pub fn host(&self, ctx: &RequestContext) -> (h: String)
        ensures
            h@ == runtime_host_spec(ctx@.api_region),
            h@ == "runtime."@ + ctx@.api_region + ".kiro.dev"@,
    {
        let mut h = String::from_str("runtime.");
        h.append(self.api_region(ctx));
        h.append(".kiro.dev");
        h
    }

    /// The `x-amz-user-agent` header value.
    pub fn x_amz_user_agent(&self, ctx: &RequestContext) -> (r: String)
        ensures
            r@ == x_amz_user_agent_spec(ctx@),
    {
        x_amz_user_agent_of(ctx)
    }

    /// The `user-agent` header value.
    pub fn user_agent(&self, ctx: &RequestContext) -> (r: String)
        ensures
            r@ == user_agent_spec(ctx@),
    {
        user_agent_of(ctx)
    }

    /// The endpoint's name, `runtime`.
    pub fn name(&self) -> (n: &'static str)
        ensures
            n@ == RUNTIME_ENDPOINT_NAME@,
    {
        RUNTIME_ENDPOINT_NAME
    }

    /// `https://runtime.{region}.kiro.dev/generateAssistantResponse`.
    pub fn api_url(&self, ctx: &RequestContext) -> (u: String)
        ensures
            u@ == runtime_api_url_spec(ctx@.api_region),
            u@ == "https://runtime."@ + ctx@.api_region + ".kiro.dev/generateAssistantResponse"@,
    {
        let mut u = String::from_str("https://runtime.");
        u.append(self.api_region(ctx));
        u.append(".kiro.dev/generateAssistantResponse");
        u
    }

    /// `https://runtime.{region}.kiro.dev/mcp`.
    pub fn mcp_url(&self, ctx: &RequestContext) -> (u: String)
        ensures
            u@ == runtime_mcp_url_spec(ctx@.api_region),
            u@ == "https://runtime."@ + ctx@.api_region + ".kiro.dev/mcp"@,
    {
        let mut u = String::from_str("https://runtime.");
        u.append(self.api_region(ctx));
        u.append(".kiro.dev/mcp");
        u
    }

    /// The assistant API headers under the invocation id `invocation_id`.
    pub fn api_headers(&self, ctx: &RequestContext, invocation_id: &str) -> (hs: Vec<Header>)
        ensures
            headers_view(hs@) == runtime_api_headers_spec(ctx@, invocation_id@),
            headers_view(hs@).contains(("host"@, "runtime."@ + ctx@.api_region + ".kiro.dev"@)),
            headers_view(hs@).contains(("amz-sdk-invocation-id"@, invocation_id@)),
            headers_view(hs@).contains(("Authorization"@, "Bearer "@ + ctx.token@)),
            match ctx.credentials.token_type {
                Some(t) => headers_view(hs@).contains(("tokentype"@, t@)),
                None => !has_header_named(headers_view(hs@), "tokentype"@),
            },
            !has_header_named(headers_view(hs@), "x-amz-target"@),
    {
        let host = self.host(ctx);
        api_headers(None, host.as_str(), ctx, invocation_id)
    }

    /// The MCP headers under the invocation id `invocation_id`.
    pub fn mcp_headers(&self, ctx: &RequestContext, invocation_id: &str) -> (hs: Vec<Header>)
        ensures
            headers_view(hs@) == runtime_mcp_headers_spec(ctx@, invocation_id@),
            headers_view(hs@).contains(("host"@, "runtime."@ + ctx@.api_region + ".kiro.dev"@)),
            headers_view(hs@).contains(("amz-sdk-invocation-id"@, invocation_id@)),
            headers_view(hs@).contains(("Authorization"@, "Bearer "@ + ctx.token@)),
            match ctx.credentials.token_type {
                Some(t) => headers_view(hs@).contains(("tokentype"@, t@)),
                None => !has_header_named(headers_view(hs@), "tokentype"@),
            },
            match ctx.credentials.profile_arn {
                Some(a) => headers_view(hs@).contains(("x-amzn-kiro-profile-arn"@, a@)),
                None => !has_header_named(headers_view(hs@), "x-amzn-kiro-profile-arn"@),
            },
            !has_header_named(headers_view(hs@), "x-amz-target"@),
    {
        let host = self.host(ctx);
        mcp_headers(host.as_str(), ctx, invocation_id)
    }

    /// The assistant API headers of a new request, under a fresh random invocation id.
    pub fn api_request_headers(&self, ctx: &RequestContext) -> (hs: Vec<Header>)
        ensures
            exists|id: Seq<char>|
                is_random_uuid_text(id) && headers_view(hs@) == #[trigger] runtime_api_headers_spec(
                    ctx@,
                    id,
                ),
    {
        let id = new_invocation_id();
        self.api_headers(ctx, id.as_str())
    }

    /// The MCP headers of a new request, under a fresh random invocation id.
    pub fn mcp_request_headers(&self, ctx: &RequestContext) -> (hs: Vec<Header>)
        ensures
            exists|id: Seq<char>|
                is_random_uuid_text(id) && headers_view(hs@) == #[trigger] runtime_mcp_headers_spec(
                    ctx@,
                    id,
                ),
    {
        let id = new_invocation_id();
        self.mcp_headers(ctx, id.as_str())
    }

    /// Puts the assistant API headers of a new request, under a fresh random
    /// invocation id, on `req`.
    pub fn decorate_api(&self, req: RequestBuilder, ctx: &RequestContext) -> (r: RequestBuilder)
        requires
            builder_has_room(req, 10),
        ensures
            exists|id: Seq<char>|
                is_random_uuid_text(id) && builder_decorated(
                    req,
                    r,
                    #[trigger] runtime_api_headers_spec(ctx@, id),
                ),
    {
        let hs = self.api_request_headers(ctx);
        let ghost id = choose|id: Seq<char>|
            is_random_uuid_text(id) && headers_view(hs@) == #[trigger] runtime_api_headers_spec(
                ctx@,
                id,
            );
        assert(hs@.len() == headers_view(hs@).len());
        let r = apply_headers(req, &hs);
        assert(is_random_uuid_text(id) && builder_decorated(req, r, runtime_api_headers_spec(ctx@, id)));
        r
    }

    /// Puts the MCP headers of a new request, under a fresh random
    /// invocation id, on `req`.
    pub fn decorate_mcp(&self, req: RequestBuilder, ctx: &RequestContext) -> (r: RequestBuilder)
        requires
            builder_has_room(req, 8),
        ensures
            exists|id: Seq<char>|
                is_random_uuid_text(id) && builder_decorated(
                    req,
                    r,
                    #[trigger] runtime_mcp_headers_spec(ctx@, id),
                ),
    {
        let hs = self.mcp_request_headers(ctx);
        let ghost id = choose|id: Seq<char>|
            is_random_uuid_text(id) && headers_view(hs@) == #[trigger] runtime_mcp_headers_spec(
                ctx@,
                id,
            );
        assert(hs@.len() == headers_view(hs@).len());
        let r = apply_headers(req, &hs);
        assert(is_random_uuid_text(id) && builder_decorated(req, r, runtime_mcp_headers_spec(ctx@, id)));
        r
    }
}

impl Default for RuntimeEndpoint {
    fn default() -> (e: Self)
        ensures
            e == RuntimeEndpoint,
    {
        Self::new()
    }
}

/// Both URLs of the Runtime endpoint are `https://` followed by its host and a path:
/// `/generateAssistantResponse` for the assistant API, `/mcp` for MCP.
pub proof fn lemma_runtime_urls_on_host(region: Seq<char>)
    ensures
        runtime_api_url_spec(region) == "https://"@ + runtime_host_spec(region)
            + "/generateAssistantResponse"@,
        runtime_mcp_url_spec(region) == "https://"@ + runtime_host_spec(region) + "/mcp"@,
{
    reveal_strlit("https://runtime.");
    reveal_strlit("https://");
    reveal_strlit("runtime.");
    reveal_strlit(".kiro.dev/generateAssistantResponse");
    reveal_strlit(".kiro.dev");
    reveal_strlit("/generateAssistantResponse");
    reveal_strlit(".kiro.dev/mcp");
    reveal_strlit("/mcp");
    assert(runtime_api_url_spec(region) =~= "https://"@ + runtime_host_spec(region)
        + "/generateAssistantResponse"@);
    assert(runtime_mcp_url_spec(region) =~= "https://"@ + runtime_host_spec(region) + "/mcp"@);
}

/// The runtime host and URLs, spelled out: for the region `r`, the host is
/// `runtime.{r}.kiro.dev` with `r` as it stands, the assistant API URL
/// `https://runtime.{r}.kiro.dev/generateAssistantResponse` and the MCP URL
/// `https://runtime.{r}.kiro.dev/mcp`; the region stands in the host right after
/// `runtime.`.
pub proof fn lemma_runtime_host_and_urls(region: Seq<char>)
    ensures
        runtime_host_spec(region) == "runtime."@ + region + ".kiro.dev"@,
        runtime_api_url_spec(region) == "https://runtime."@ + region
            + ".kiro.dev/generateAssistantResponse"@,
        runtime_mcp_url_spec(region) == "https://runtime."@ + region + ".kiro.dev/mcp"@,
        runtime_host_spec(region).len() == region.len() + 8 + 9,
        runtime_host_spec(region).subrange(8, 8 + region.len() as int) == region,
{
    reveal_strlit("runtime.");
    reveal_strlit(".kiro.dev");
    assert(runtime_host_spec(region).subrange(8, 8 + region.len() as int) =~= region);
}

/// Different regions give different runtime hosts: the host determines the region.
pub proof fn lemma_runtime_host_determines_region(r1: Seq<char>, r2: Seq<char>)
    ensures
        runtime_host_spec(r1) == runtime_host_spec(r2) ==> r1 == r2,
{
    lemma_runtime_host_and_urls(r1);
    lemma_runtime_host_and_urls(r2);
}

} // verus!
