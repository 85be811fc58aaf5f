//! The AmazonQ endpoint: the regional Amazon Q host, routed to the Amazon Q
//! Developer `SendMessage` operation by its `x-amz-target` header.

use reqwest::RequestBuilder;
use vstd::prelude::*;

use crate::context::{ContextModel, RequestContext};
use crate::headers::{
    api_headers, api_headers_spec, apply_headers, builder_decorated, has_header_named,
    headers_view, mcp_headers, mcp_headers_spec, user_agent_of, user_agent_spec,
    x_amz_user_agent_of, x_amz_user_agent_spec, Header,
};
use crate::outside::{builder_has_room, is_random_uuid_text, new_invocation_id};

verus! {

/// Name of the AmazonQ endpoint.
pub const AMAZONQ_ENDPOINT_NAME: &'static str = "amazonq";

/// `x-amz-target` of the AmazonQ endpoint: the Amazon Q Developer `SendMessage` operation.
pub const AMAZONQ_AMZ_TARGET: &'static str = "AmazonQDeveloperStreamingService.SendMessage";

/// The regional Amazon Q host.
pub open spec fn amazonq_host_spec(region: Seq<char>) -> Seq<char> {
    "q."@ + region + ".amazonaws.com"@
}

/// The assistant API URL of the AmazonQ endpoint.
pub open spec fn amazonq_api_url_spec(region: Seq<char>) -> Seq<char> {
    "https://q."@ + region + ".amazonaws.com/generateAssistantResponse"@
}

/// The MCP URL of the AmazonQ endpoint.
pub open spec fn amazonq_mcp_url_spec(region: Seq<char>) -> Seq<char> {
    "https://q."@ + region + ".amazonaws.com/mcp"@
}

/// The assistant API headers of the AmazonQ endpoint.
pub open spec fn amazonq_api_headers_spec(m: ContextModel, invocation_id: Seq<char>) -> Seq<
    (Seq<char>, Seq<char>),
> {
    api_headers_spec(
        Some(AMAZONQ_AMZ_TARGET@),
        amazonq_host_spec(m.api_region),
        m,
        invocation_id,
    )
}

/// The MCP headers of the AmazonQ endpoint.
pub open spec fn amazonq_mcp_headers_spec(m: ContextModel, invocation_id: Seq<char>) -> Seq<
    (Seq<char>, Seq<char>),
> {
    mcp_headers_spec(amazonq_host_spec(m.api_region), m, invocation_id)
}

/// The AmazonQ endpoint.
pub struct AmazonQEndpoint;

impl AmazonQEndpoint {
    pub fn new() -> (e: Self)
        ensures
            e == AmazonQEndpoint,
    {
        AmazonQEndpoint
    }

    /// The region of the request.
    pub fn api_region<'a>(&self, ctx: &'a RequestContext<'_>) -> (r: &'a str)
        ensures
            r@ == ctx@.api_region,
            r@ == match ctx.credentials.api_region {
                Some(x) => x@,
                None => match ctx.config.api_region {
                    Some(x) => x@,
                    None => "us-east-1"@,
                },
            },
    {
        ctx.credentials.effective_api_region(ctx.config)
    }

    /// `q.{region}.amazonaws.com`.
    pub fn host(&self, ctx: &RequestContext) -> (h: String)
        ensures
            h@ == amazonq_host_spec(ctx@.api_region),
            h@ == "q."@ + ctx@.api_region + ".amazonaws.com"@,
    {
        let mut h = String::from_str("q.");
        h.append(self.api_region(ctx));
        h.append(".amazonaws.com");
        h
    }

    /// The `x-amz-user-agent` header value.
    pub fn x_amz_user_agent(&self, ctx: &RequestContext) -> (r: String)
        ensures
            r@ == x_amz_user_agent_spec(ctx@),
    {
        x_amz_user_agent_of(ctx)
    }

    /// The `user-agent` header value.
    pub fn user_agent(&self, ctx: &RequestContext) -> (r: String)
        ensures
            r@ == user_agent_spec(ctx@),
    {
        user_agent_of(ctx)
    }

    /// The endpoint's name, `amazonq`.
    pub fn name(&self) -> (n: &'static str)
        ensures
            n@ == AMAZONQ_ENDPOINT_NAME@,
    {
        AMAZONQ_ENDPOINT_NAME
    }

    /// `https://q.{region}.amazonaws.com/generateAssistantResponse`.
    pub fn api_url(&self, ctx: &RequestContext) -> (u: String)
        ensures
            u@ == amazonq_api_url_spec(ctx@.api_region),
            u@ == "https://q."@ + ctx@.api_region + ".amazonaws.com/generateAssistantResponse"@,
    {
        let mut u = String::from_str("https://q.");
        u.append(self.api_region(ctx));
        u.append(".amazonaws.com/generateAssistantResponse");
        u
    }

    /// `https://q.{region}.amazonaws.com/mcp`.
    pub fn mcp_url(&self, ctx: &RequestContext) -> (u: String)
        ensures
            u@ == amazonq_mcp_url_spec(ctx@.api_region),
            u@ == "https://q."@ + ctx@.api_region + ".amazonaws.com/mcp"@,
    {
        let mut u = String::from_str("https://q.");
        u.append(self.api_region(ctx));
        u.append(".amazonaws.com/mcp");
        u
    }

    /// The assistant API headers under the invocation id `invocation_id`.
    pub fn api_headers(&self, ctx: &RequestContext, invocation_id: &str) -> (hs: Vec<Header>)
        ensures
            headers_view(hs@) == amazonq_api_headers_spec(ctx@, invocation_id@),
            headers_view(hs@).contains(("host"@, "q."@ + ctx@.api_region + ".amazonaws.com"@)),
            headers_view(hs@).contains(("amz-sdk-invocation-id"@, invocation_id@)),
            headers_view(hs@).contains(("Authorization"@, "Bearer "@ + ctx.token@)),
            match ctx.credentials.token_type {
                Some(t) => headers_view(hs@).contains(("tokentype"@, t@)),
                None => !has_header_named(headers_view(hs@), "tokentype"@),
            },
            headers_view(hs@).contains(("x-amz-target"@, "AmazonQDeveloperStreamingService.SendMessage"@)),
    {
        let host = self.host(ctx);
        api_headers(Some(AMAZONQ_AMZ_TARGET), host.as_str(), ctx, invocation_id)
    }

    /// The MCP headers under the invocation id `invocation_id`.
    pub fn mcp_headers(&self, ctx: &RequestContext, invocation_id: &str) -> (hs: Vec<Header>)
        ensures
            headers_view(hs@) == amazonq_mcp_headers_spec(ctx@, invocation_id@),
            headers_view(hs@).contains(("host"@, "q."@ + ctx@.api_region + ".amazonaws.com"@)),
            headers_view(hs@).contains(("amz-sdk-invocation-id"@, invocation_id@)),
            headers_view(hs@).contains(("Authorization"@, "Bearer "@ + ctx.token@)),
            match ctx.credentials.token_type {
                Some(t) => headers_view(hs@).contains(("tokentype"@, t@)),
                None => !has_header_named(headers_view(hs@), "tokentype"@),
            },
            match ctx.credentials.profile_arn {
                Some(a) => headers_view(hs@).contains(("x-amzn-kiro-profile-arn"@, a@)),
                None => !has_header_named(headers_view(hs@), "x-amzn-kiro-profile-arn"@),
            },
            !has_header_named(headers_view(hs@), "x-amz-target"@),
    {
        let host = self.host(ctx);
        mcp_headers(host.as_str(), ctx, invocation_id)
    }

    /// The assistant API headers of a new request, under a fresh random invocation id.
    pub fn api_request_headers(&self, ctx: &RequestContext) -> (hs: Vec<Header>)
        ensures
            exists|id: Seq<char>|
                is_random_uuid_text(id) && headers_view(hs@) == #[trigger] amazonq_api_headers_spec(
                    ctx@,
                    id,
                ),
    {
        let id = new_invocation_id();
        self.api_headers(ctx, id.as_str())
    }

    /// The MCP headers of a new request, under a fresh random invocation id.
    pub fn mcp_request_headers(&self, ctx: &RequestContext) -> (hs: Vec<Header>)
        ensures
            exists|id: Seq<char>|
                is_random_uuid_text(id) && headers_view(hs@) == #[trigger] amazonq_mcp_headers_spec(
                    ctx@,
                    id,
                ),
    {
        let id = new_invocation_id();
        self.mcp_headers(ctx, id.as_str())
    }

    /// Puts the assistant API headers of a new request, under a fresh random
    /// invocation id, on `req`.
    pub fn decorate_api(&self, req: RequestBuilder, ctx: &RequestContext) -> (r: RequestBuilder)
        requires
            builder_has_room(req, 10),
        ensures
            exists|id: Seq<char>|
                is_random_uuid_text(id) && builder_decorated(
                    req,
                    r,
                    #[trigger] amazonq_api_headers_spec(ctx@, id),
                ),
    {
        let hs = self.api_request_headers(ctx);
        let ghost id = choose|id: Seq<char>|
            is_random_uuid_text(id) && headers_view(hs@) == #[trigger] amazonq_api_headers_spec(
                ctx@,
                id,
            );
        assert(hs@.len() == headers_view(hs@).len());
        let r = apply_headers(req, &hs);
        assert(is_random_uuid_text(id) && builder_decorated(req, r, amazonq_api_headers_spec(ctx@, id)));
        r
    }

    /// Puts the MCP headers of a new request, under a fresh random
    /// invocation id, on `req`.
    pub fn decorate_mcp(&self, req: RequestBuilder, ctx: &RequestContext) -> (r: RequestBuilder)
        requires
            builder_has_room(req, 8),
        ensures
            exists|id: Seq<char>|
                is_random_uuid_text(id) && builder_decorated(
                    req,
                    r,
                    #[trigger] amazonq_mcp_headers_spec(ctx@, id),
                ),
    {
        let hs = self.mcp_request_headers(ctx);
        let ghost id = choose|id: Seq<char>|
            is_random_uuid_text(id) && headers_view(hs@) == #[trigger] amazonq_mcp_headers_spec(
                ctx@,
                id,
            );
        assert(hs@.len() == headers_view(hs@).len());
        let r = apply_headers(req, &hs);
        assert(is_random_uuid_text(id) && builder_decorated(req, r, amazonq_mcp_headers_spec(ctx@, id)));
        r
    }
}

impl Default for AmazonQEndpoint {
    fn default() -> (e: Self)
        ensures
            e == AmazonQEndpoint,
    {
        Self::new()
    }
}

/// Both URLs of the AmazonQ endpoint are `https://` followed by its host and a path:
/// `/generateAssistantResponse` for the assistant API, `/mcp` for MCP.
pub proof fn lemma_amazonq_urls_on_host(region: Seq<char>)
    ensures
        amazonq_api_url_spec(region) == "https://"@ + amazonq_host_spec(region)
            + "/generateAssistantResponse"@,
        amazonq_mcp_url_spec(region) == "https://"@ + amazonq_host_spec(region) + "/mcp"@,
{
    reveal_strlit("https://q.");
    reveal_strlit("https://");
    reveal_strlit("q.");
    reveal_strlit(".amazonaws.com/generateAssistantResponse");
    reveal_strlit(".amazonaws.com");
    reveal_strlit("/generateAssistantResponse");
    reveal_strlit(".amazonaws.com/mcp");
    reveal_strlit("/mcp");
    assert(amazonq_api_url_spec(region) =~= "https://"@ + amazonq_host_spec(region)
        + "/generateAssistantResponse"@);
    assert(amazonq_mcp_url_spec(region) =~= "https://"@ + amazonq_host_spec(region) + "/mcp"@);
}

/// The amazonq host and URLs, spelled out: for the region `r`, the host is
/// `q.{r}.amazonaws.com` with `r` as it stands, the assistant API URL
/// `https://q.{r}.amazonaws.com/generateAssistantResponse` and the MCP URL
/// `https://q.{r}.amazonaws.com/mcp`; the region stands in the host right after
/// `q.`.
pub proof fn lemma_amazonq_host_and_urls(region: Seq<char>)
    ensures
        amazonq_host_spec(region) == "q."@ + region + ".amazonaws.com"@,
        amazonq_api_url_spec(region) == "https://q."@ + region
            + ".amazonaws.com/generateAssistantResponse"@,
        amazonq_mcp_url_spec(region) == "https://q."@ + region + ".amazonaws.com/mcp"@,
        amazonq_host_spec(region).len() == region.len() + 2 + 14,
        amazonq_host_spec(region).subrange(2, 2 + region.len() as int) == region,
{
    reveal_strlit("q.");
    reveal_strlit(".amazonaws.com");
    assert(amazonq_host_spec(region).subrange(2, 2 + region.len() as int) =~= region);
}

/// Different regions give different amazonq hosts: the host determines the region.
pub proof fn lemma_amazonq_host_determines_region(r1: Seq<char>, r2: Seq<char>)
    ensures
        amazonq_host_spec(r1) == amazonq_host_spec(r2) ==> r1 == r2,
{
    lemma_amazonq_host_and_urls(r1);
    lemma_amazonq_host_and_urls(r2);
}

} // verus!
