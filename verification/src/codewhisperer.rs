//! The CodeWhisperer endpoint, routed to the CodeWhisperer `GenerateAssistantResponse`
//! operation by its `x-amz-target` header. Its own host exists in `us-east-1`
//! only; every other region folds to that region's Amazon Q host.

use reqwest::RequestBuilder;
use vstd::prelude::*;

use crate::context::{ContextModel, RequestContext};
use crate::headers::{
    api_headers, api_headers_spec, apply_headers, builder_decorated, has_header_named,
    headers_view, mcp_headers, mcp_headers_spec, user_agent_of, user_agent_spec,
    x_amz_user_agent_of, x_amz_user_agent_spec, Header,
};
use crate::outside::{builder_has_room, is_random_uuid_text, new_invocation_id};
use crate::text::{trim, trim_spec};

verus! {

/// Name of the CodeWhisperer endpoint.
pub const CODEWHISPERER_ENDPOINT_NAME: &'static str = "codewhisperer";

/// `x-amz-target` of the CodeWhisperer endpoint: the CodeWhisperer Streaming
/// `GenerateAssistantResponse` operation.
pub const CODEWHISPERER_AMZ_TARGET: &'static str =
    "AmazonCodeWhispererStreamingService.GenerateAssistantResponse";

/// The one region with a CodeWhisperer host of its own.
pub const CODEWHISPERER_REGION: &'static str = "us-east-1";

/// The CodeWhisperer host, which exists in `us-east-1` only.
pub const CODEWHISPERER_US_EAST_1_HOST: &'static str = "codewhisperer.us-east-1.amazonaws.com";

/// Whether `region`, without surrounding white space, names the CodeWhisperer
/// region: it is empty or `us-east-1`.
pub open spec fn is_codewhisperer_region(region: Seq<char>) -> bool {
    trim_spec(region).len() == 0 || trim_spec(region) == CODEWHISPERER_REGION@
}

/// The CodeWhisperer host in `us-east-1` (or with no region), else the
/// regional Amazon Q host of the trimmed region.
pub open spec fn codewhisperer_host_spec(region: Seq<char>) -> Seq<char> {
    if is_codewhisperer_region(region) {
        CODEWHISPERER_US_EAST_1_HOST@
    } else {
        "q."@ + trim_spec(region) + ".amazonaws.com"@
    }
}

/// The assistant API URL of the CodeWhisperer endpoint.
pub open spec fn codewhisperer_api_url_spec(region: Seq<char>) -> Seq<char> {
    "https://"@ + codewhisperer_host_spec(region) + "/generateAssistantResponse"@
}

/// The MCP URL of the CodeWhisperer endpoint.
pub open spec fn codewhisperer_mcp_url_spec(region: Seq<char>) -> Seq<char> {
    "https://"@ + codewhisperer_host_spec(region) + "/mcp"@
}

/// The assistant API headers of the CodeWhisperer endpoint.
pub open spec fn codewhisperer_api_headers_spec(m: ContextModel, invocation_id: Seq<char>) -> Seq<
    (Seq<char>, Seq<char>),
> {
    api_headers_spec(
        Some(CODEWHISPERER_AMZ_TARGET@),
        codewhisperer_host_spec(m.api_region),
        m,
        invocation_id,
    )
}

/// The MCP headers of the CodeWhisperer endpoint.
pub open spec fn codewhisperer_mcp_headers_spec(m: ContextModel, invocation_id: Seq<char>) -> Seq<
    (Seq<char>, Seq<char>),
> {
    mcp_headers_spec(codewhisperer_host_spec(m.api_region), m, invocation_id)
}

/// The CodeWhisperer endpoint.
pub struct CodeWhispererEndpoint;

impl CodeWhispererEndpoint {
    pub fn new() -> (e: Self)
        ensures
            e == CodeWhispererEndpoint,
    {
        CodeWhispererEndpoint
    }

    /// The region of the request.
    pub fn api_region<'a>(&self, ctx: &'a RequestContext<'_>) -> (r: &'a str)
        ensures
            r@ == ctx@.api_region,
            r@ == match ctx.credentials.api_region {
                Some(x) => x@,
                None => match ctx.config.api_region {
                    Some(x) => x@,
                    None => "us-east-1"@,
                },
            },
    {
        ctx.credentials.effective_api_region(ctx.config)
    }

    /// The CodeWhisperer host in `us-east-1` or with no region, else
    /// `q.{region}.amazonaws.com` with the region trimmed.
    pub fn host(&self, ctx: &RequestContext) -> (h: String)
        ensures
            h@ == codewhisperer_host_spec(ctx@.api_region),
            (trim_spec(ctx@.api_region).len() == 0 || trim_spec(ctx@.api_region) == "us-east-1"@) ==> h@
                == "codewhisperer.us-east-1.amazonaws.com"@,
            !(trim_spec(ctx@.api_region).len() == 0 || trim_spec(ctx@.api_region) == "us-east-1"@) ==> h@ == "q."@
                + trim_spec(ctx@.api_region) + ".amazonaws.com"@,
    {
        let region = trim(self.api_region(ctx));
        if region.is_empty() || String::from_str(region) == String::from_str(CODEWHISPERER_REGION) {
            String::from_str(CODEWHISPERER_US_EAST_1_HOST)
        } else {
            let mut h = String::from_str("q.");
            h.append(region);
            h.append(".amazonaws.com");
            h
        }
    }

    /// The `x-amz-user-agent` header value.
    pub fn x_amz_user_agent(&self, ctx: &RequestContext) -> (r: String)
        ensures
            r@ == x_amz_user_agent_spec(ctx@),
    {
        x_amz_user_agent_of(ctx)
    }

    /// The `user-agent` header value.
    pub fn user_agent(&self, ctx: &RequestContext) -> (r: String)
        ensures
            r@ == user_agent_spec(ctx@),
    {
        user_agent_of(ctx)
    }

    /// The endpoint's name, `codewhisperer`.
    pub fn name(&self) -> (n: &'static str)
        ensures
            n@ == CODEWHISPERER_ENDPOINT_NAME@,
    {
        CODEWHISPERER_ENDPOINT_NAME
    }

    /// `https://{host}/generateAssistantResponse`.
    pub fn api_url(&self, ctx: &RequestContext) -> (u: String)
        ensures
            u@ == codewhisperer_api_url_spec(ctx@.api_region),
            (trim_spec(ctx@.api_region).len() == 0 || trim_spec(ctx@.api_region) == "us-east-1"@) ==> u@
                == "https://codewhisperer.us-east-1.amazonaws.com/generateAssistantResponse"@,
            !(trim_spec(ctx@.api_region).len() == 0 || trim_spec(ctx@.api_region) == "us-east-1"@) ==> u@
                == "https://q."@ + trim_spec(ctx@.api_region) + ".amazonaws.com/generateAssistantResponse"@,
    {
        proof {
            lemma_codewhisperer_host_and_urls(ctx@.api_region);
        }
        let mut u = String::from_str("https://");
        let host = self.host(ctx);
        u.append(host.as_str());
        u.append("/generateAssistantResponse");
        u
    }

    /// `https://{host}/mcp`.
    pub fn mcp_url(&self, ctx: &RequestContext) -> (u: String)
        ensures
            u@ == codewhisperer_mcp_url_spec(ctx@.api_region),
            (trim_spec(ctx@.api_region).len() == 0 || trim_spec(ctx@.api_region) == "us-east-1"@) ==> u@
                == "https://codewhisperer.us-east-1.amazonaws.com/mcp"@,
            !(trim_spec(ctx@.api_region).len() == 0 || trim_spec(ctx@.api_region) == "us-east-1"@) ==> u@
                == "https://q."@ + trim_spec(ctx@.api_region) + ".amazonaws.com/mcp"@,
    {
        proof {
            lemma_codewhisperer_host_and_urls(ctx@.api_region);
        }
        let mut u = String::from_str("https://");
        let host = self.host(ctx);
        u.append(host.as_str());
        u.append("/mcp");
        u
    }

    /// The assistant API headers under the invocation id `invocation_id`.
    pub fn api_headers(&self, ctx: &RequestContext, invocation_id: &str) -> (hs: Vec<Header>)
        ensures
            headers_view(hs@) == codewhisperer_api_headers_spec(ctx@, invocation_id@),
            headers_view(hs@).contains(("host"@, codewhisperer_host_spec(ctx@.api_region))),
            headers_view(hs@).contains(("amz-sdk-invocation-id"@, invocation_id@)),
            headers_view(hs@).contains(("Authorization"@, "Bearer "@ + ctx.token@)),
            match ctx.credentials.token_type {
                Some(t) => headers_view(hs@).contains(("tokentype"@, t@)),
                None => !has_header_named(headers_view(hs@), "tokentype"@),
            },
            headers_view(hs@).contains(("x-amz-target"@, "AmazonCodeWhispererStreamingService.GenerateAssistantResponse"@)),
    {
        let host = self.host(ctx);
        api_headers(Some(CODEWHISPERER_AMZ_TARGET), host.as_str(), ctx, invocation_id)
    }

    /// The MCP headers under the invocation id `invocation_id`.
    pub fn mcp_headers(&self, ctx: &RequestContext, invocation_id: &str) -> (hs: Vec<Header>)
        ensures
            headers_view(hs@) == codewhisperer_mcp_headers_spec(ctx@, invocation_id@),
            headers_view(hs@).contains(("host"@, codewhisperer_host_spec(ctx@.api_region))),
            headers_view(hs@).contains(("amz-sdk-invocation-id"@, invocation_id@)),
            headers_view(hs@).contains(("Authorization"@, "Bearer "@ + ctx.token@)),
            match ctx.credentials.token_type {
                Some(t) => headers_view(hs@).contains(("tokentype"@, t@)),
                None => !has_header_named(headers_view(hs@), "tokentype"@),
            },
            match ctx.credentials.profile_arn {
                Some(a) => headers_view(hs@).contains(("x-amzn-kiro-profile-arn"@, a@)),
                None => !has_header_named(headers_view(hs@), "x-amzn-kiro-profile-arn"@),
            },
            !has_header_named(headers_view(hs@), "x-amz-target"@),
    {
        let host = self.host(ctx);
        mcp_headers(host.as_str(), ctx, invocation_id)
    }

    /// The assistant API headers of a new request, under a fresh random invocation id.
    pub fn api_request_headers(&self, ctx: &RequestContext) -> (hs: Vec<Header>)
        ensures
            exists|id: Seq<char>|
                is_random_uuid_text(id) && headers_view(hs@) == #[trigger] codewhisperer_api_headers_spec(
                    ctx@,
                    id,
                ),
    {
        let id = new_invocation_id();
        self.api_headers(ctx, id.as_str())
    }

    /// The MCP headers of a new request, under a fresh random invocation id.
    pub fn mcp_request_headers(&self, ctx: &RequestContext) -> (hs: Vec<Header>)
        ensures
            exists|id: Seq<char>|
                is_random_uuid_text(id) && headers_view(hs@) == #[trigger] codewhisperer_mcp_headers_spec(
                    ctx@,
                    id,
                ),
    {
        let id = new_invocation_id();
        self.mcp_headers(ctx, id.as_str())
    }

    /// Puts the assistant API headers of a new request, under a fresh random
    /// invocation id, on `req`.
    pub fn decorate_api(&self, req: RequestBuilder, ctx: &RequestContext) -> (r: RequestBuilder)
        requires
            builder_has_room(req, 10),
        ensures
            exists|id: Seq<char>|
                is_random_uuid_text(id) && builder_decorated(
                    req,
                    r,
                    #[trigger] codewhisperer_api_headers_spec(ctx@, id),
                ),
    {
        let hs = self.api_request_headers(ctx);
        let ghost id = choose|id: Seq<char>|
            is_random_uuid_text(id) && headers_view(hs@) == #[trigger] codewhisperer_api_headers_spec(
                ctx@,
                id,
            );
        assert(hs@.len() == headers_view(hs@).len());
        let r = apply_headers(req, &hs);
        assert(is_random_uuid_text(id) && builder_decorated(req, r, codewhisperer_api_headers_spec(ctx@, id)));
        r
    }

    /// Puts the MCP headers of a new request, under a fresh random
    /// invocation id, on `req`.
    pub fn decorate_mcp(&self, req: RequestBuilder, ctx: &RequestContext) -> (r: RequestBuilder)
        requires
            builder_has_room(req, 8),
        ensures
            exists|id: Seq<char>|
                is_random_uuid_text(id) && builder_decorated(
                    req,
                    r,
                    #[trigger] codewhisperer_mcp_headers_spec(ctx@, id),
                ),
    {
        let hs = self.mcp_request_headers(ctx);
        let ghost id = choose|id: Seq<char>|
            is_random_uuid_text(id) && headers_view(hs@) == #[trigger] codewhisperer_mcp_headers_spec(
                ctx@,
                id,
            );
        assert(hs@.len() == headers_view(hs@).len());
        let r = apply_headers(req, &hs);
        assert(is_random_uuid_text(id) && builder_decorated(req, r, codewhisperer_mcp_headers_spec(ctx@, id)));
        r
    }
}

impl Default for CodeWhispererEndpoint {
    fn default() -> (e: Self)
        ensures
            e == CodeWhispererEndpoint,
    {
        Self::new()
    }
}

/// The CodeWhisperer host and URLs, spelled out: with the region trimmed of
/// white space, an empty region or `us-east-1` gives the
/// `codewhisperer.us-east-1.amazonaws.com` host, any other region `r` the
/// `q.{r}.amazonaws.com` host; the URLs are `https://`, the host, and the path.
/// The CodeWhisperer host comes out for those two regions and no other.
pub proof fn lemma_codewhisperer_host_and_urls(region: Seq<char>)
    ensures
        ({
            let t = trim_spec(region);
            &&& (t.len() == 0 || t == "us-east-1"@) ==> {
                &&& codewhisperer_host_spec(region) == "codewhisperer.us-east-1.amazonaws.com"@
                &&& codewhisperer_api_url_spec(region)
                    == "https://codewhisperer.us-east-1.amazonaws.com/generateAssistantResponse"@
                &&& codewhisperer_mcp_url_spec(region)
                    == "https://codewhisperer.us-east-1.amazonaws.com/mcp"@
            }
            &&& !(t.len() == 0 || t == "us-east-1"@) ==> {
                &&& codewhisperer_host_spec(region) == "q."@ + t + ".amazonaws.com"@
                &&& codewhisperer_api_url_spec(region) == "https://q."@ + t
                    + ".amazonaws.com/generateAssistantResponse"@
                &&& codewhisperer_mcp_url_spec(region) == "https://q."@ + t + ".amazonaws.com/mcp"@
            }
            &&& codewhisperer_host_spec(region) == "codewhisperer.us-east-1.amazonaws.com"@ <==> (
            t.len() == 0 || t == "us-east-1"@)
        }),
{
    let t = trim_spec(region);
    reveal_strlit("us-east-1");
    reveal_strlit("codewhisperer.us-east-1.amazonaws.com");
    reveal_strlit("https://codewhisperer.us-east-1.amazonaws.com/generateAssistantResponse");
    reveal_strlit("https://codewhisperer.us-east-1.amazonaws.com/mcp");
    reveal_strlit("https://");
    reveal_strlit("https://q.");
    reveal_strlit("q.");
    reveal_strlit(".amazonaws.com");
    reveal_strlit(".amazonaws.com/generateAssistantResponse");
    reveal_strlit(".amazonaws.com/mcp");
    reveal_strlit("/generateAssistantResponse");
    reveal_strlit("/mcp");
    if t.len() == 0 || t == "us-east-1"@ {
        assert(codewhisperer_api_url_spec(region)
            =~= "https://codewhisperer.us-east-1.amazonaws.com/generateAssistantResponse"@);
        assert(codewhisperer_mcp_url_spec(region)
            =~= "https://codewhisperer.us-east-1.amazonaws.com/mcp"@);
    } else {
        assert(codewhisperer_api_url_spec(region) =~= "https://q."@ + t
            + ".amazonaws.com/generateAssistantResponse"@);
        assert(codewhisperer_mcp_url_spec(region) =~= "https://q."@ + t + ".amazonaws.com/mcp"@);
        let h = codewhisperer_host_spec(region);
        assert(h[0] == 'q');
        assert("codewhisperer.us-east-1.amazonaws.com"@[0] == 'c');
    }
}

} // verus!
