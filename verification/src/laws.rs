//! What holds across the endpoints.

use vstd::prelude::*;

use crate::amazonq::{
    amazonq_api_headers_spec, amazonq_api_url_spec, amazonq_host_spec, amazonq_mcp_headers_spec,
    amazonq_mcp_url_spec, lemma_amazonq_urls_on_host, AMAZONQ_AMZ_TARGET,
};
use crate::codewhisperer::{
    codewhisperer_api_headers_spec, codewhisperer_api_url_spec, codewhisperer_host_spec,
    codewhisperer_mcp_headers_spec, codewhisperer_mcp_url_spec, is_codewhisperer_region,
    CODEWHISPERER_AMZ_TARGET, CODEWHISPERER_US_EAST_1_HOST,
};
use crate::context::ContextModel;
use crate::runtime::{runtime_api_headers_spec, runtime_host_spec, runtime_mcp_headers_spec};
use crate::text::{lemma_trim_idempotent, trim_spec};

verus! {

/// The CodeWhisperer endpoint uses its own host exactly in `us-east-1` (or with
/// no region); in every other region its host and URLs are those of the AmazonQ
/// endpoint for the trimmed region.
pub proof fn lemma_codewhisperer_region_folding(region: Seq<char>)
    ensures
        is_codewhisperer_region(region) ==> codewhisperer_host_spec(region)
            == CODEWHISPERER_US_EAST_1_HOST@,
        !is_codewhisperer_region(region) ==> {
            &&& codewhisperer_host_spec(region) == amazonq_host_spec(trim_spec(region))
            &&& codewhisperer_api_url_spec(region) == amazonq_api_url_spec(trim_spec(region))
            &&& codewhisperer_mcp_url_spec(region) == amazonq_mcp_url_spec(trim_spec(region))
        },
{
    lemma_amazonq_urls_on_host(trim_spec(region));
}

/// The CodeWhisperer host depends on the region only through its trimmed form.
pub proof fn lemma_codewhisperer_host_ignores_surrounding_space(region: Seq<char>)
    ensures
        codewhisperer_host_spec(region) == codewhisperer_host_spec(trim_spec(region)),
{
    lemma_trim_idempotent(region);
}

/// The assistant API headers of the three endpoints agree but for the routing
/// target and the host: the AmazonQ and CodeWhisperer headers are the Runtime
/// headers, which carry no target, behind their own target and with their own
/// host.
pub proof fn lemma_api_headers_differ_in_target_and_host(m: ContextModel, invocation_id: Seq<char>)
    ensures
        amazonq_api_headers_spec(m, invocation_id) == seq![
            ("x-amz-target"@, AMAZONQ_AMZ_TARGET@),
        ] + runtime_api_headers_spec(m, invocation_id).update(
            4,
            ("host"@, amazonq_host_spec(m.api_region)),
        ),
        codewhisperer_api_headers_spec(m, invocation_id) == seq![
            ("x-amz-target"@, CODEWHISPERER_AMZ_TARGET@),
        ] + runtime_api_headers_spec(m, invocation_id).update(
            4,
            ("host"@, codewhisperer_host_spec(m.api_region)),
        ),
{
    assert(amazonq_api_headers_spec(m, invocation_id) =~= seq![
        ("x-amz-target"@, AMAZONQ_AMZ_TARGET@),
    ] + runtime_api_headers_spec(m, invocation_id).update(
        4,
        ("host"@, amazonq_host_spec(m.api_region)),
    ));
    assert(codewhisperer_api_headers_spec(m, invocation_id) =~= seq![
        ("x-amz-target"@, CODEWHISPERER_AMZ_TARGET@),
    ] + runtime_api_headers_spec(m, invocation_id).update(
        4,
        ("host"@, codewhisperer_host_spec(m.api_region)),
    ));
}

/// The MCP headers of the three endpoints agree but for the host.
pub proof fn lemma_mcp_headers_differ_in_host(m: ContextModel, invocation_id: Seq<char>)
    ensures
        amazonq_mcp_headers_spec(m, invocation_id) == runtime_mcp_headers_spec(
            m,
            invocation_id,
        ).update(2, ("host"@, amazonq_host_spec(m.api_region))),
        codewhisperer_mcp_headers_spec(m, invocation_id) == runtime_mcp_headers_spec(
            m,
            invocation_id,
        ).update(2, ("host"@, codewhisperer_host_spec(m.api_region))),
        runtime_mcp_headers_spec(m, invocation_id)[2] == ("host"@, runtime_host_spec(m.api_region)),
{
    assert(amazonq_mcp_headers_spec(m, invocation_id) =~= runtime_mcp_headers_spec(
        m,
        invocation_id,
    ).update(2, ("host"@, amazonq_host_spec(m.api_region))));
    assert(codewhisperer_mcp_headers_spec(m, invocation_id) =~= runtime_mcp_headers_spec(
        m,
        invocation_id,
    ).update(2, ("host"@, codewhisperer_host_spec(m.api_region))));
}

/// Outside `us-east-1`, for a region without surrounding white space, the
/// CodeWhisperer endpoint sends the AmazonQ endpoint's requests with only the
/// routing target changed.
pub proof fn lemma_codewhisperer_outside_us_east_1_is_amazonq_with_its_target(
    m: ContextModel,
    invocation_id: Seq<char>,
)
    requires
        !is_codewhisperer_region(m.api_region),
        trim_spec(m.api_region) == m.api_region,
    ensures
        codewhisperer_api_headers_spec(m, invocation_id) == amazonq_api_headers_spec(
            m,
            invocation_id,
        ).update(0, ("x-amz-target"@, CODEWHISPERER_AMZ_TARGET@)),
        codewhisperer_mcp_headers_spec(m, invocation_id) == amazonq_mcp_headers_spec(
            m,
            invocation_id,
        ),
        codewhisperer_api_url_spec(m.api_region) == amazonq_api_url_spec(m.api_region),
        codewhisperer_mcp_url_spec(m.api_region) == amazonq_mcp_url_spec(m.api_region),
{
    lemma_codewhisperer_region_folding(m.api_region);
    assert(codewhisperer_api_headers_spec(m, invocation_id) =~= amazonq_api_headers_spec(
        m,
        invocation_id,
    ).update(0, ("x-amz-target"@, CODEWHISPERER_AMZ_TARGET@)));
}

} // verus!
