//! Request endpoints of the Kiro assistant service: host names, URLs and the
//! header sets that each endpoint puts on its requests.

mod amazonq;
mod codewhisperer;
mod context;
mod headers;
mod laws;
mod outside;
mod runtime;
mod text;

pub use amazonq::{
    amazonq_api_headers_spec, amazonq_api_url_spec, amazonq_host_spec, amazonq_mcp_headers_spec,
    amazonq_mcp_url_spec, lemma_amazonq_host_and_urls, lemma_amazonq_host_determines_region,
    lemma_amazonq_urls_on_host, AmazonQEndpoint, AMAZONQ_AMZ_TARGET,
    AMAZONQ_ENDPOINT_NAME,
};
pub use codewhisperer::{
    codewhisperer_api_headers_spec, codewhisperer_api_url_spec, codewhisperer_host_spec,
    codewhisperer_mcp_headers_spec, codewhisperer_mcp_url_spec, is_codewhisperer_region,
    lemma_codewhisperer_host_and_urls,
    CodeWhispererEndpoint, CODEWHISPERER_AMZ_TARGET, CODEWHISPERER_ENDPOINT_NAME,
    CODEWHISPERER_REGION, CODEWHISPERER_US_EAST_1_HOST,
};
pub use context::{
    api_region_spec, effective_kiro_version, kiro_version_spec, opt_view, Config, ContextModel,
    KiroCredentials, RequestContext, DEFAULT_API_REGION, DEFAULT_KIRO_VERSION,
};
pub use headers::{
    all_headers_valid, api_headers, api_headers_spec, apply_headers, bearer_spec,
    builder_decorated, has_header_named, header_entries, headers_view, lemma_api_headers_carry,
    lemma_mcp_headers_carry, mcp_headers, mcp_headers_spec,
    optional_header, user_agent_of, user_agent_spec, x_amz_user_agent_of, x_amz_user_agent_spec,
    Header,
};
pub use laws::{
    lemma_api_headers_differ_in_target_and_host,
    lemma_codewhisperer_host_ignores_surrounding_space,
    lemma_codewhisperer_outside_us_east_1_is_amazonq_with_its_target,
    lemma_codewhisperer_region_folding, lemma_mcp_headers_differ_in_host,
};
pub use outside::{
    ascii_lower, ascii_lower_char, builder_has_room, builder_headers, builder_is_ok,
    is_header_name_char, is_lower_hex_digit, is_random_uuid_text, is_uuid_hyphen_position,
    is_valid_header_name, is_valid_header_value,
};
pub use runtime::{
    lemma_runtime_host_and_urls, lemma_runtime_host_determines_region,
    lemma_runtime_urls_on_host, runtime_api_headers_spec, runtime_api_url_spec, runtime_host_spec,
    runtime_mcp_headers_spec, runtime_mcp_url_spec, RuntimeEndpoint, RUNTIME_ENDPOINT_NAME,
};
pub use text::{
    is_white_space, lemma_trim_idempotent, lemma_trim_keeps_the_middle, trim, trim_end_spec,
    trim_spec, trim_start_spec,
    white_space,
};
