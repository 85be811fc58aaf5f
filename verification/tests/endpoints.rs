use kiro_endpoint::{
    AmazonQEndpoint, CodeWhispererEndpoint, Config, KiroCredentials, RequestContext,
    RuntimeEndpoint,
};

fn ctx<'a>(
    creds: &'a KiroCredentials,
    config: &'a Config,
    machine_id: &'a str,
) -> RequestContext<'a> {
    RequestContext {
        credentials: creds,
        token: "tok",
        machine_id,
        config,
    }
}

#[test]
fn test_amazonq_uses_q_host_generate_assistant_response() {
    let endpoint = AmazonQEndpoint::new();
    let mut config = Config::default();
    config.api_region = Some("us-east-1".to_string());
    let creds = KiroCredentials::default();
    let rctx = ctx(&creds, &config, "machine");

    assert_eq!(endpoint.name(), "amazonq");
    assert_eq!(
        endpoint.api_url(&rctx),
        "https://q.us-east-1.amazonaws.com/generateAssistantResponse"
    );
    assert_eq!(endpoint.host(&rctx), "q.us-east-1.amazonaws.com");
}

#[test]
fn test_codewhisperer_host_for_us_east_1() {
    let endpoint = CodeWhispererEndpoint::new();
    let mut config = Config::default();
    config.api_region = Some("us-east-1".to_string());
    let creds = KiroCredentials::default();
    let rctx = ctx(&creds, &config, "machine");

    assert_eq!(endpoint.name(), "codewhisperer");
    assert_eq!(endpoint.host(&rctx), "codewhisperer.us-east-1.amazonaws.com");
    assert_eq!(
        endpoint.api_url(&rctx),
        "https://codewhisperer.us-east-1.amazonaws.com/generateAssistantResponse"
    );
}

#[test]
fn test_codewhisperer_folds_to_regional_q_host_outside_us_east_1() {
    let endpoint = CodeWhispererEndpoint::new();
    let mut config = Config::default();
    config.api_region = Some("eu-central-1".to_string());
    let creds = KiroCredentials::default();
    let rctx = ctx(&creds, &config, "machine");

    assert_eq!(endpoint.host(&rctx), "q.eu-central-1.amazonaws.com");
    assert_eq!(
        endpoint.api_url(&rctx),
        "https://q.eu-central-1.amazonaws.com/generateAssistantResponse"
    );
}

#[test]
fn test_runtime_urls_use_kiro_dev_domain() {
    let endpoint = RuntimeEndpoint::new();
    let mut config = Config::default();
    config.api_region = Some("us-east-1".to_string());
    let creds = KiroCredentials::default();
    let rctx = ctx(&creds, &config, "machine");

    assert_eq!(
        endpoint.api_url(&rctx),
        "https://runtime.us-east-1.kiro.dev/generateAssistantResponse"
    );
    assert_eq!(endpoint.mcp_url(&rctx), "https://runtime.us-east-1.kiro.dev/mcp");
    assert_eq!(endpoint.host(&rctx), "runtime.us-east-1.kiro.dev");
}
