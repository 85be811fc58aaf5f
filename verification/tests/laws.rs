use kiro_endpoint::{
    AmazonQEndpoint, CodeWhispererEndpoint, Config, Header, KiroCredentials, RequestContext,
    RuntimeEndpoint,
};

fn pairs(hs: &[Header]) -> Vec<(String, String)> {
    hs.iter().map(|h| (h.name.clone(), h.value.clone())).collect()
}

fn config(region: &str) -> Config {
    let mut c = Config::default();
    c.api_region = Some(region.to_string());
    c
}

#[test]
fn urls_are_https_host_and_path() {
    let creds = KiroCredentials::default();
    for region in ["us-east-1", "eu-central-1", " ap-south-1 ", ""] {
        let cfg = config(region);
        let c = RequestContext { credentials: &creds, token: "t", machine_id: "m", config: &cfg };
        let q = AmazonQEndpoint::new();
        assert_eq!(q.api_url(&c), format!("https://{}/generateAssistantResponse", q.host(&c)));
        assert_eq!(q.mcp_url(&c), format!("https://{}/mcp", q.host(&c)));
        let r = RuntimeEndpoint::new();
        assert_eq!(r.api_url(&c), format!("https://{}/generateAssistantResponse", r.host(&c)));
        assert_eq!(r.mcp_url(&c), format!("https://{}/mcp", r.host(&c)));
        let w = CodeWhispererEndpoint::new();
        assert_eq!(w.api_url(&c), format!("https://{}/generateAssistantResponse", w.host(&c)));
        assert_eq!(w.mcp_url(&c), format!("https://{}/mcp", w.host(&c)));
    }
}

#[test]
fn codewhisperer_outside_us_east_1_matches_amazonq_but_for_target() {
    let creds = KiroCredentials::default();
    let cfg = config("eu-central-1");
    let c = RequestContext { credentials: &creds, token: "t", machine_id: "m", config: &cfg };
    let w = CodeWhispererEndpoint::new();
    let q = AmazonQEndpoint::new();
    assert_eq!(w.host(&c), q.host(&c));
    assert_eq!(w.api_url(&c), q.api_url(&c));
    assert_eq!(w.mcp_url(&c), q.mcp_url(&c));
    let wa = pairs(&w.api_headers(&c, "id"));
    let qa = pairs(&q.api_headers(&c, "id"));
    assert_ne!(wa[0], qa[0]);
    assert_eq!(wa[1..].to_vec(), qa[1..].to_vec());
    assert_eq!(pairs(&w.mcp_headers(&c, "id")), pairs(&q.mcp_headers(&c, "id")));
}

#[test]
fn codewhisperer_host_ignores_surrounding_space() {
    let creds = KiroCredentials::default();
    let w = CodeWhispererEndpoint::new();
    for (padded, plain) in [(" eu-west-1\n", "eu-west-1"), ("\tus-east-1 ", "us-east-1")] {
        let a = config(padded);
        let b = config(plain);
        let ca = RequestContext { credentials: &creds, token: "t", machine_id: "m", config: &a };
        let cb = RequestContext { credentials: &creds, token: "t", machine_id: "m", config: &b };
        assert_eq!(w.host(&ca), w.host(&cb));
    }
}

#[test]
fn api_headers_differ_only_in_target_and_host() {
    let mut creds = KiroCredentials::default();
    creds.token_type = Some("X".to_string());
    let cfg = config("us-west-2");
    let c = RequestContext { credentials: &creds, token: "t", machine_id: "m", config: &cfg };
    let r = pairs(&RuntimeEndpoint::new().api_headers(&c, "id"));
    for (target, host, hs) in [
        (
            "AmazonQDeveloperStreamingService.SendMessage",
            AmazonQEndpoint::new().host(&c),
            pairs(&AmazonQEndpoint::new().api_headers(&c, "id")),
        ),
        (
            "AmazonCodeWhispererStreamingService.GenerateAssistantResponse",
            CodeWhispererEndpoint::new().host(&c),
            pairs(&CodeWhispererEndpoint::new().api_headers(&c, "id")),
        ),
    ] {
        let mut expected = vec![("x-amz-target".to_string(), target.to_string())];
        let mut rest = r.clone();
        rest[4] = ("host".to_string(), host);
        expected.extend(rest);
        assert_eq!(hs, expected);
    }
}

#[test]
fn mcp_headers_differ_only_in_host() {
    let mut creds = KiroCredentials::default();
    creds.profile_arn = Some("arn".to_string());
    let cfg = config("us-west-2");
    let c = RequestContext { credentials: &creds, token: "t", machine_id: "m", config: &cfg };
    let r = pairs(&RuntimeEndpoint::new().mcp_headers(&c, "id"));
    assert_eq!(r[2], ("host".to_string(), RuntimeEndpoint::new().host(&c)));
    let q = pairs(&AmazonQEndpoint::new().mcp_headers(&c, "id"));
    let mut expected = r.clone();
    expected[2] = ("host".to_string(), AmazonQEndpoint::new().host(&c));
    assert_eq!(q, expected);
}

#[test]
fn endpoint_names_are_distinct() {
    assert_eq!(AmazonQEndpoint::new().name(), "amazonq");
    assert_eq!(RuntimeEndpoint::new().name(), "runtime");
    assert_eq!(CodeWhispererEndpoint::default().name(), "codewhisperer");
    assert_eq!(AmazonQEndpoint::default().name(), "amazonq");
    assert_eq!(RuntimeEndpoint::default().name(), "runtime");
}
