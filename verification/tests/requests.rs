use kiro_endpoint::{
    api_headers, mcp_headers, trim, AmazonQEndpoint, CodeWhispererEndpoint, Config, Header,
    KiroCredentials, RequestContext, RuntimeEndpoint, DEFAULT_KIRO_VERSION,
};

fn pairs(hs: &[Header]) -> Vec<(String, String)> {
    hs.iter().map(|h| (h.name.clone(), h.value.clone())).collect()
}

fn pair(name: &str, value: &str) -> (String, String) {
    (name.to_string(), value.to_string())
}

fn region_config(region: &str) -> Config {
    let mut config = Config::default();
    config.api_region = Some(region.to_string());
    config
}

fn is_random_uuid_text(s: &str) -> bool {
    let cs: Vec<char> = s.chars().collect();
    if cs.len() != 36 {
        return false;
    }
    for (i, c) in cs.iter().enumerate() {
        let hyphen = i == 8 || i == 13 || i == 18 || i == 23;
        if hyphen != (*c == '-') {
            return false;
        }
        if !hyphen && !(c.is_ascii_digit() || ('a'..='f').contains(c)) {
            return false;
        }
    }
    cs[14] == '4' && matches!(cs[19], '8' | '9' | 'a' | 'b')
}

#[test]
fn default_config_and_credentials() {
    let config = Config::default();
    assert_eq!(config.api_region, None);
    assert_eq!(config.kiro_version, None);
    assert_eq!(config.system_version, "darwin#24.6.0");
    assert_eq!(config.node_version, "22.21.1");
    let creds = KiroCredentials::default();
    assert_eq!(creds.api_region, None);
    assert_eq!(creds.profile_arn, None);
    assert_eq!(creds.token_type, None);
}

#[test]
fn region_falls_back_from_credentials_to_config_to_default() {
    let endpoint = RuntimeEndpoint::new();
    let mut creds = KiroCredentials::default();
    let config = Config::default();
    let c = RequestContext { credentials: &creds, token: "t", machine_id: "m", config: &config };
    assert_eq!(endpoint.api_region(&c), "us-east-1");

    let config = region_config("ap-southeast-1");
    let c = RequestContext { credentials: &creds, token: "t", machine_id: "m", config: &config };
    assert_eq!(endpoint.api_region(&c), "ap-southeast-1");

    creds.api_region = Some("eu-west-1".to_string());
    let c = RequestContext { credentials: &creds, token: "t", machine_id: "m", config: &config };
    assert_eq!(endpoint.api_region(&c), "eu-west-1");
    assert_eq!(endpoint.host(&c), "runtime.eu-west-1.kiro.dev");
}

#[test]
fn amazonq_mcp_url() {
    let config = region_config("eu-central-1");
    let creds = KiroCredentials::default();
    let c = RequestContext { credentials: &creds, token: "t", machine_id: "m", config: &config };
    assert_eq!(AmazonQEndpoint::new().mcp_url(&c), "https://q.eu-central-1.amazonaws.com/mcp");
}

#[test]
fn codewhisperer_trims_region_and_treats_empty_as_us_east_1() {
    let endpoint = CodeWhispererEndpoint::new();
    let creds = KiroCredentials::default();

    let config = region_config("  eu-west-3\t");
    let c = RequestContext { credentials: &creds, token: "t", machine_id: "m", config: &config };
    assert_eq!(endpoint.host(&c), "q.eu-west-3.amazonaws.com");
    assert_eq!(endpoint.mcp_url(&c), "https://q.eu-west-3.amazonaws.com/mcp");

    let config = region_config("   ");
    let c = RequestContext { credentials: &creds, token: "t", machine_id: "m", config: &config };
    assert_eq!(endpoint.host(&c), "codewhisperer.us-east-1.amazonaws.com");

    let config = region_config(" us-east-1 ");
    let c = RequestContext { credentials: &creds, token: "t", machine_id: "m", config: &config };
    assert_eq!(endpoint.host(&c), "codewhisperer.us-east-1.amazonaws.com");
    assert_eq!(endpoint.mcp_url(&c), "https://codewhisperer.us-east-1.amazonaws.com/mcp");
}

#[test]
fn user_agents_use_configured_or_default_version() {
    let mut config = region_config("us-east-1");
    let creds = KiroCredentials::default();
    {
        let c = RequestContext { credentials: &creds, token: "t", machine_id: "abc", config: &config };
        let expected = format!("aws-sdk-js/1.0.34 KiroIDE-{}-abc", DEFAULT_KIRO_VERSION);
        assert_eq!(AmazonQEndpoint::new().x_amz_user_agent(&c), expected);
        assert_eq!(RuntimeEndpoint::new().x_amz_user_agent(&c), expected);
        assert_eq!(CodeWhispererEndpoint::new().x_amz_user_agent(&c), expected);
    }
    config.kiro_version = Some(String::new());
    {
        let c = RequestContext { credentials: &creds, token: "t", machine_id: "abc", config: &config };
        assert_eq!(
            RuntimeEndpoint::new().x_amz_user_agent(&c),
            format!("aws-sdk-js/1.0.34 KiroIDE-{}-abc", DEFAULT_KIRO_VERSION)
        );
    }
    config.kiro_version = Some("1.2.3".to_string());
    config.system_version = "linux#6.1".to_string();
    config.node_version = "20.0.0".to_string();
    let c = RequestContext { credentials: &creds, token: "t", machine_id: "abc", config: &config };
    let ua = "aws-sdk-js/1.0.34 ua/2.1 os/linux#6.1 lang/js md/nodejs#20.0.0 api/codewhispererstreaming#1.0.34 m/E KiroIDE-1.2.3-abc";
    assert_eq!(AmazonQEndpoint::new().user_agent(&c), ua);
    assert_eq!(RuntimeEndpoint::new().user_agent(&c), ua);
    assert_eq!(CodeWhispererEndpoint::new().user_agent(&c), ua);
    assert_eq!(AmazonQEndpoint::new().x_amz_user_agent(&c), "aws-sdk-js/1.0.34 KiroIDE-1.2.3-abc");
}

#[test]
fn amazonq_api_headers_exact() {
    let mut config = region_config("us-east-1");
    config.kiro_version = Some("1.0.0".to_string());
    config.system_version = "os".to_string();
    config.node_version = "n".to_string();
    let mut creds = KiroCredentials::default();
    creds.token_type = Some("API_KEY".to_string());
    let c = RequestContext { credentials: &creds, token: "tok", machine_id: "mid", config: &config };
    let hs = AmazonQEndpoint::new().api_headers(&c, "id-1");
    assert_eq!(
        pairs(&hs),
        vec![
            pair("x-amz-target", "AmazonQDeveloperStreamingService.SendMessage"),
            pair("x-amzn-codewhisperer-optout", "true"),
            pair("x-amzn-kiro-agent-mode", "vibe"),
            pair("x-amz-user-agent", "aws-sdk-js/1.0.34 KiroIDE-1.0.0-mid"),
            pair(
                "user-agent",
                "aws-sdk-js/1.0.34 ua/2.1 os/os lang/js md/nodejs#n api/codewhispererstreaming#1.0.34 m/E KiroIDE-1.0.0-mid"
            ),
            pair("host", "q.us-east-1.amazonaws.com"),
            pair("amz-sdk-invocation-id", "id-1"),
            pair("amz-sdk-request", "attempt=1; max=3"),
            pair("Authorization", "Bearer tok"),
            pair("tokentype", "API_KEY"),
        ]
    );
}

#[test]
fn runtime_api_headers_carry_no_target_and_no_token_type() {
    let config = region_config("us-east-1");
    let creds = KiroCredentials::default();
    let c = RequestContext { credentials: &creds, token: "tok", machine_id: "mid", config: &config };
    let hs = pairs(&RuntimeEndpoint::new().api_headers(&c, "id-2"));
    assert_eq!(hs.len(), 8);
    assert_eq!(hs[0], pair("x-amzn-codewhisperer-optout", "true"));
    assert_eq!(hs[4], pair("host", "runtime.us-east-1.kiro.dev"));
    assert_eq!(hs[5], pair("amz-sdk-invocation-id", "id-2"));
    assert_eq!(hs[7], pair("Authorization", "Bearer tok"));
}

#[test]
fn codewhisperer_api_headers_carry_its_target() {
    let config = region_config("us-east-1");
    let creds = KiroCredentials::default();
    let c = RequestContext { credentials: &creds, token: "tok", machine_id: "mid", config: &config };
    let hs = pairs(&CodeWhispererEndpoint::new().api_headers(&c, "id"));
    assert_eq!(
        hs[0],
        pair("x-amz-target", "AmazonCodeWhispererStreamingService.GenerateAssistantResponse")
    );
    assert_eq!(hs[5], pair("host", "codewhisperer.us-east-1.amazonaws.com"));
}

#[test]
fn mcp_headers_with_profile_arn_and_token_type() {
    let config = region_config("us-east-1");
    let mut creds = KiroCredentials::default();
    creds.profile_arn = Some("arn:aws:codewhisperer:us-east-1:1:profile/P".to_string());
    creds.token_type = Some("EXTERNAL_IDP".to_string());
    let c = RequestContext { credentials: &creds, token: "tok", machine_id: "mid", config: &config };
    let hs = pairs(&RuntimeEndpoint::new().mcp_headers(&c, "id-3"));
    assert_eq!(hs.len(), 8);
    assert_eq!(hs[2], pair("host", "runtime.us-east-1.kiro.dev"));
    assert_eq!(hs[3], pair("amz-sdk-invocation-id", "id-3"));
    assert_eq!(hs[4], pair("amz-sdk-request", "attempt=1; max=3"));
    assert_eq!(hs[5], pair("Authorization", "Bearer tok"));
    assert_eq!(
        hs[6],
        pair("x-amzn-kiro-profile-arn", "arn:aws:codewhisperer:us-east-1:1:profile/P")
    );
    assert_eq!(hs[7], pair("tokentype", "EXTERNAL_IDP"));

    let plain = KiroCredentials::default();
    let c = RequestContext { credentials: &plain, token: "tok", machine_id: "mid", config: &config };
    assert_eq!(pairs(&AmazonQEndpoint::new().mcp_headers(&c, "id-3")).len(), 6);
}

#[test]
fn shared_header_builders_follow_target_and_host() {
    let config = region_config("us-east-1");
    let creds = KiroCredentials::default();
    let c = RequestContext { credentials: &creds, token: "tok", machine_id: "mid", config: &config };
    let with = pairs(&api_headers(Some("T"), "h", &c, "i"));
    let without = pairs(&api_headers(None, "h", &c, "i"));
    assert_eq!(with[0], pair("x-amz-target", "T"));
    assert_eq!(with[1..].to_vec(), without);
    let mcp = pairs(&mcp_headers("h", &c, "i"));
    assert_eq!(mcp[2], pair("host", "h"));
}

#[test]
fn request_headers_draw_a_random_invocation_id() {
    let config = region_config("us-east-1");
    let creds = KiroCredentials::default();
    let c = RequestContext { credentials: &creds, token: "tok", machine_id: "mid", config: &config };
    let a = pairs(&AmazonQEndpoint::new().api_request_headers(&c));
    let b = pairs(&AmazonQEndpoint::new().api_request_headers(&c));
    assert_eq!(a[6].0, "amz-sdk-invocation-id");
    assert!(is_random_uuid_text(&a[6].1));
    assert!(is_random_uuid_text(&b[6].1));
    assert_ne!(a[6].1, b[6].1);
    let m = pairs(&CodeWhispererEndpoint::new().mcp_request_headers(&c));
    assert_eq!(m[3].0, "amz-sdk-invocation-id");
    assert!(is_random_uuid_text(&m[3].1));
    let r = pairs(&RuntimeEndpoint::new().api_request_headers(&c));
    assert!(is_random_uuid_text(&r[5].1));
}

#[test]
fn decorate_puts_headers_on_request() {
    let config = region_config("us-east-1");
    let mut creds = KiroCredentials::default();
    creds.profile_arn = Some("arn:p".to_string());
    let c = RequestContext { credentials: &creds, token: "tok", machine_id: "mid", config: &config };
    let client = reqwest::Client::new();
    let endpoint = AmazonQEndpoint::new();
    let req = endpoint
        .decorate_api(client.post(endpoint.api_url(&c)), &c)
        .build()
        .unwrap();
    let h = req.headers();
    assert_eq!(h.get("x-amz-target").unwrap(), "AmazonQDeveloperStreamingService.SendMessage");
    assert_eq!(h.get("host").unwrap(), "q.us-east-1.amazonaws.com");
    assert_eq!(h.get("authorization").unwrap(), "Bearer tok");
    assert!(is_random_uuid_text(h.get("amz-sdk-invocation-id").unwrap().to_str().unwrap()));
    assert!(h.get("tokentype").is_none());
    assert!(h.get("x-amzn-kiro-profile-arn").is_none());

    let req = RuntimeEndpoint::new()
        .decorate_mcp(client.post("https://runtime.us-east-1.kiro.dev/mcp"), &c)
        .build()
        .unwrap();
    let h = req.headers();
    assert!(h.get("x-amz-target").is_none());
    assert_eq!(h.get("host").unwrap(), "runtime.us-east-1.kiro.dev");
    assert_eq!(h.get("x-amzn-kiro-profile-arn").unwrap(), "arn:p");

    let req = CodeWhispererEndpoint::new()
        .decorate_mcp(client.post("https://codewhisperer.us-east-1.amazonaws.com/mcp"), &c)
        .build()
        .unwrap();
    assert_eq!(req.headers().get("host").unwrap(), "codewhisperer.us-east-1.amazonaws.com");
    let req = CodeWhispererEndpoint::new()
        .decorate_api(client.post("https://codewhisperer.us-east-1.amazonaws.com/x"), &c)
        .build()
        .unwrap();
    assert_eq!(
        req.headers().get("x-amz-target").unwrap(),
        "AmazonCodeWhispererStreamingService.GenerateAssistantResponse"
    );
}

#[test]
fn trim_removes_unicode_white_space_at_both_ends() {
    assert_eq!(trim("  a b \n"), "a b");
    assert_eq!(trim("\u{3000}\u{a0}x\u{2028}"), "x");
    assert_eq!(trim(" \t\r\n"), "");
    assert_eq!(trim(""), "");
    assert_eq!(trim("\u{200b}x"), "\u{200b}x");
    let s = "\u{85}é ü\u{202f}";
    assert_eq!(trim(s), s.trim());
}

#[test]
fn decorate_with_invalid_header_value_leaves_an_error() {
    let config = region_config("us-east-1");
    let creds = KiroCredentials::default();
    let c = RequestContext { credentials: &creds, token: "bad\ntoken", machine_id: "mid", config: &config };
    let client = reqwest::Client::new();
    let endpoint = RuntimeEndpoint::new();
    let built = endpoint.decorate_api(client.post(endpoint.api_url(&c)), &c).build();
    assert!(built.is_err());

    let ok = RequestContext { credentials: &creds, token: "tok", machine_id: "mid", config: &config };
    let req = endpoint.decorate_api(client.post(endpoint.api_url(&ok)), &ok).build().unwrap();
    assert_eq!(req.headers().len(), 8);
    let req = endpoint.decorate_mcp(client.post(endpoint.mcp_url(&ok)), &ok).build().unwrap();
    assert_eq!(req.headers().len(), 6);
}
