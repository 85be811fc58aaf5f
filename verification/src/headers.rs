//! The user agents and the header sets shared by all endpoints.

use reqwest::RequestBuilder;
use vstd::multiset::Multiset;
use vstd::prelude::*;

use crate::context::{effective_kiro_version, ContextModel, RequestContext};
use crate::outside::{
    ascii_lower, builder_has_room, builder_headers, builder_is_ok, is_valid_header_name,
    is_valid_header_value, with_header,
};

verus! {

/// One request header.
pub struct Header {
    pub name: String,
    pub value: String,
}

impl View for Header {
    type V = (Seq<char>, Seq<char>);

    open spec fn view(&self) -> (Seq<char>, Seq<char>) {
        (self.name@, self.value@)
    }
}

/// The names and values of a list of headers, in order.
pub open spec fn headers_view(hs: Seq<Header>) -> Seq<(Seq<char>, Seq<char>)> {
    hs.map_values(|h: Header| h@)
}

/// The `x-amz-user-agent` header value.
pub open spec fn x_amz_user_agent_spec(m: ContextModel) -> Seq<char> {
    "aws-sdk-js/1.0.34 KiroIDE-"@ + m.kiro_version + "-"@ + m.machine_id
}

/// The `user-agent` header value.
pub open spec fn user_agent_spec(m: ContextModel) -> Seq<char> {
    "aws-sdk-js/1.0.34 ua/2.1 os/"@ + m.system_version + " lang/js md/nodejs#"@ + m.node_version
        + " api/codewhispererstreaming#1.0.34 m/E KiroIDE-"@ + m.kiro_version + "-"@
        + m.machine_id
}

/// The `Authorization` header value.
pub open spec fn bearer_spec(m: ContextModel) -> Seq<char> {
    "Bearer "@ + m.token
}

/// A header that is present only when `value` is.
pub open spec fn optional_header(name: Seq<char>, value: Option<Seq<char>>) -> Seq<
    (Seq<char>, Seq<char>),
> {
    match value {
        Some(v) => seq![(name, v)],
        None => seq![],
    }
}

/// The headers of an assistant API request: the routing target where the
/// endpoint has one, the fixed client headers, the user agents, the host, the
/// invocation id, the retry policy, the bearer token, and the token type where
/// the account has one.
pub open spec fn api_headers_spec(
    target: Option<Seq<char>>,
    host: Seq<char>,
    m: ContextModel,
    invocation_id: Seq<char>,
) -> Seq<(Seq<char>, Seq<char>)> {
    optional_header("x-amz-target"@, target) + seq![
        ("x-amzn-codewhisperer-optout"@, "true"@),
        ("x-amzn-kiro-agent-mode"@, "vibe"@),
        ("x-amz-user-agent"@, x_amz_user_agent_spec(m)),
        ("user-agent"@, user_agent_spec(m)),
        ("host"@, host),
        ("amz-sdk-invocation-id"@, invocation_id),
        ("amz-sdk-request"@, "attempt=1; max=3"@),
        ("Authorization"@, bearer_spec(m)),
    ] + optional_header("tokentype"@, m.token_type)
}

/// The headers of an MCP request: the user agents, the host, the invocation
/// id, the retry policy, the bearer token, then the profile ARN and the token
/// type where the account has them.
pub open spec fn mcp_headers_spec(host: Seq<char>, m: ContextModel, invocation_id: Seq<char>) -> Seq<
    (Seq<char>, Seq<char>),
> {
    seq![
        ("x-amz-user-agent"@, x_amz_user_agent_spec(m)),
        ("user-agent"@, user_agent_spec(m)),
        ("host"@, host),
        ("amz-sdk-invocation-id"@, invocation_id),
        ("amz-sdk-request"@, "attempt=1; max=3"@),
        ("Authorization"@, bearer_spec(m)),
    ] + optional_header("x-amzn-kiro-profile-arn"@, m.profile_arn) + optional_header(
        "tokentype"@,
        m.token_type,
    )
}

/// Whether some header of `hs` is named `name`.
pub open spec fn has_header_named(hs: Seq<(Seq<char>, Seq<char>)>, name: Seq<char>) -> bool {
    exists|i: int| 0 <= i < hs.len() && #[trigger] hs[i].0 == name
}

proof fn lemma_reveal_header_names()
    ensures
        "x-amz-target"@.len() == 12,
        "x-amzn-codewhisperer-optout"@.len() == 27,
        "x-amzn-kiro-agent-mode"@.len() == 22,
        "x-amz-user-agent"@.len() == 16,
        "user-agent"@.len() == 10,
        "host"@.len() == 4,
        "amz-sdk-invocation-id"@.len() == 21,
        "amz-sdk-request"@.len() == 15,
        "Authorization"@.len() == 13,
        "tokentype"@.len() == 9,
        "x-amzn-kiro-profile-arn"@.len() == 23,
{
    reveal_strlit("x-amz-target");
    reveal_strlit("x-amzn-codewhisperer-optout");
    reveal_strlit("x-amzn-kiro-agent-mode");
    reveal_strlit("x-amz-user-agent");
    reveal_strlit("user-agent");
    reveal_strlit("host");
    reveal_strlit("amz-sdk-invocation-id");
    reveal_strlit("amz-sdk-request");
    reveal_strlit("Authorization");
    reveal_strlit("tokentype");
    reveal_strlit("x-amzn-kiro-profile-arn");
}

proof fn lemma_no_header_named(hs: Seq<(Seq<char>, Seq<char>)>, name: Seq<char>)
    requires
        forall|i: int| 0 <= i < hs.len() ==> (#[trigger] hs[i]).0.len() != name.len(),
    ensures
        !has_header_named(hs, name),
{
}

/// What an assistant API request carries: the host and invocation id it is
/// given, the bearer token, the routing target exactly when there is one, the
/// token type exactly when the account has one, and never a profile ARN.
pub proof fn lemma_api_headers_carry(
    target: Option<Seq<char>>,
    host: Seq<char>,
    m: ContextModel,
    invocation_id: Seq<char>,
)
    ensures
        ({
            let hs = api_headers_spec(target, host, m, invocation_id);
            &&& hs.contains(("host"@, host))
            &&& hs.contains(("amz-sdk-invocation-id"@, invocation_id))
            &&& hs.contains(("Authorization"@, "Bearer "@ + m.token))
            &&& hs.contains(("x-amz-user-agent"@, "aws-sdk-js/1.0.34 KiroIDE-"@ + m.kiro_version
                + "-"@ + m.machine_id))
            &&& match target {
                Some(t) => hs.contains(("x-amz-target"@, t)),
                None => !has_header_named(hs, "x-amz-target"@),
            }
            &&& match m.token_type {
                Some(t) => hs.contains(("tokentype"@, t)),
                None => !has_header_named(hs, "tokentype"@),
            }
            &&& !has_header_named(hs, "x-amzn-kiro-profile-arn"@)
        }),
{
    lemma_reveal_header_names();
    let hs = api_headers_spec(target, host, m, invocation_id);
    let k: int = if target is Some { 1 } else { 0 };
    assert(hs[k + 4] == ("host"@, host));
    assert(hs[k + 5] == ("amz-sdk-invocation-id"@, invocation_id));
    assert(hs[k + 7] == ("Authorization"@, "Bearer "@ + m.token));
    assert(hs[k + 2] == ("x-amz-user-agent"@, x_amz_user_agent_spec(m)));
    if let Some(t) = target {
        assert(hs[0] == ("x-amz-target"@, t));
    }
    assert forall|i: int| 0 <= i < hs.len() implies ({
        let n = (#[trigger] hs[i]).0.len();
        &&& (target is None ==> n != 12)
        &&& (m.token_type is None ==> n != 9)
        &&& n != 23
    }) by {
        if i == 0 {
        } else if i == 1 {
        } else if i == 2 {
        } else if i == 3 {
        } else if i == 4 {
        } else if i == 5 {
        } else if i == 6 {
        } else if i == 7 {
        } else if i == 8 {
        } else if i == 9 {
        } else if i == 10 {
        }
    }
    if target is None {
        lemma_no_header_named(hs, "x-amz-target"@);
    }
    if m.token_type is None {
        lemma_no_header_named(hs, "tokentype"@);
    }
    lemma_no_header_named(hs, "x-amzn-kiro-profile-arn"@);
    if let Some(t) = m.token_type {
        assert(hs[hs.len() - 1] == ("tokentype"@, t));
    }
}

/// What an MCP request carries: the host and invocation id it is given, the
/// bearer token, the profile ARN exactly when the account has one, and the
/// token type exactly when the account has one, whatever the profile ARN.
pub proof fn lemma_mcp_headers_carry(host: Seq<char>, m: ContextModel, invocation_id: Seq<char>)
    ensures
        ({
            let hs = mcp_headers_spec(host, m, invocation_id);
            &&& hs.contains(("host"@, host))
            &&& hs.contains(("amz-sdk-invocation-id"@, invocation_id))
            &&& hs.contains(("Authorization"@, "Bearer "@ + m.token))
            &&& !has_header_named(hs, "x-amz-target"@)
            &&& match m.profile_arn {
                Some(a) => hs.contains(("x-amzn-kiro-profile-arn"@, a)),
                None => !has_header_named(hs, "x-amzn-kiro-profile-arn"@),
            }
            &&& match m.token_type {
                Some(t) => hs.contains(("tokentype"@, t)),
                None => !has_header_named(hs, "tokentype"@),
            }
        }),
{
    lemma_reveal_header_names();
    let hs = mcp_headers_spec(host, m, invocation_id);
    assert(hs[2] == ("host"@, host));
    assert(hs[3] == ("amz-sdk-invocation-id"@, invocation_id));
    assert(hs[5] == ("Authorization"@, "Bearer "@ + m.token));
    if let Some(a) = m.profile_arn {
        assert(hs[6] == ("x-amzn-kiro-profile-arn"@, a));
    }
    assert forall|i: int| 0 <= i < hs.len() implies ({
        let n = (#[trigger] hs[i]).0.len();
        &&& n != 12
        &&& (m.token_type is None ==> n != 9)
        &&& (m.profile_arn is None ==> n != 23)
    }) by {
        if i == 0 {
        } else if i == 1 {
        } else if i == 2 {
        } else if i == 3 {
        } else if i == 4 {
        } else if i == 5 {
        } else if i == 6 {
        } else if i == 7 {
        } else if i == 8 {
        } else if i == 9 {
        } else if i == 10 {
        }
    }
    lemma_no_header_named(hs, "x-amz-target"@);
    if m.token_type is None {
        lemma_no_header_named(hs, "tokentype"@);
    }
    if m.profile_arn is None {
        lemma_no_header_named(hs, "x-amzn-kiro-profile-arn"@);
    }
    if let Some(t) = m.token_type {
        assert(hs[hs.len() - 1] == ("tokentype"@, t));
    }
}

/// The `x-amz-user-agent` header value of `ctx`.
pub fn x_amz_user_agent_of(ctx: &RequestContext) -> (r: String)
    ensures
        r@ == x_amz_user_agent_spec(ctx@),
        r@ == "aws-sdk-js/1.0.34 KiroIDE-"@ + ctx@.kiro_version + "-"@ + ctx.machine_id@,
{
    let mut r = String::from_str("aws-sdk-js/1.0.34 KiroIDE-");
    r.append(effective_kiro_version(&ctx.config.kiro_version));
    r.append("-");
    r.append(ctx.machine_id);
    r
}

/// The `user-agent` header value of `ctx`.
pub fn user_agent_of(ctx: &RequestContext) -> (r: String)
    ensures
        r@ == user_agent_spec(ctx@),
        r@ == "aws-sdk-js/1.0.34 ua/2.1 os/"@ + ctx.config.system_version@ + " lang/js md/nodejs#"@
            + ctx.config.node_version@ + " api/codewhispererstreaming#1.0.34 m/E KiroIDE-"@
            + ctx@.kiro_version + "-"@ + ctx.machine_id@,
{
    let mut r = String::from_str("aws-sdk-js/1.0.34 ua/2.1 os/");
    r.append(ctx.config.system_version.as_str());
    r.append(" lang/js md/nodejs#");
    r.append(ctx.config.node_version.as_str());
    r.append(" api/codewhispererstreaming#1.0.34 m/E KiroIDE-");
    r.append(effective_kiro_version(&ctx.config.kiro_version));
    r.append("-");
    r.append(ctx.machine_id);
    r
}

fn push_header(hs: &mut Vec<Header>, name: &str, value: &str)
    ensures
        headers_view(final(hs)@) == headers_view(old(hs)@).push((name@, value@)),
{
    hs.push(Header { name: String::from_str(name), value: String::from_str(value) });
    assert(headers_view(hs@) =~= headers_view(old(hs)@).push((name@, value@)));
}

fn push_optional_header(hs: &mut Vec<Header>, name: &str, value: Option<&str>)
    ensures
        headers_view(final(hs)@) == headers_view(old(hs)@) + optional_header(
            name@,
            match value {
                Some(v) => Some(v@),
                None => None,
            },
        ),
{
    match value {
        Some(v) => {
            push_header(hs, name, v);
            assert(headers_view(hs@) =~= headers_view(old(hs)@) + seq![(name@, v@)]);
        },
        None => {
            assert(headers_view(hs@) =~= headers_view(old(hs)@) + Seq::empty());
        },
    }
}

/// The headers of an assistant API request to `host` with the routing target
/// `target`, for `ctx`, under the invocation id `invocation_id`.
pub fn api_headers(target: Option<&str>, host: &str, ctx: &RequestContext, invocation_id: &str) -> (hs:
    Vec<Header>)
    ensures
        headers_view(hs@) == api_headers_spec(
            match target {
                Some(t) => Some(t@),
                None => None,
            },
            host@,
            ctx@,
            invocation_id@,
        ),
            headers_view(hs@).contains(("host"@, host@)),
            headers_view(hs@).contains(("amz-sdk-invocation-id"@, invocation_id@)),
            headers_view(hs@).contains(("Authorization"@, "Bearer "@ + ctx.token@)),
            match ctx.credentials.token_type {
                Some(t) => headers_view(hs@).contains(("tokentype"@, t@)),
                None => !has_header_named(headers_view(hs@), "tokentype"@),
            },
            match target {
                Some(t) => headers_view(hs@).contains(("x-amz-target"@, t@)),
                None => !has_header_named(headers_view(hs@), "x-amz-target"@),
            },
{
    let mut hs: Vec<Header> = Vec::new();
    assert(headers_view(hs@) =~= Seq::empty());
    push_optional_header(&mut hs, "x-amz-target", target);
    push_header(&mut hs, "x-amzn-codewhisperer-optout", "true");
    push_header(&mut hs, "x-amzn-kiro-agent-mode", "vibe");
    let xua = x_amz_user_agent_of(ctx);
    push_header(&mut hs, "x-amz-user-agent", xua.as_str());
    let ua = user_agent_of(ctx);
    push_header(&mut hs, "user-agent", ua.as_str());
    push_header(&mut hs, "host", host);
    push_header(&mut hs, "amz-sdk-invocation-id", invocation_id);
    push_header(&mut hs, "amz-sdk-request", "attempt=1; max=3");
    let mut bearer = String::from_str("Bearer ");
    bearer.append(ctx.token);
    push_header(&mut hs, "Authorization", bearer.as_str());
    push_optional_header(&mut hs, "tokentype", ctx.credentials.token_type_header());
    assert(headers_view(hs@) =~= api_headers_spec(
        match target {
            Some(t) => Some(t@),
            None => None,
        },
        host@,
        ctx@,
        invocation_id@,
    ));
    proof {
        lemma_api_headers_carry(
            match target {
                Some(t) => Some(t@),
                None => None,
            },
            host@,
            ctx@,
            invocation_id@,
        );
    }
    hs
}

/// The headers of an MCP request to `host`, for `ctx`, under the invocation
/// id `invocation_id`.
pub fn mcp_headers(host: &str, ctx: &RequestContext, invocation_id: &str) -> (hs: Vec<Header>)
    ensures
        headers_view(hs@) == mcp_headers_spec(host@, ctx@, invocation_id@),
            headers_view(hs@).contains(("host"@, host@)),
            headers_view(hs@).contains(("amz-sdk-invocation-id"@, invocation_id@)),
            headers_view(hs@).contains(("Authorization"@, "Bearer "@ + ctx.token@)),
            match ctx.credentials.token_type {
                Some(t) => headers_view(hs@).contains(("tokentype"@, t@)),
                None => !has_header_named(headers_view(hs@), "tokentype"@),
            },
            match ctx.credentials.profile_arn {
                Some(a) => headers_view(hs@).contains(("x-amzn-kiro-profile-arn"@, a@)),
                None => !has_header_named(headers_view(hs@), "x-amzn-kiro-profile-arn"@),
            },
            !has_header_named(headers_view(hs@), "x-amz-target"@),
{
    let mut hs: Vec<Header> = Vec::new();
    assert(headers_view(hs@) =~= Seq::empty());
    let xua = x_amz_user_agent_of(ctx);
    push_header(&mut hs, "x-amz-user-agent", xua.as_str());
    let ua = user_agent_of(ctx);
    push_header(&mut hs, "user-agent", ua.as_str());
    push_header(&mut hs, "host", host);
    push_header(&mut hs, "amz-sdk-invocation-id", invocation_id);
    push_header(&mut hs, "amz-sdk-request", "attempt=1; max=3");
    let mut bearer = String::from_str("Bearer ");
    bearer.append(ctx.token);
    push_header(&mut hs, "Authorization", bearer.as_str());
    push_optional_header(&mut hs, "x-amzn-kiro-profile-arn", ctx.credentials.effective_profile_arn());
    push_optional_header(&mut hs, "tokentype", ctx.credentials.token_type_header());
    assert(headers_view(hs@) =~= mcp_headers_spec(host@, ctx@, invocation_id@));
    proof {
        lemma_mcp_headers_carry(host@, ctx@, invocation_id@);
    }
    hs
}

/// The entries that putting the headers `hs` on a builder adds: each name in
/// lower case with its value.
pub open spec fn header_entries(hs: Seq<(Seq<char>, Seq<char>)>) -> Multiset<(Seq<char>, Seq<char>)>
    decreases hs.len(),
{
    if hs.len() == 0 {
        Multiset::empty()
    } else {
        header_entries(hs.drop_last()).insert((ascii_lower(hs.last().0), hs.last().1))
    }
}

/// Whether every header of `hs` has a valid name and a valid value.
pub open spec fn all_headers_valid(hs: Seq<(Seq<char>, Seq<char>)>) -> bool {
    forall|i: int|
        0 <= i < hs.len() ==> is_valid_header_name(#[trigger] hs[i].0) && is_valid_header_value(
            hs[i].1,
        )
}

/// `r` is `req` with the headers `hs` put on it: it stays valid exactly when
/// `req` was valid and every header is, and then holds `req`'s headers and
/// those of `hs`.
pub open spec fn builder_decorated(
    req: RequestBuilder,
    r: RequestBuilder,
    hs: Seq<(Seq<char>, Seq<char>)>,
) -> bool {
    &&& builder_is_ok(r) <==> (builder_is_ok(req) && all_headers_valid(hs))
    &&& builder_is_ok(r) ==> builder_headers(r) == builder_headers(req).add(header_entries(hs))
}

/// Puts each header of `hs` on `req`, in order.
pub fn apply_headers(req: RequestBuilder, hs: &Vec<Header>) -> (r: RequestBuilder)
    requires
        builder_has_room(req, hs.len() as int),
    ensures
        builder_decorated(req, r, headers_view(hs@)),
{
    let ghost v = headers_view(hs@);
    let ghost n = hs.len() as int;
    let mut cur = req;
    let mut i: usize = 0;
    assert(v.take(0) =~= Seq::<(Seq<char>, Seq<char>)>::empty());
    assert(builder_headers(req).add(header_entries(v.take(0))) =~= builder_headers(req));
    while i < hs.len()
        invariant
            i <= hs.len(),
            v == headers_view(hs@),
            n == hs.len(),
            builder_has_room(req, n),
            builder_has_room(cur, n - i),
            builder_is_ok(cur) <==> (builder_is_ok(req) && all_headers_valid(v.take(i as int))),
            builder_is_ok(cur) ==> builder_headers(cur) == builder_headers(req).add(
                header_entries(v.take(i as int)),
            ),
        decreases hs.len() - i,
    {
        let ghost prev = cur;
        assert(v[i as int] == (hs@[i as int].name@, hs@[i as int].value@));
        cur = with_header(cur, hs[i].name.as_str(), hs[i].value.as_str());
        let ghost t = v.take(i + 1);
        assert(t.drop_last() =~= v.take(i as int));
        assert(t.last() == v[i as int]);
        assert(all_headers_valid(t) <==> (all_headers_valid(v.take(i as int))
            && is_valid_header_name(v[i as int].0) && is_valid_header_value(v[i as int].1))) by {
            if all_headers_valid(t) {
                assert forall|k: int| 0 <= k < i implies is_valid_header_name(
                    #[trigger] v.take(i as int)[k].0,
                ) && is_valid_header_value(v.take(i as int)[k].1) by {
                    assert(v.take(i as int)[k] == t[k]);
                }
                assert(t[i as int] == v[i as int]);
            }
        }
        proof {
            if builder_is_ok(cur) {
                assert(builder_headers(cur) =~= builder_headers(req).add(header_entries(t)));
            }
        }
        i = i + 1;
    }
    assert(v.take(n) =~= v);
    cur
}

} // verus!
