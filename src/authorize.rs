use vstd::prelude::*;
use crate::AuthError;
use crate::listener::url_port;
use crate::query::{encode_pairs, form_encoded, pairs_view, value_of};
use crate::text::{join_with, joined, views};

verus! {

/// The provider's authorization endpoint.
pub const AUTHORIZE_ENDPOINT: &'static str = "https://accounts.spotify.com/authorize";

/// The settings of one authorization run. They are read once and not changed afterwards.
pub struct AuthConfig {
    pub client_id: String,
    pub client_secret: String,
    pub redirect_uri: String,
    /// The requested scopes, in the order in which they are sent.
    pub scopes: Vec<String>,
    /// The anti-forgery value sent along, where there is one.
    pub state: Option<String>,
    /// Whether the provider is asked to show its consent dialog again.
    pub show_dialog: bool,
}

/// The scope parameter: the scopes joined by single spaces.
pub open spec fn scope_spec(c: &AuthConfig) -> Seq<char> {
    joined(views(c.scopes@), " "@)
}

/// The query parameters of the authorization URL, in order.
pub open spec fn authorize_params_spec(c: &AuthConfig) -> Seq<(Seq<char>, Seq<char>)> {
    seq![
        ("client_id"@, c.client_id@),
        ("response_type"@, "code"@),
        ("redirect_uri"@, c.redirect_uri@),
        ("scope"@, scope_spec(c)),
    ] + match c.state {
        Some(s) => seq![("state"@, s@)],
        None => Seq::empty(),
    } + if c.show_dialog {
        seq![("show_dialog"@, "true"@)]
    } else {
        Seq::empty()
    }
}

/// The authorization URL: the endpoint, then the encoded parameters as its query.
pub open spec fn authorize_url_spec(c: &AuthConfig) -> Seq<char> {
    AUTHORIZE_ENDPOINT@ + "?"@ + form_encoded(authorize_params_spec(c))
}

/// The query parameters of the authorization URL for `config`.
pub fn authorize_params(config: &AuthConfig) -> (r: Vec<(String, String)>)
    ensures
        pairs_view(r@) == authorize_params_spec(config),
{
    let mut v: Vec<(String, String)> = Vec::new();
    v.push((String::from_str("client_id"), config.client_id.clone()));
    v.push((String::from_str("response_type"), String::from_str("code")));
    v.push((String::from_str("redirect_uri"), config.redirect_uri.clone()));
    v.push((String::from_str("scope"), join_with(&config.scopes, " ")));
    match &config.state {
        Some(s) => {
            v.push((String::from_str("state"), s.clone()));
        },
        None => {},
    }
    if config.show_dialog {
        v.push((String::from_str("show_dialog"), String::from_str("true")));
    }
    assert(pairs_view(v@) =~= authorize_params_spec(config));
    v
}

/// The authorization URL for `config`. It fails with a configuration error exactly
/// when the redirect URI is not an absolute URL.
pub fn authorize_url(config: &AuthConfig) -> (r: Result<String, AuthError>)
    ensures
        match r {
            Ok(u) => url_port(config.redirect_uri@) is Some && u@ == authorize_url_spec(config),
            Err(e) => url_port(config.redirect_uri@) is None && e == AuthError::Config,
        },
{
    if crate::listener::callback_port(config.redirect_uri.as_str()).is_err() {
        return Err(AuthError::Config);
    }
    let query = encode_pairs(&authorize_params(config));
    let mut url = String::from_str(AUTHORIZE_ENDPOINT);
    url.append("?");
    url.append(query.as_str());
    Ok(url)
}

/// The authorization URL's parameters carry exactly the configured client id,
/// redirect URI and scopes, each under its own name and each name once, together
/// with the request for an authorization code.
pub proof fn lemma_params_carry_config(c: &AuthConfig)
    ensures
        value_of(authorize_params_spec(c), "client_id"@) == Some(c.client_id@),
        value_of(authorize_params_spec(c), "redirect_uri"@) == Some(c.redirect_uri@),
        value_of(authorize_params_spec(c), "scope"@) == Some(scope_spec(c)),
        value_of(authorize_params_spec(c), "response_type"@) == Some("code"@),
        forall|i: int, j: int|
            0 <= i < j < authorize_params_spec(c).len() ==> authorize_params_spec(c)[i].0
                != authorize_params_spec(c)[j].0,
{
    reveal_strlit("client_id");
    reveal_strlit("response_type");
    reveal_strlit("redirect_uri");
    reveal_strlit("scope");
    reveal_strlit("state");
    reveal_strlit("show_dialog");
    assert("client_id"@.len() == 9);
    assert("response_type"@.len() == 13);
    assert("redirect_uri"@.len() == 12);
    assert("scope"@.len() == 5);
    assert("state"@.len() == 5);
    assert("show_dialog"@.len() == 11);
    let p = authorize_params_spec(c);
    let head = seq![
        ("client_id"@, c.client_id@),
        ("response_type"@, "code"@),
        ("redirect_uri"@, c.redirect_uri@),
        ("scope"@, scope_spec(c)),
    ];
    assert(p.subrange(0, 4) =~= head);
    assert(p[0] == head[0] && p[1] == head[1] && p[2] == head[2] && p[3] == head[3]);
    assert(p.len() <= 6);
    assert(4 < p.len() ==> p[4].0 == "state"@ || p[4].0 == "show_dialog"@);
    assert(5 < p.len() ==> p[5].0 == "show_dialog"@ && p[4].0 == "state"@);
    assert("scope"@[1] != "state"@[1]);
    assert("scope"@ != "state"@);
    assert(p.drop_first()[0] == p[1]);
    assert(p.drop_first().drop_first()[0] == p[2]);
    assert(p.drop_first().drop_first().drop_first()[0] == p[3]);
    assert(p[0].0 != p[1].0 && p[0].0 != p[2].0 && p[1].0 != p[2].0);
    assert(p[0].0 != p[3].0 && p[1].0 != p[3].0 && p[2].0 != p[3].0);
    crate::query::lemma_value_of_skip(p, "response_type"@, 1);
    assert(p.subrange(1, p.len() as int)[0] == p[1]);
    crate::query::lemma_value_of_skip(p, "redirect_uri"@, 2);
    assert(p.subrange(2, p.len() as int)[0] == p[2]);
    crate::query::lemma_value_of_skip(p, "scope"@, 3);
    assert(p.subrange(3, p.len() as int)[0] == p[3]);
}

} // verus!
