//! OAuth discovery documents: protected-resource metadata naming this
//! gateway and its authorization servers, and authorization-server
//! metadata pointing clients at the upstream identity provider. Only the
//! `S256` code-challenge method is ever advertised — never `plain`.

use vstd::prelude::*;
use vstd::string::{StringExecFns, StrSliceExecFns};
use crate::json::{
    append_member_arr, append_member_str, object_close, object_comma, object_open, spec_arr,
    spec_arr_body, spec_escape, spec_escape_char, spec_member_arr, spec_member_str, spec_quote,
    spec_views,
};
use crate::text::{lemma_contains_left, lemma_contains_right, spec_contains, spec_contains_at};

verus! {

/// The protected-resource metadata document: this gateway's externally
/// reachable identifier, the authorization servers that issue tokens for
/// it, and the accepted bearer-token delivery methods (the header alone).
#[derive(Clone, Debug)]
pub struct ProtectedResourceMetadata {
    pub resource: String,
    pub authorization_servers: Vec<String>,
    pub bearer_methods_supported: Vec<String>,
}

/// The authorization-server metadata document for the upstream identity
/// provider: its endpoints and the grant types, code-challenge methods,
/// scopes, response shapes and client-authentication methods it supports.
#[derive(Clone, Debug)]
pub struct AuthorizationServerMetadata {
    pub issuer: String,
    pub authorization_endpoint: String,
    pub token_endpoint: String,
    pub introspection_endpoint: String,
    pub jwks_uri: String,
    pub registration_endpoint: String,
    pub code_challenge_methods_supported: Vec<String>,
    pub grant_types_supported: Vec<String>,
    pub response_modes_supported: Vec<String>,
    pub response_types_supported: Vec<String>,
    pub scopes_supported: Vec<String>,
    pub token_endpoint_auth_methods_supported: Vec<String>,
}

/// Builds the protected-resource document: the gateway's own base URL as
/// the resource, the identity provider as sole authorization server, and
/// header-carried bearer tokens as the sole delivery method.
pub fn oauth_protected_resource_server(resource: &str, authkit_url: &str) -> (r:
    ProtectedResourceMetadata)
    ensures
        r.resource@ == resource@,
        r.authorization_servers@.len() == 1,
        r.authorization_servers@[0]@ == authkit_url@,
        r.bearer_methods_supported@.len() == 1,
        r.bearer_methods_supported@[0]@ == "header"@,
{
    ProtectedResourceMetadata {
        resource: String::from_str(resource),
        authorization_servers: vec![String::from_str(authkit_url)],
        bearer_methods_supported: vec![String::from_str("header")],
    }
}

/// Builds the authorization-server document from the identity provider's
/// base URL: each endpoint is the base URL with its fixed path appended,
/// the grant types are `authorization_code` and `refresh_token`, and the
/// only code-challenge method is `S256` — `plain` is never advertised.
pub fn oauth_authorization_server(authkit_url: &str) -> (r: AuthorizationServerMetadata)
    ensures
        r.issuer@ == authkit_url@,
        r.authorization_endpoint@ == authkit_url@ + "/oauth2/authorize"@,
        r.token_endpoint@ == authkit_url@ + "/oauth2/token"@,
        r.introspection_endpoint@ == authkit_url@ + "/oauth2/introspection"@,
        r.jwks_uri@ == authkit_url@ + "/oauth2/jwks"@,
        r.registration_endpoint@ == authkit_url@ + "/oauth2/register"@,
        r.code_challenge_methods_supported@.len() == 1,
        r.code_challenge_methods_supported@[0]@ == "S256"@,
        r.grant_types_supported@.len() == 2,
        r.grant_types_supported@[0]@ == "authorization_code"@,
        r.grant_types_supported@[1]@ == "refresh_token"@,
        r.response_modes_supported@.len() == 1,
        r.response_modes_supported@[0]@ == "query"@,
        r.response_types_supported@.len() == 1,
        r.response_types_supported@[0]@ == "code"@,
        r.scopes_supported@.len() == 4,
        r.scopes_supported@[0]@ == "email"@,
        r.scopes_supported@[1]@ == "offline_access"@,
        r.scopes_supported@[2]@ == "openid"@,
        r.scopes_supported@[3]@ == "profile"@,
        r.token_endpoint_auth_methods_supported@.len() == 3,
        r.token_endpoint_auth_methods_supported@[0]@ == "none"@,
        r.token_endpoint_auth_methods_supported@[1]@ == "client_secret_post"@,
        r.token_endpoint_auth_methods_supported@[2]@ == "client_secret_basic"@,
{
    AuthorizationServerMetadata {
        issuer: String::from_str(authkit_url),
        authorization_endpoint: String::from_str(authkit_url).concat("/oauth2/authorize"),
        token_endpoint: String::from_str(authkit_url).concat("/oauth2/token"),
        introspection_endpoint: String::from_str(authkit_url).concat("/oauth2/introspection"),
        jwks_uri: String::from_str(authkit_url).concat("/oauth2/jwks"),
        registration_endpoint: String::from_str(authkit_url).concat("/oauth2/register"),
        code_challenge_methods_supported: vec![String::from_str("S256")],
        grant_types_supported: vec![
            String::from_str("authorization_code"),
            String::from_str("refresh_token"),
        ],
        response_modes_supported: vec![String::from_str("query")],
        response_types_supported: vec![String::from_str("code")],
        scopes_supported: vec![
            String::from_str("email"),
            String::from_str("offline_access"),
            String::from_str("openid"),
            String::from_str("profile"),
        ],
        token_endpoint_auth_methods_supported: vec![
            String::from_str("none"),
            String::from_str("client_secret_post"),
            String::from_str("client_secret_basic"),
        ],
    }
}

/// Law: a method list that is exactly `S256` never carries `plain`, nor
/// any other method.
pub proof fn lemma_no_plain_advertised(methods: Seq<Seq<char>>)
    requires
        methods.len() == 1,
        methods[0] == "S256"@,
    ensures
        forall|i: int| 0 <= i < methods.len() ==> methods[i] != "plain"@,
{
    reveal_strlit("S256");
    reveal_strlit("plain");
    assert("S256"@.len() == 4);
    assert("plain"@.len() == 5);
}

/// Law: whenever the advertised code-challenge methods are exactly
/// `S256`, the rendered document's text names `S256`.
pub proof fn lemma_json_names_s256(m: &AuthorizationServerMetadata)
    requires
        m.code_challenge_methods_supported@.len() == 1,
        m.code_challenge_methods_supported@[0]@ == "S256"@,
    ensures
        spec_contains(m.spec_json(), "S256"@),
{
    reveal_strlit("S256");
    let s = "S256"@;
    assert(s =~= seq!['S', '2', '5', '6']);
    let s1 = seq!['S'];
    let s2 = seq!['S', '2'];
    let s3 = seq!['S', '2', '5'];
    assert(spec_escape_char('S') =~= seq!['S']);
    assert(spec_escape_char('2') =~= seq!['2']);
    assert(spec_escape_char('5') =~= seq!['5']);
    assert(spec_escape_char('6') =~= seq!['6']);
    assert(spec_escape(Seq::<char>::empty()) =~= Seq::<char>::empty());
    assert(s1.drop_last() =~= Seq::<char>::empty() && s1.last() == 'S');
    assert(spec_escape(s1) =~= s1);
    assert(s2.drop_last() =~= s1 && s2.last() == '2');
    assert(spec_escape(s2) =~= s2);
    assert(s3.drop_last() =~= s2 && s3.last() == '5');
    assert(spec_escape(s3) =~= s3);
    assert(s.drop_last() =~= s3 && s.last() == '6');
    assert(spec_escape(s) =~= s);

    assert(spec_quote(s).subrange(1, 5) =~= s);
    assert(spec_contains_at(spec_quote(s), s, 1));
    assert(spec_contains(spec_quote(s), s));

    let views = spec_views(m.code_challenge_methods_supported@);
    assert(views.len() == 1 && views[0] == s);
    assert(spec_arr_body(views) == spec_quote(s));
    lemma_contains_right(seq!['['], spec_arr_body(views), s);
    lemma_contains_left(seq!['['] + spec_arr_body(views), seq![']'], s);
    assert(spec_contains(spec_arr(views), s));

    let key = "code_challenge_methods_supported"@;
    lemma_contains_right(spec_quote(key) + seq![':'], spec_arr(views), s);
    assert(spec_contains(spec_member_arr(key, views), s));

    lemma_contains_right(m.spec_json_prefix(), spec_member_arr(key, views), s);
    lemma_contains_left(
        m.spec_json_prefix() + spec_member_arr(key, views),
        m.spec_json_tail(),
        s,
    );
}

impl ProtectedResourceMetadata {
    /// The rendered document, members in lexicographic key order.
    pub open spec fn spec_json(&self) -> Seq<char> {
        seq!['{']
            + spec_member_arr("authorization_servers"@, spec_views(self.authorization_servers@))
            + seq![',']
            + spec_member_arr(
                "bearer_methods_supported"@,
                spec_views(self.bearer_methods_supported@),
            )
            + seq![',']
            + spec_member_str("resource"@, self.resource@)
            + seq!['}']
    }

    /// Renders the document as JSON text.
    pub fn to_json(&self) -> (r: String)
        ensures
            r@ == self.spec_json(),
    {
        let mut out = String::new();
        object_open(&mut out);
        append_member_arr(&mut out, "authorization_servers", &self.authorization_servers);
        object_comma(&mut out);
        append_member_arr(&mut out, "bearer_methods_supported", &self.bearer_methods_supported);
        object_comma(&mut out);
        append_member_str(&mut out, "resource", self.resource.as_str());
        object_close(&mut out);
        proof {
            assert(out@ =~= self.spec_json());
        }
        out
    }
}

impl AuthorizationServerMetadata {
    /// The document up to the code-challenge member.
    pub open spec fn spec_json_prefix(&self) -> Seq<char> {
        seq!['{']
            + spec_member_str("authorization_endpoint"@, self.authorization_endpoint@)
            + seq![',']
    }

    /// The document after the code-challenge member.
    pub open spec fn spec_json_tail(&self) -> Seq<char> {
        seq![',']
            + spec_member_arr("grant_types_supported"@, spec_views(self.grant_types_supported@))
            + seq![',']
            + spec_member_str("introspection_endpoint"@, self.introspection_endpoint@)
            + seq![',']
            + spec_member_str("issuer"@, self.issuer@)
            + seq![',']
            + spec_member_str("jwks_uri"@, self.jwks_uri@)
            + seq![',']
            + spec_member_str("registration_endpoint"@, self.registration_endpoint@)
            + seq![',']
            + spec_member_arr(
                "response_modes_supported"@,
                spec_views(self.response_modes_supported@),
            )
            + seq![',']
            + spec_member_arr(
                "response_types_supported"@,
                spec_views(self.response_types_supported@),
            )
            + seq![',']
            + spec_member_arr("scopes_supported"@, spec_views(self.scopes_supported@))
            + seq![',']
            + spec_member_str("token_endpoint"@, self.token_endpoint@)
            + seq![',']
            + spec_member_arr(
                "token_endpoint_auth_methods_supported"@,
                spec_views(self.token_endpoint_auth_methods_supported@),
            )
            + seq!['}']
    }

    /// The rendered document, members in lexicographic key order.
    pub open spec fn spec_json(&self) -> Seq<char> {
        self.spec_json_prefix()
            + spec_member_arr(
                "code_challenge_methods_supported"@,
                spec_views(self.code_challenge_methods_supported@),
            )
            + self.spec_json_tail()
    }

    /// Renders the document as JSON text.
    #[verifier::rlimit(60)]
    pub fn to_json(&self) -> (r: String)
        ensures
            r@ == self.spec_json(),
    {
        let mut out = String::new();
        object_open(&mut out);
        append_member_str(&mut out, "authorization_endpoint", self.authorization_endpoint.as_str());
        object_comma(&mut out);
        append_member_arr(
            &mut out,
            "code_challenge_methods_supported",
            &self.code_challenge_methods_supported,
        );
        object_comma(&mut out);
        append_member_arr(&mut out, "grant_types_supported", &self.grant_types_supported);
        object_comma(&mut out);
        append_member_str(&mut out, "introspection_endpoint", self.introspection_endpoint.as_str());
        object_comma(&mut out);
        append_member_str(&mut out, "issuer", self.issuer.as_str());
        object_comma(&mut out);
        append_member_str(&mut out, "jwks_uri", self.jwks_uri.as_str());
        object_comma(&mut out);
        append_member_str(&mut out, "registration_endpoint", self.registration_endpoint.as_str());
        object_comma(&mut out);
        append_member_arr(&mut out, "response_modes_supported", &self.response_modes_supported);
        object_comma(&mut out);
        append_member_arr(&mut out, "response_types_supported", &self.response_types_supported);
        object_comma(&mut out);
        append_member_arr(&mut out, "scopes_supported", &self.scopes_supported);
        object_comma(&mut out);
        append_member_str(&mut out, "token_endpoint", self.token_endpoint.as_str());
        object_comma(&mut out);
        append_member_arr(
            &mut out,
            "token_endpoint_auth_methods_supported",
            &self.token_endpoint_auth_methods_supported,
        );
        object_close(&mut out);
        proof {
            assert(out@ =~= self.spec_json());
        }
        out
    }
}

} // verus!
