//! OAuth scopes (RFC 6749 §3.3) and the checks of an authorization request.

use vstd::prelude::*;
use vstd::string::StringExecFns;

use crate::oauth_errors::{OAuthAuthorizeError, OAuthErrorType};
use crate::text::{
    is_ascii_ws, join_spaced, lemma_token_len, split_ascii_whitespace, str_eq, utf8_len, views,
    ws_tokens,
};

verus! {

/// The client id of the one registered OAuth client.
pub const OAUTH_CLIENT_ID: u128 = 0;

/// The redirect URI of the desktop client.
pub const OAUTH_REDIRECT_URI: &'static str = "hermes://oauth";

/// The redirect URI of the desktop client in development.
pub const OAUTH_DEV_REDIRECT_URI: &'static str = "http://localhost:1420/oauth";

/// An advertised scope. A request for any other is rejected with
/// `invalid_scope`.
#[derive(Debug, Clone, Copy, PartialEq, Eq, Structural)]
pub enum Scope {
    Profile,
    OfflineAccess,
}

/// The name of a scope on the wire.
pub open spec fn scope_name(s: Scope) -> Seq<char> {
    match s {
        Scope::Profile => "profile"@,
        Scope::OfflineAccess => "offline_access"@,
    }
}

/// The scope a token names, if any.
pub open spec fn scope_of(t: Seq<char>) -> Option<Scope> {
    if t == "profile"@ {
        Some(Scope::Profile)
    } else if t == "offline_access"@ {
        Some(Scope::OfflineAccess)
    } else {
        None
    }
}

impl Scope {
    /// The name of the scope.
    pub fn as_str(&self) -> (r: &'static str)
        ensures
            r@ == scope_name(*self),
    {
        match self {
            Scope::Profile => "profile",
            Scope::OfflineAccess => "offline_access",
        }
    }

    /// The scope named `s`.
    pub fn from_str(s: &str) -> (r: Result<Scope, ()>)
        ensures
            match scope_of(s@) {
                Some(sc) => r == Ok::<Scope, ()>(sc),
                None => r is Err,
            },
    {
        if str_eq(s, "profile") {
            Ok(Scope::Profile)
        } else if str_eq(s, "offline_access") {
            Ok(Scope::OfflineAccess)
        } else {
            Err(())
        }
    }
}

/// The scopes a list of tokens requests, in order; none when a token names
/// no known scope or names a scope a second time.
pub open spec fn parse_tokens(ts: Seq<Seq<char>>) -> Option<Seq<Scope>>
    decreases ts.len(),
{
    if ts.len() == 0 {
        Some(Seq::empty())
    } else {
        match parse_tokens(ts.drop_last()) {
            None => None,
            Some(out) => match scope_of(ts.last()) {
                None => None,
                Some(sc) => if out.contains(sc) {
                    None
                } else {
                    Some(out.push(sc))
                },
            },
        }
    }
}

/// The known scopes a list of tokens names, unknown ones dropped, repeats kept.
pub open spec fn known_scopes(ts: Seq<Seq<char>>) -> Seq<Scope>
    decreases ts.len(),
{
    if ts.len() == 0 {
        Seq::empty()
    } else {
        match scope_of(ts.last()) {
            Some(sc) => known_scopes(ts.drop_last()).push(sc),
            None => known_scopes(ts.drop_last()),
        }
    }
}

/// Parses a space-separated scope list (RFC 6749 §3.3). An unknown scope, or
/// a scope named twice, makes the request fail with `invalid_scope`.
pub fn parse_scopes(raw: &str) -> (r: Result<Vec<Scope>, OAuthAuthorizeError>)
    ensures
        match parse_tokens(ws_tokens(raw@)) {
            Some(scopes) => r matches Ok(v) && v@ == scopes,
            None => r matches Err(e) && *e.error_type == OAuthErrorType::InvalidScope
                && e.state is None && e.valid_redirect_uri is None,
        },
{
    let tokens = split_ascii_whitespace(raw);
    let ghost ts = views(tokens@);
    let mut out: Vec<Scope> = Vec::new();
    let mut i: usize = 0;
    while i < tokens.len()
        invariant
            ts == views(tokens@),
            ts == ws_tokens(raw@),
            0 <= i <= tokens@.len(),
            parse_tokens(ts.take(i as int)) == Some(out@),
        decreases tokens.len() - i,
    {
        assert(ts.take(i as int + 1).drop_last() =~= ts.take(i as int));
        assert(ts.take(i as int + 1).last() == tokens@[i as int]@);
        let scope = match Scope::from_str(tokens[i].as_str()) {
            Ok(s) => s,
            Err(_) => {
                proof {
                    lemma_parse_tokens_fails_on_prefix(ts, i as int + 1);
                }
                return Err(OAuthAuthorizeError::error(OAuthErrorType::InvalidScope));
            },
        };
        if contains_scope(&out, scope) {
            proof {
                lemma_parse_tokens_fails_on_prefix(ts, i as int + 1);
            }
            return Err(OAuthAuthorizeError::error(OAuthErrorType::InvalidScope));
        }
        out.push(scope);
        i = i + 1;
    }
    assert(ts.take(tokens@.len() as int) =~= ts);
    Ok(out)
}

proof fn lemma_parse_tokens_fails_on_prefix(ts: Seq<Seq<char>>, n: int)
    requires
        0 <= n <= ts.len(),
        parse_tokens(ts.take(n)) is None,
    ensures
        parse_tokens(ts) is None,
    decreases ts.len() - n,
{
    if n < ts.len() {
        assert(ts.take(n + 1).drop_last() =~= ts.take(n));
        lemma_parse_tokens_fails_on_prefix(ts, n + 1);
    } else {
        assert(ts.take(n) =~= ts);
    }
}

/// `scopes` holds `s`.
pub(crate) fn contains_scope(scopes: &Vec<Scope>, s: Scope) -> (r: bool)
    ensures
        r == scopes@.contains(s),
{
    let mut i: usize = 0;
    while i < scopes.len()
        invariant
            0 <= i <= scopes@.len(),
            forall|k: int| 0 <= k < i ==> scopes@[k] != s,
        decreases scopes.len() - i,
    {
        if scopes[i] == s {
            return true;
        }
        i = i + 1;
    }
    false
}

/// The names of a list of scopes.
pub open spec fn scope_names(scopes: Seq<Scope>) -> Seq<Seq<char>> {
    scopes.map_values(|s: Scope| scope_name(s))
}

/// The scopes as a space-separated list.
pub fn scopes_to_string(scopes: &[Scope]) -> (r: String)
    ensures
        r@ == join_spaced(scope_names(scopes@)),
{
    let ghost names = scope_names(scopes@);
    let mut out = String::new();
    let mut i: usize = 0;
    assert(names.take(0) =~= Seq::<Seq<char>>::empty());
    while i < scopes.len()
        invariant
            names == scope_names(scopes@),
            0 <= i <= scopes@.len(),
            out@ == join_spaced(names.take(i as int)),
        decreases scopes.len() - i,
    {
        assert(names.take(i as int + 1).drop_last() =~= names.take(i as int));
        if i > 0 {
            out.append(" ");
        }
        out.append(scopes[i].as_str());
        i = i + 1;
    }
    assert(names.take(scopes@.len() as int) =~= names);
    out
}

/// The scopes recorded with a grant. Rows were checked on the way in, but an
/// unknown scope is treated as absent.
pub fn scopes_from_stored(stored: &Option<String>) -> (r: Vec<Scope>)
    ensures
        match stored {
            Some(s) => r@ == known_scopes(ws_tokens(s@)),
            None => r@.len() == 0,
        },
{
    match stored {
        None => Vec::new(),
        Some(s) => {
            let tokens = split_ascii_whitespace(s.as_str());
            let ghost ts = views(tokens@);
            let mut out: Vec<Scope> = Vec::new();
            let mut i: usize = 0;
            while i < tokens.len()
                invariant
                    ts == views(tokens@),
                    ts == ws_tokens(s@),
                    0 <= i <= tokens@.len(),
                    known_scopes(ts.take(i as int)) == out@,
                decreases tokens.len() - i,
            {
                assert(ts.take(i as int + 1).drop_last() =~= ts.take(i as int));
                assert(ts.take(i as int + 1).last() == tokens@[i as int]@);
                if let Ok(scope) = Scope::from_str(tokens[i].as_str()) {
                    out.push(scope);
                }
                i = i + 1;
            }
            assert(ts.take(tokens@.len() as int) =~= ts);
            out
        },
    }
}

/// An authorization request (RFC 6749 §4.1.1 with PKCE).
#[derive(Debug, Clone)]
pub struct OAuthAuthorizeQuery {
    /// Must be "code".
    pub response_type: String,
    pub client_id: u128,
    pub redirect_uri: String,
    /// Opaque value chosen by the client and echoed back; required.
    pub state: String,
    /// Space-separated scope list.
    pub scope: Option<String>,
    pub code_challenge: String,
    /// Must be "S256".
    pub code_challenge_method: String,
}

/// The first check an authorization request fails, and whether the failure
/// may be redirected back to the client; none when it passes them all. The
/// redirect URI and client are checked first, since a failure before they
/// are known good must not be redirected.
pub open spec fn authorize_failure(q: OAuthAuthorizeQuery) -> Option<(OAuthErrorType, bool)> {
    if q.redirect_uri@ != OAUTH_REDIRECT_URI@ && q.redirect_uri@ != OAUTH_DEV_REDIRECT_URI@ {
        Some((OAuthErrorType::InvalidRedirect, false))
    } else if q.client_id != OAUTH_CLIENT_ID {
        Some((OAuthErrorType::InvalidClientId, false))
    } else if q.state@.len() == 0 {
        Some((OAuthErrorType::InvalidRequest, false))
    } else if q.response_type@ != "code"@ {
        Some((OAuthErrorType::InvalidCodeGrant, true))
    } else if q.code_challenge_method@ != "S256"@ {
        Some((OAuthErrorType::UnsupportedCodeChallengeMethod, true))
    } else if utf8_len(q.code_challenge@) < 43 || utf8_len(q.code_challenge@) > 128 {
        Some((OAuthErrorType::InvalidCodeChallenge, true))
    } else {
        match q.scope {
            Some(sc) => if parse_tokens(ws_tokens(sc@)) is None {
                Some((OAuthErrorType::InvalidScope, true))
            } else {
                None
            },
            None => None,
        }
    }
}

/// `e` reports the failure `f` of request `q`: redirected failures carry the
/// request's state and redirect URI, the others carry neither.
pub open spec fn reports_failure(q: OAuthAuthorizeQuery, f: (OAuthErrorType, bool), e: OAuthAuthorizeError) -> bool {
    &&& *e.error_type == f.0
    &&& if f.1 {
        &&& (e.state matches Some(s) && s@ == q.state@)
        &&& (e.valid_redirect_uri matches Some(u) && u@ == q.redirect_uri@)
    } else {
        e.state is None && e.valid_redirect_uri is None
    }
}

impl OAuthAuthorizeQuery {
    /// Checks the request.
    pub fn validate(&self) -> (r: Result<(), OAuthAuthorizeError>)
        ensures
            match authorize_failure(*self) {
                None => r is Ok,
                Some(f) => r matches Err(e) && reports_failure(*self, f, e),
            },
    {
        if !str_eq(self.redirect_uri.as_str(), OAUTH_REDIRECT_URI) && !str_eq(
            self.redirect_uri.as_str(),
            OAUTH_DEV_REDIRECT_URI,
        ) {
            return Err(OAuthAuthorizeError::error(OAuthErrorType::InvalidRedirect));
        }
        if self.client_id != OAUTH_CLIENT_ID {
            return Err(OAuthAuthorizeError::error(OAuthErrorType::InvalidClientId));
        }
        if self.state.as_str().is_empty() {
            return Err(OAuthAuthorizeError::error(OAuthErrorType::InvalidRequest));
        }
        if !str_eq(self.response_type.as_str(), "code") {
            return Err(
                OAuthAuthorizeError::redirect(
                    OAuthErrorType::InvalidCodeGrant,
                    self.state.as_str(),
                    self.redirect_uri.clone(),
                ),
            );
        }
        if !str_eq(self.code_challenge_method.as_str(), "S256") {
            return Err(
                OAuthAuthorizeError::redirect(
                    OAuthErrorType::UnsupportedCodeChallengeMethod,
                    self.state.as_str(),
                    self.redirect_uri.clone(),
                ),
            );
        }
        let challenge_len = self.code_challenge.as_str().as_bytes().len();
        if challenge_len < 43 || challenge_len > 128 {
            return Err(
                OAuthAuthorizeError::redirect(
                    OAuthErrorType::InvalidCodeChallenge,
                    self.state.as_str(),
                    self.redirect_uri.clone(),
                ),
            );
        }
        if let Some(scope) = &self.scope {
            if let Err(_) = parse_scopes(scope.as_str()) {
                return Err(
                    OAuthAuthorizeError::redirect(
                        OAuthErrorType::InvalidScope,
                        self.state.as_str(),
                        self.redirect_uri.clone(),
                    ),
                );
            }
        }
        Ok(())
    }
}

/// Law: a parsed scope list names each scope once.
pub proof fn law_parsed_scopes_distinct(ts: Seq<Seq<char>>)
    ensures
        parse_tokens(ts) matches Some(sc) ==> sc.no_duplicates(),
    decreases ts.len(),
{
    if ts.len() > 0 {
        law_parsed_scopes_distinct(ts.drop_last());
        match parse_tokens(ts.drop_last()) {
            Some(out) => match scope_of(ts.last()) {
                Some(sc) => if !out.contains(sc) {
                    let r = out.push(sc);
                    assert forall|a: int, b: int| 0 <= a < b < r.len() implies r[a] != r[b] by {
                        if b == out.len() {
                            assert(out[a] == r[a]);
                        }
                    }
                },
                None => {},
            },
            None => {},
        }
    }
}

proof fn lemma_scope_name(s: Scope)
    ensures
        scope_of(scope_name(s)) == Some(s),
        scope_name(s).len() > 0,
        forall|i: int| 0 <= i < scope_name(s).len() ==> !is_ascii_ws(#[trigger] scope_name(s)[i]),
{
    reveal_strlit("profile");
    reveal_strlit("offline_access");
    assert("profile"@[0] != "offline_access"@[0]);
}

proof fn lemma_join_front(names: Seq<Seq<char>>)
    requires
        names.len() >= 2,
    ensures
        join_spaced(names) == names[0] + " "@ + join_spaced(names.drop_first()),
    decreases names.len(),
{
    let dl = names.drop_last();
    let df = names.drop_first();
    assert(join_spaced(names) == join_spaced(dl) + " "@ + names.last());
    if names.len() > 2 {
        lemma_join_front(dl);
        let m = df.drop_last();
        assert(dl.drop_first() =~= m);
        assert(dl[0] == names[0]);
        assert(df.last() == names.last());
        assert(join_spaced(df) == join_spaced(m) + " "@ + df.last());
        assert(join_spaced(dl) == names[0] + " "@ + join_spaced(m));
        assert(names[0] + " "@ + join_spaced(m) + " "@ + names.last() =~= names[0] + " "@ + (
        join_spaced(m) + " "@ + names.last()));
    } else {
        assert(dl.len() == 1);
        assert(join_spaced(dl) == dl[0]);
        assert(df.len() == 1);
        assert(join_spaced(df) == df[0]);
        assert(df[0] == names.last());
        assert(dl[0] == names[0]);
    }
}

proof fn lemma_tokens_of_word_then(t: Seq<char>, rest: Seq<char>)
    requires
        t.len() > 0,
        forall|i: int| 0 <= i < t.len() ==> !is_ascii_ws(#[trigger] t[i]),
        rest.len() == 0 || is_ascii_ws(rest[0]),
    ensures
        ws_tokens(t + rest) == seq![t] + ws_tokens(rest),
{
    let s = t + rest;
    assert forall|k: int| 0 <= k < t.len() implies !is_ascii_ws(#[trigger] s[k]) by {
        assert(s[k] == t[k]);
    }
    if rest.len() > 0 {
        assert(s[t.len() as int] == rest[0]);
    }
    lemma_token_len(s, t.len() as int);
    assert(s.take(t.len() as int) =~= t);
    assert(s.skip(t.len() as int) =~= rest);
}

proof fn lemma_tokens_of_join(names: Seq<Seq<char>>)
    requires
        forall|k: int| 0 <= k < names.len() ==> (#[trigger] names[k]).len() > 0,
        forall|k: int, i: int| 0 <= k < names.len() && 0 <= i < names[k].len() ==> !is_ascii_ws(#[trigger] names[k][i]),
    ensures
        ws_tokens(join_spaced(names)) == names,
    decreases names.len(),
{
    if names.len() == 0 {
        assert(ws_tokens(Seq::<char>::empty()) =~= Seq::<Seq<char>>::empty());
    } else if names.len() == 1 {
        lemma_tokens_of_word_then(names[0], Seq::empty());
        assert(names[0] + Seq::<char>::empty() =~= names[0]);
        assert(seq![names[0]] + Seq::<Seq<char>>::empty() =~= names);
    } else {
        let t = names[0];
        let rest = names.drop_first();
        assert forall|k: int| 0 <= k < rest.len() implies (#[trigger] rest[k]).len() > 0 by {
            assert(rest[k] == names[k + 1]);
        }
        assert forall|k: int, i: int| 0 <= k < rest.len() && 0 <= i < rest[k].len() implies !is_ascii_ws(#[trigger] rest[k][i]) by {
            assert(rest[k] == names[k + 1]);
        }
        lemma_tokens_of_join(rest);
        lemma_join_front(names);
        let tail = " "@ + join_spaced(rest);
        reveal_strlit(" ");
        assert(tail[0] == ' ');
        assert forall|i: int| 0 <= i < t.len() implies !is_ascii_ws(#[trigger] t[i]) by {
            assert(names[0][i] == t[i]);
        }
        lemma_tokens_of_word_then(t, tail);
        assert(t + " "@ + join_spaced(rest) =~= t + tail);
        assert(tail.drop_first() =~= join_spaced(rest));
        assert(ws_tokens(tail) == ws_tokens(tail.drop_first()));
        assert(seq![t] + rest =~= names);
    }
}

/// Law: the scope list recorded with a grant reads back as the scopes that
/// were granted. Writing distinct scopes as a string and parsing it again,
/// whether strictly or as a stored list, gives the same scopes.
pub proof fn law_stored_scopes_read_back(scopes: Seq<Scope>)
    requires
        scopes.no_duplicates(),
    ensures
        parse_tokens(ws_tokens(join_spaced(scope_names(scopes)))) == Some(scopes),
        known_scopes(ws_tokens(join_spaced(scope_names(scopes)))) == scopes,
    decreases scopes.len(),
{
    let names = scope_names(scopes);
    assert forall|k: int| 0 <= k < names.len() implies (#[trigger] names[k]).len() > 0 by {
        lemma_scope_name(scopes[k]);
    }
    assert forall|k: int, i: int| 0 <= k < names.len() && 0 <= i < names[k].len() implies !is_ascii_ws(#[trigger] names[k][i]) by {
        lemma_scope_name(scopes[k]);
    }
    lemma_tokens_of_join(names);
    lemma_parse_names(scopes);
}

proof fn lemma_parse_names(scopes: Seq<Scope>)
    requires
        scopes.no_duplicates(),
    ensures
        parse_tokens(scope_names(scopes)) == Some(scopes),
        known_scopes(scope_names(scopes)) == scopes,
    decreases scopes.len(),
{
    let names = scope_names(scopes);
    if scopes.len() == 0 {
        assert(names.len() == 0);
    } else {
        let init = scopes.drop_last();
        assert(init.no_duplicates()) by {
            assert forall|a: int, b: int| 0 <= a < b < init.len() implies init[a] != init[b] by {
                assert(init[a] == scopes[a] && init[b] == scopes[b]);
            }
        }
        lemma_parse_names(init);
        assert(names.drop_last() =~= scope_names(init));
        lemma_scope_name(scopes.last());
        assert(names.last() == scope_name(scopes.last()));
        if init.contains(scopes.last()) {
            let k = choose|k: int| 0 <= k < init.len() && init[k] == scopes.last();
            assert(scopes[k] == scopes[scopes.len() - 1]);
        }
        assert(init.push(scopes.last()) =~= scopes);
    }
}

} // verus!
