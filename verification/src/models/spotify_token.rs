use vstd::prelude::*;

use crate::config::EnvConfig;
use crate::json::{get_field, Json, JsonV};

verus! {

/// The one stored OAuth credential. Both timestamps are unix-epoch seconds;
/// `refresh_token` is never empty once a credential exists, and only the
/// refresh flow rewrites the record.
#[derive(Debug, PartialEq, Eq)]
pub struct SpotifyToken {
    pub id: i64,
    pub access_token: String,
    pub refresh_token: String,
    pub scope: Option<String>,
    pub expires_at: Option<i64>,
    pub updated_at: Option<i64>,
}

#[verifier::ext_equal]
pub struct SpotifyTokenV {
    pub id: i64,
    pub access_token: Seq<char>,
    pub refresh_token: Seq<char>,
    pub scope: Option<Seq<char>>,
    pub expires_at: Option<i64>,
    pub updated_at: Option<i64>,
}

impl View for SpotifyToken {
    type V = SpotifyTokenV;

    open spec fn view(&self) -> SpotifyTokenV {
        SpotifyTokenV {
            id: self.id,
            access_token: self.access_token@,
            refresh_token: self.refresh_token@,
            scope: match self.scope {
                Some(s) => Some(s@),
                None => None,
            },
            expires_at: self.expires_at,
            updated_at: self.updated_at,
        }
    }
}

/// Why no valid access token could be produced.
#[derive(Debug, PartialEq, Eq)]
pub enum SpotifyTokenError {
    /// The credential store failed; carries the store's description.
    DatabaseError(String),
    /// The upstream exchange failed in transport or decoding; carries what
    /// was seen of the reply.
    HttpError(String),
    /// The store holds no credential at all.
    NoTokenFound,
    /// The upstream auth server rejected the refresh; carries the reply body.
    RefreshFailed(String),
}

#[verifier::ext_equal]
pub enum SpotifyTokenErrorV {
    DatabaseError(Seq<char>),
    HttpError(Seq<char>),
    NoTokenFound,
    RefreshFailed(Seq<char>),
}

impl View for SpotifyTokenError {
    type V = SpotifyTokenErrorV;

    open spec fn view(&self) -> SpotifyTokenErrorV {
        match self {
            SpotifyTokenError::DatabaseError(s) => SpotifyTokenErrorV::DatabaseError(s@),
            SpotifyTokenError::HttpError(s) => SpotifyTokenErrorV::HttpError(s@),
            SpotifyTokenError::NoTokenFound => SpotifyTokenErrorV::NoTokenFound,
            SpotifyTokenError::RefreshFailed(s) => SpotifyTokenErrorV::RefreshFailed(s@),
        }
    }
}

/// A successful token-endpoint reply: the new access token, an optional
/// replacement refresh token, and an optional lifetime in seconds.
#[derive(Debug, PartialEq, Eq)]
pub struct SpotifyRefreshResponse {
    pub access_token: String,
    pub refresh_token: Option<String>,
    pub expires_in: Option<i64>,
}

#[verifier::ext_equal]
pub struct SpotifyRefreshResponseV {
    pub access_token: Seq<char>,
    pub refresh_token: Option<Seq<char>>,
    pub expires_in: Option<i64>,
}

impl View for SpotifyRefreshResponse {
    type V = SpotifyRefreshResponseV;

    open spec fn view(&self) -> SpotifyRefreshResponseV {
        SpotifyRefreshResponseV {
            access_token: self.access_token@,
            refresh_token: match self.refresh_token {
                Some(s) => Some(s@),
                None => None,
            },
            expires_in: self.expires_in,
        }
    }
}

/// What the credential flow does with a stored credential, relative to one
/// reading of the clock.
#[derive(Debug, PartialEq, Eq)]
pub enum TokenAction {
    /// No credential exists: authentication fails.
    NoCredential,
    /// The credential is still valid and is used as it is.
    UseAsIs(SpotifyToken),
    /// The credential is expired, or carries no expiry, and must be
    /// refreshed first.
    Refresh(SpotifyToken),
}

#[verifier::ext_equal]
pub enum TokenActionV {
    NoCredential,
    UseAsIs(SpotifyTokenV),
    Refresh(SpotifyTokenV),
}

impl View for TokenAction {
    type V = TokenActionV;

    open spec fn view(&self) -> TokenActionV {
        match self {
            TokenAction::NoCredential => TokenActionV::NoCredential,
            TokenAction::UseAsIs(t) => TokenActionV::UseAsIs(t@),
            TokenAction::Refresh(t) => TokenActionV::Refresh(t@),
        }
    }
}

pub open spec fn opt_token_view(o: Option<SpotifyToken>) -> Option<SpotifyTokenV> {
    match o {
        Some(t) => Some(t@),
        None => None,
    }
}

pub open spec fn opt_json_view(o: Option<Json>) -> Option<JsonV> {
    match o {
        Some(j) => Some(j@),
        None => None,
    }
}

/// A credential needs a refresh when it carries no expiry at all, or when
/// the clock has reached its expiry — the boundary itself counts as expired.
pub open spec fn spec_needs_refresh(t: SpotifyTokenV, now: i64) -> bool {
    match t.expires_at {
        None => true,
        Some(e) => now >= e,
    }
}

pub open spec fn spec_decide_token_action(stored: Option<SpotifyTokenV>, now: i64) -> TokenActionV {
    match stored {
        None => TokenActionV::NoCredential,
        Some(t) => if spec_needs_refresh(t, now) {
            TokenActionV::Refresh(t)
        } else {
            TokenActionV::UseAsIs(t)
        },
    }
}

/// The decoding a refresh reply gets: `access_token` must be a string;
/// `refresh_token` may be absent, null or a string; `expires_in` may be
/// absent, null or an integer in the `i64` range; any other shape, or a
/// non-object document, fails to decode. Unknown fields are ignored.
pub open spec fn spec_parse_refresh_response(j: JsonV) -> Option<SpotifyRefreshResponseV> {
    if !(j is Obj) {
        None
    } else {
        let at = get_field(j, "access_token"@);
        let rt = get_field(j, "refresh_token"@);
        let ei = get_field(j, "expires_in"@);
        if !(at is Str) {
            None
        } else if !(rt is Str || rt is Null) {
            None
        } else if !(ei is Null || (ei matches JsonV::Int(n) && i64::MIN <= n <= i64::MAX)) {
            None
        } else {
            Some(
                SpotifyRefreshResponseV {
                    access_token: at->Str_0,
                    refresh_token: match rt {
                        JsonV::Str(s) => Some(s),
                        _ => None,
                    },
                    expires_in: match ei {
                        JsonV::Int(n) => Some(n as i64),
                        _ => None,
                    },
                },
            )
        }
    }
}

/// The credential after a successful refresh: the reply's access token; the
/// reply's refresh token if it sent one, else the stored one; expiry `now +
/// expires_in` if the reply gave a lifetime, else absent; the scope kept;
/// `updated_at` set to now.
pub open spec fn spec_apply_refresh(
    t: SpotifyTokenV,
    resp: SpotifyRefreshResponseV,
    now: i64,
) -> SpotifyTokenV {
    SpotifyTokenV {
        id: t.id,
        access_token: resp.access_token,
        refresh_token: match resp.refresh_token {
            Some(rt) => rt,
            None => t.refresh_token,
        },
        scope: t.scope,
        expires_at: match resp.expires_in {
            Some(e) => Some((now + e) as i64),
            None => None,
        },
        updated_at: Some(now),
    }
}

/// Whether the expiry arithmetic of `spec_apply_refresh` stays within `i64`
/// for this reply; the machine limit a caller must establish first.
pub open spec fn refresh_reply_fits(body_json: Option<JsonV>, now: i64) -> bool {
    match body_json {
        Some(j) => match spec_parse_refresh_response(j) {
            Some(resp) => match resp.expires_in {
                Some(e) => i64::MIN <= now + e <= i64::MAX,
                None => true,
            },
            None => true,
        },
        None => true,
    }
}

/// What a refresh exchange leaves behind, judged from the reply alone: a
/// rejected exchange keeps the reply body as the failure text; a body that
/// is not JSON, or does not decode as a refresh reply, is a transport-level
/// failure; a decoded reply yields the updated credential.
pub open spec fn spec_interpret_refresh_reply(
    t: SpotifyTokenV,
    success: bool,
    body_text: Seq<char>,
    body_json: Option<JsonV>,
    now: i64,
) -> Result<SpotifyTokenV, SpotifyTokenErrorV> {
    if !success {
        Err(SpotifyTokenErrorV::RefreshFailed(body_text))
    } else {
        match body_json {
            None => Err(SpotifyTokenErrorV::HttpError(body_text)),
            Some(j) => match spec_parse_refresh_response(j) {
                None => Err(SpotifyTokenErrorV::HttpError(body_text)),
                Some(resp) => Ok(spec_apply_refresh(t, resp, now)),
            },
        }
    }
}

/// Relies on `chrono::Utc::now` for the wall clock, read as unix-epoch
/// seconds. Nothing is promised of the value: every caller states what holds
/// whatever instant came back.
#[verifier::external_body]
pub(crate) fn current_unix_time() -> i64 {
    chrono::Utc::now().timestamp()
}

impl SpotifyToken {
    pub fn needs_refresh(&self, now: i64) -> (r: bool)
        ensures
            r == spec_needs_refresh(self@, now),
    {
        match self.expires_at {
            None => true,
            Some(e) => now >= e,
        }
    }

    pub fn decide_token_action(stored: Option<SpotifyToken>, now: i64) -> (r: TokenAction)
        ensures
            r@ == spec_decide_token_action(opt_token_view(stored), now),
    {
        match stored {
            None => TokenAction::NoCredential,
            Some(t) => {
                if t.needs_refresh(now) {
                    TokenAction::Refresh(t)
                } else {
                    TokenAction::UseAsIs(t)
                }
            },
        }
    }

    /// The same decision, taken against the clock as it stands; the instant
    /// used is returned beside the action.
    pub fn decide_token_action_now(stored: Option<SpotifyToken>) -> (r: (TokenAction, i64))
        ensures
            r.0@ == spec_decide_token_action(opt_token_view(stored), r.1),
    {
        let now = current_unix_time();
        (Self::decide_token_action(stored, now), now)
    }

    pub fn parse_refresh_response(json: &Json) -> (r: Option<SpotifyRefreshResponse>)
        ensures
            match r {
                Some(resp) => spec_parse_refresh_response(json@) == Some(resp@),
                None => spec_parse_refresh_response(json@) is None,
            },
    {
        if !json.is_object() {
            return None;
        }
        let access_token: String = match json.get("access_token") {
            Some(v) => match v.as_str() {
                Some(s) => s.clone(),
                None => {
                    return None;
                },
            },
            None => {
                return None;
            },
        };
        let refresh_token: Option<String> = match json.get("refresh_token") {
            Some(v) => match v {
                Json::Str(s) => Some(s.clone()),
                Json::Null => None,
                _ => {
                    return None;
                },
            },
            None => None,
        };
        let expires_in: Option<i64> = match json.get("expires_in") {
            Some(v) => match v {
                Json::Int(n) => Some(*n),
                Json::BigInt(n) => {
                    if *n <= i64::MAX as u64 {
                        Some(*n as i64)
                    } else {
                        return None;
                    }
                },
                Json::Null => None,
                _ => {
                    return None;
                },
            },
            None => None,
        };
        Some(SpotifyRefreshResponse { access_token, refresh_token, expires_in })
    }

    pub fn apply_refresh_response(
        token: &SpotifyToken,
        response: SpotifyRefreshResponse,
        now: i64,
    ) -> (r: SpotifyToken)
        requires
            response.expires_in matches Some(e) ==> i64::MIN <= now + e <= i64::MAX,
        ensures
            r@ == spec_apply_refresh(token@, response@, now),
    {
        let new_refresh_token = match response.refresh_token {
            Some(rt) => rt,
            None => token.refresh_token.clone(),
        };
        let expires_at = match response.expires_in {
            Some(e) => Some(now + e),
            None => None,
        };
        let scope = match &token.scope {
            Some(s) => Some(s.clone()),
            None => None,
        };
        SpotifyToken {
            id: token.id,
            access_token: response.access_token,
            refresh_token: new_refresh_token,
            scope,
            expires_at,
            updated_at: Some(now),
        }
    }

    /// The whole judgement of one refresh exchange, from the reply's success
    /// flag, body text and body document.
    pub fn interpret_refresh_reply(
        token: &SpotifyToken,
        success: bool,
        body_text: String,
        body_json: Option<Json>,
        now: i64,
    ) -> (r: Result<SpotifyToken, SpotifyTokenError>)
        requires
            success ==> refresh_reply_fits(opt_json_view(body_json), now),
        ensures
            match r {
                Ok(t) => spec_interpret_refresh_reply(
                    token@,
                    success,
                    body_text@,
                    opt_json_view(body_json),
                    now,
                ) == Ok::<SpotifyTokenV, SpotifyTokenErrorV>(t@),
                Err(e) => spec_interpret_refresh_reply(
                    token@,
                    success,
                    body_text@,
                    opt_json_view(body_json),
                    now,
                ) == Err::<SpotifyTokenV, SpotifyTokenErrorV>(e@),
            },
    {
        if !success {
            return Err(SpotifyTokenError::RefreshFailed(body_text));
        }
        match body_json {
            None => Err(SpotifyTokenError::HttpError(body_text)),
            Some(j) => match Self::parse_refresh_response(&j) {
                None => Err(SpotifyTokenError::HttpError(body_text)),
                Some(resp) => Ok(Self::apply_refresh_response(token, resp, now)),
            },
        }
    }

    /// The form parameters of the refresh request, in the order they are
    /// sent: the grant type, the stored refresh token, and the configured
    /// client pair.
    pub fn refresh_request_params(&self, config: &EnvConfig) -> (r: Vec<(String, String)>)
        ensures
            r@.len() == 4,
            r@[0].0@ == "grant_type"@ && r@[0].1@ == "refresh_token"@,
            r@[1].0@ == "refresh_token"@ && r@[1].1@ == self.refresh_token@,
            r@[2].0@ == "client_id"@ && r@[2].1@ == config.spotify_client_id@,
            r@[3].0@ == "client_secret"@ && r@[3].1@ == config.spotify_client_secret@,
    {
        let mut params: Vec<(String, String)> = Vec::new();
        params.push(("grant_type".to_owned(), "refresh_token".to_owned()));
        params.push(("refresh_token".to_owned(), self.refresh_token.clone()));
        params.push(("client_id".to_owned(), config.spotify_client_id.clone()));
        params.push(("client_secret".to_owned(), config.spotify_client_secret.clone()));
        params
    }
}

// ---------------------------------------------------------------------------
// Laws of the credential flow.
// ---------------------------------------------------------------------------

/// A credential whose expiry is absent, or reached by the clock — the
/// boundary included — is refreshed; one whose expiry lies strictly in the
/// future is used unchanged.
pub proof fn lemma_refresh_exactly_when_expired(t: SpotifyTokenV, now: i64)
    ensures
        spec_decide_token_action(Some(t), now) == TokenActionV::Refresh(t) <==> (t.expires_at
            is None || (t.expires_at matches Some(e) && now >= e)),
        spec_decide_token_action(Some(t), now) == TokenActionV::UseAsIs(t) <==> (t.expires_at
            matches Some(e) && now < e),
{
}

/// A refresh reply that omits the refresh token leaves the stored one
/// unchanged; one that carries a replacement installs it.
pub proof fn lemma_refresh_token_retention(
    t: SpotifyTokenV,
    resp: SpotifyRefreshResponseV,
    now: i64,
)
    ensures
        resp.refresh_token is None ==> spec_apply_refresh(t, resp, now).refresh_token
            == t.refresh_token,
        resp.refresh_token matches Some(rt) ==> spec_apply_refresh(t, resp, now).refresh_token
            == rt,
{
}

} // verus!
