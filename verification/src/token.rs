//! Stored GitHub tokens: their scope (global or one project), display
//! metadata, and the encrypted payload as JSON.
use vstd::prelude::*;

use crate::ids::{now_rfc3339, rfc3339_utc_text};
use crate::json::{json_quote, json_quoted};
use crate::text::{concat, opt_view, own, str_starts_with, starts_with, text_eq};

verus! {

broadcast use vstd::string::group_string_axioms;

/// A stored token; the token itself is encrypted, only metadata is plain.
#[derive(Clone, Debug)]
pub struct TokenRecord {
    /// `"global"` or `"project:{id}"`.
    pub scope: String,
    /// Encrypted token data as JSON (ciphertext and nonce).
    pub encrypted_token: String,
    /// Last four characters, for display.
    pub token_suffix: Option<String>,
    /// Token format prefix (`ghp_`, `gho_`, `github_pat_`).
    pub token_format: Option<String>,
    /// Last verification time.
    pub verified_at: Option<String>,
    /// GitHub user name when verified.
    pub verified_user: Option<String>,
    pub created_at: String,
    pub updated_at: String,
}

/// Mathematical view of a token record.
pub struct TokenView {
    pub scope: Seq<char>,
    pub encrypted_token: Seq<char>,
    pub token_suffix: Option<Seq<char>>,
    pub token_format: Option<Seq<char>>,
    pub verified_at: Option<Seq<char>>,
    pub verified_user: Option<Seq<char>>,
    pub created_at: Seq<char>,
    pub updated_at: Seq<char>,
}

impl View for TokenRecord {
    type V = TokenView;

    open spec fn view(&self) -> TokenView {
        TokenView {
            scope: self.scope@,
            encrypted_token: self.encrypted_token@,
            token_suffix: opt_view(self.token_suffix),
            token_format: opt_view(self.token_format),
            verified_at: opt_view(self.verified_at),
            verified_user: opt_view(self.verified_user),
            created_at: self.created_at@,
            updated_at: self.updated_at@,
        }
    }
}

/// A fresh token record with the given scope, payload and creation time.
pub open spec fn fresh_token(scope: Seq<char>, encrypted: Seq<char>, now: Seq<char>) -> TokenView {
    TokenView {
        scope,
        encrypted_token: encrypted,
        token_suffix: None,
        token_format: None,
        verified_at: None,
        verified_user: None,
        created_at: now,
        updated_at: now,
    }
}

/// The scope of a project's token.
pub open spec fn project_scope(project_id: Seq<char>) -> Seq<char> {
    "project:"@ + project_id
}

/// The project of a scope: what follows a leading `"project:"`.
pub open spec fn scope_project(scope: Seq<char>) -> Option<Seq<char>> {
    if starts_with(scope, "project:"@) {
        Some(scope.skip(8))
    } else {
        None
    }
}

impl TokenRecord {
    /// A new token record for a scope, created now.
    pub fn new(scope: &str, encrypted_token: &str) -> (r: TokenRecord)
        ensures
            r@ == fresh_token(scope@, encrypted_token@, r@.created_at),
            rfc3339_utc_text(r@.created_at),
    {
        let now = now_rfc3339();
        TokenRecord {
            scope: own(scope),
            encrypted_token: own(encrypted_token),
            token_suffix: None,
            token_format: None,
            verified_at: None,
            verified_user: None,
            created_at: now.clone(),
            updated_at: now,
        }
    }

    /// A new global token record.
    pub fn global(encrypted_token: &str) -> (r: TokenRecord)
        ensures
            r@ == fresh_token("global"@, encrypted_token@, r@.created_at),
            rfc3339_utc_text(r@.created_at),
    {
        Self::new("global", encrypted_token)
    }

    /// A new token record for a project, scoped `"project:{id}"`.
    pub fn for_project(project_id: &str, encrypted_token: &str) -> (r: TokenRecord)
        ensures
            r@ == fresh_token(project_scope(project_id@), encrypted_token@, r@.created_at),
            rfc3339_utc_text(r@.created_at),
    {
        proof {
            reveal_strlit("project:");
        }
        let scope = concat("project:", project_id);
        Self::new(scope.as_str(), encrypted_token)
    }

    /// The record with the given display suffix.
    pub fn with_suffix(self, suffix: &str) -> (r: TokenRecord)
        ensures
            r@ == (TokenView { token_suffix: Some(suffix@), ..self@ }),
    {
        TokenRecord { token_suffix: Some(own(suffix)), ..self }
    }

    /// The record with the given token format.
    pub fn with_format(self, format: &str) -> (r: TokenRecord)
        ensures
            r@ == (TokenView { token_format: Some(format@), ..self@ }),
    {
        TokenRecord { token_format: Some(own(format)), ..self }
    }

    /// The record verified now as belonging to the given user.
    pub fn with_verification(self, user: &str) -> (r: TokenRecord)
        ensures
            r@ == (TokenView {
                verified_at: r@.verified_at,
                verified_user: Some(user@),
                ..self@
            }),
            r@.verified_at matches Some(t) && rfc3339_utc_text(t),
    {
        let now = now_rfc3339();
        TokenRecord { verified_at: Some(now), verified_user: Some(own(user)), ..self }
    }

    /// Whether this is the global token.
    pub fn is_global(&self) -> (r: bool)
        ensures
            r == (self@.scope == "global"@),
    {
        text_eq(self.scope.as_str(), "global")
    }

    /// Whether the token belongs to one project.
    pub fn is_project_scoped(&self) -> (r: bool)
        ensures
            r == starts_with(self@.scope, "project:"@),
    {
        str_starts_with(self.scope.as_str(), "project:")
    }

    /// The project of a project-scoped token.
    pub fn project_id(&self) -> (r: Option<&str>)
        ensures
            opt_str_view_of(r) == scope_project(self@.scope),
    {
        proof {
            reveal_strlit("project:");
        }
        if str_starts_with(self.scope.as_str(), "project:") {
            let n: usize = self.scope.as_str().unicode_len();
            Some(self.scope.as_str().substring_char(8, n))
        } else {
            None
        }
    }
}

/// View of an optional string slice.
pub open spec fn opt_str_view_of(o: Option<&str>) -> Option<Seq<char>> {
    match o {
        Some(s) => Some(s@),
        None => None,
    }
}

/// A project's token scope names the project again.
pub proof fn law_project_scope_round_trip(project_id: Seq<char>)
    ensures
        scope_project(project_scope(project_id)) == Some(project_id),
{
    let s = project_scope(project_id);
    assert("project:"@.len() == 8) by {
        reveal_strlit("project:");
    }
    assert(s.take(8) =~= "project:"@);
    assert(s.skip(8) =~= project_id);
}

/// Encrypted token data: ciphertext and nonce.
#[derive(Clone, Debug)]
pub struct EncryptedTokenData {
    /// Base64 ciphertext.
    pub ciphertext: String,
    /// Base64 nonce, or the `"plaintext"` marker in development mode.
    pub nonce: String,
}

/// The JSON text of encrypted token data, as `serde_json` writes the
/// structure.
pub open spec fn token_data_json(ciphertext: Seq<char>, nonce: Seq<char>) -> Seq<char> {
    "{\"ciphertext\":"@ + json_quoted(ciphertext) + ",\"nonce\":"@ + json_quoted(nonce) + "}"@
}

impl EncryptedTokenData {
    /// New encrypted token data.
    pub fn new(ciphertext: &str, nonce: &str) -> (r: EncryptedTokenData)
        ensures
            r.ciphertext@ == ciphertext@,
            r.nonce@ == nonce@,
    {
        EncryptedTokenData { ciphertext: own(ciphertext), nonce: own(nonce) }
    }

    /// The JSON text that stores the data.
    pub fn to_json(&self) -> (r: String)
        ensures
            r@ == token_data_json(self.ciphertext@, self.nonce@),
    {
        let c = json_quote(self.ciphertext.as_str());
        let n = json_quote(self.nonce.as_str());
        let a = concat("{\"ciphertext\":", c.as_str());
        let b = concat(a.as_str(), ",\"nonce\":");
        let d = concat(b.as_str(), n.as_str());
        concat(d.as_str(), "}")
    }
}

} // verus!
