//! The OIDC store's own decisions around single-use grants: which stored
//! authorization transaction or code a client may use, which pairwise
//! subject a user gets for an installation, and what presenting a refresh
//! token does. The protocol checks themselves (PKCE, expiry, consent) belong
//! to the OIDC provider; their answers come in as arguments.
use vstd::prelude::*;

use crate::docker_runtime_target::str_equals;

verus! {

/// The length of a raw authorization code or refresh token.
pub const RAW_TOKEN_LENGTH: usize = 43;

/// The client, installation and redirect URI that a grant is bound to.
#[derive(Debug, Clone)]
pub struct OidcBinding {
    pub client_id: String,
    pub installation_id: String,
    pub redirect_uri: String,
}

/// A stored grant serves only the client, installation and redirect URI it
/// was issued for.
pub open spec fn same_binding(stored: OidcBinding, client: OidcBinding) -> bool {
    &&& stored.client_id@ == client.client_id@
    &&& stored.installation_id@ == client.installation_id@
    &&& stored.redirect_uri@ == client.redirect_uri@
}

/// Whether a stored grant is bound to this client.
pub fn binding_matches(stored: &OidcBinding, client: &OidcBinding) -> (r: bool)
    ensures
        r == same_binding(*stored, *client),
{
    str_equals(stored.client_id.as_str(), client.client_id.as_str()) && str_equals(
        stored.installation_id.as_str(),
        client.installation_id.as_str(),
    ) && str_equals(stored.redirect_uri.as_str(), client.redirect_uri.as_str())
}

/// A grant may be used only by an active client, only while it is stored
/// unconsumed and unrevoked (`stored` is what the store found), and only
/// under its own binding.
pub open spec fn grant_usable(client_active: bool, stored: Option<OidcBinding>, client: OidcBinding) -> bool {
    &&& client_active
    &&& stored matches Some(b) && same_binding(b, client)
}

/// Whether an authorization transaction may be approved for this client,
/// before the provider checks the consent.
pub fn approval_allowed(client_active: bool, stored: Option<OidcBinding>, client: &OidcBinding) -> (r:
    bool)
    ensures
        r == grant_usable(client_active, stored, *client),
{
    if !client_active {
        return false;
    }
    match stored {
        Some(binding) => binding_matches(&binding, client),
        None => false,
    }
}

/// Whether a raw authorization code may be exchanged by this client, before
/// the provider verifies the exchange: it must have the length of a raw code
/// and name a usable grant.
pub fn code_exchange_allowed(
    raw_code_length: usize,
    client_active: bool,
    stored: Option<OidcBinding>,
    client: &OidcBinding,
) -> (r: bool)
    ensures
        r == (raw_code_length == RAW_TOKEN_LENGTH && grant_usable(client_active, stored, *client)),
{
    raw_code_length == RAW_TOKEN_LENGTH && approval_allowed(client_active, stored, client)
}

/// A code is handed out only if this exchange is the one that marked it
/// consumed: exactly one stored code changed.
pub fn code_consumed(changed_rows: usize) -> (r: bool)
    ensures
        r == (changed_rows == 1),
{
    changed_rows == 1
}

/// The pairwise subject of a user at an installation: the stored one if
/// there is one, else a newly generated one that is then stored.
#[derive(Debug, Clone, PartialEq, Eq)]
pub enum PairwiseSubjectChoice {
    Reuse(String),
    GenerateAndStore,
}

/// Chooses the pairwise subject from what the store holds.
pub fn pairwise_subject_choice(existing: Option<String>) -> (r: PairwiseSubjectChoice)
    ensures
        existing matches Some(s) ==> r == PairwiseSubjectChoice::Reuse(s),
        existing is None ==> r == PairwiseSubjectChoice::GenerateAndStore,
{
    match existing {
        Some(subject) => PairwiseSubjectChoice::Reuse(subject),
        None => PairwiseSubjectChoice::GenerateAndStore,
    }
}

/// What the store found for a presented refresh token's digest: the
/// current token of a live family, a token that was already spent in a
/// rotation, or nothing.
#[derive(Debug, Clone, Copy, PartialEq, Eq, Structural)]
pub enum RefreshTokenLookup {
    Current,
    Spent,
    Unknown,
}

/// What presenting a refresh token does.
#[derive(Debug, Clone, Copy, PartialEq, Eq, Structural)]
pub enum RefreshRotationDecision {
    /// Nothing changes; the token is refused.
    Invalid,
    /// The old digest is recorded as spent and the family moves on to the
    /// next token.
    Rotate,
    /// The token was replayed: its family and the family's access tokens
    /// are revoked.
    RevokeFamily,
}

pub open spec fn rotation_decision(
    raw_token_length: usize,
    lookup: RefreshTokenLookup,
    family_rotates: bool,
) -> RefreshRotationDecision {
    if raw_token_length != RAW_TOKEN_LENGTH {
        RefreshRotationDecision::Invalid
    } else {
        match lookup {
            RefreshTokenLookup::Current => if family_rotates {
                RefreshRotationDecision::Rotate
            } else {
                RefreshRotationDecision::Invalid
            },
            RefreshTokenLookup::Spent => RefreshRotationDecision::RevokeFamily,
            RefreshTokenLookup::Unknown => RefreshRotationDecision::Invalid,
        }
    }
}

/// Decides a refresh: a token of the wrong length is refused unread; the
/// current token rotates when the provider lets its family rotate; a spent
/// token revokes its family; an unknown token is refused.
pub fn refresh_rotation_decision(
    raw_token_length: usize,
    lookup: RefreshTokenLookup,
    family_rotates: bool,
) -> (r: RefreshRotationDecision)
    ensures
        r == rotation_decision(raw_token_length, lookup, family_rotates),
{
    if raw_token_length != RAW_TOKEN_LENGTH {
        return RefreshRotationDecision::Invalid;
    }
    match lookup {
        RefreshTokenLookup::Current => if family_rotates {
            RefreshRotationDecision::Rotate
        } else {
            RefreshRotationDecision::Invalid
        },
        RefreshTokenLookup::Spent => RefreshRotationDecision::RevokeFamily,
        RefreshTokenLookup::Unknown => RefreshRotationDecision::Invalid,
    }
}

/// Refresh tokens are single-use: only the current token of a family ever
/// rotates it, and presenting a spent token again never rotates anything
/// but revokes the family it came from.
pub proof fn lemma_refresh_tokens_are_single_use(
    raw_token_length: usize,
    lookup: RefreshTokenLookup,
    family_rotates: bool,
)
    ensures
        rotation_decision(raw_token_length, lookup, family_rotates) == RefreshRotationDecision::Rotate
            ==> lookup == RefreshTokenLookup::Current,
        raw_token_length == RAW_TOKEN_LENGTH && lookup == RefreshTokenLookup::Spent
            ==> rotation_decision(raw_token_length, lookup, family_rotates)
            == RefreshRotationDecision::RevokeFamily,
{
}

/// A grant serves only its own binding: another client, installation or
/// redirect URI can neither approve a transaction nor exchange a code bound
/// to a different one.
pub proof fn lemma_grants_serve_only_their_binding(
    client_active: bool,
    stored: OidcBinding,
    client: OidcBinding,
)
    requires
        !same_binding(stored, client),
    ensures
        !grant_usable(client_active, Some(stored), client),
{
}

} // verus!
