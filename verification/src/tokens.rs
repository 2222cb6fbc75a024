//! The closed enumerations of the model and the tokens that stand for their
//! members on the wire.

use crate::text::{same_ignoring_case, same_text, same_text_ignoring_case, to_upper};
use vstd::prelude::*;

verus! {

/// The kind of a factor: the discriminant that decides the shape of its
/// profile.
#[derive(Clone, Copy, Debug, PartialEq, Eq, Structural)]
pub enum FactorKind {
    Push,
    Sms,
    Totp,
    WebAuthn,
}

impl FactorKind {
    /// The token that stands for the kind in the field `factorType`.
    pub open spec fn token(self) -> Seq<char> {
        match self {
            FactorKind::Push => "push"@,
            FactorKind::Sms => "sms"@,
            FactorKind::Totp => "token:software:totp"@,
            FactorKind::WebAuthn => "webauthn"@,
        }
    }

    /// The kind that a token stands for, if any.
    pub open spec fn of_token(token: Seq<char>) -> Option<FactorKind> {
        if token == FactorKind::Push.token() {
            Some(FactorKind::Push)
        } else if token == FactorKind::Sms.token() {
            Some(FactorKind::Sms)
        } else if token == FactorKind::Totp.token() {
            Some(FactorKind::Totp)
        } else if token == FactorKind::WebAuthn.token() {
            Some(FactorKind::WebAuthn)
        } else {
            None
        }
    }

    /// Reads a kind from its token. The match is exact: the tokens are lower
    /// case, and no other spelling is one.
    pub fn from_token(token: &str) -> (kind: Option<FactorKind>)
        ensures
            kind == FactorKind::of_token(token@),
    {
        if same_text(token, "push") {
            Some(FactorKind::Push)
        } else if same_text(token, "sms") {
            Some(FactorKind::Sms)
        } else if same_text(token, "token:software:totp") {
            Some(FactorKind::Totp)
        } else if same_text(token, "webauthn") {
            Some(FactorKind::WebAuthn)
        } else {
            None
        }
    }
}

/// The backend that issued a factor and validates it. This is another axis
/// than the kind: a time-based code may be attributed to `Google`.
#[derive(Clone, Copy, Debug, PartialEq, Eq, Structural)]
pub enum FactorProvider {
    Okta,
    Google,
    Fido,
}

impl FactorProvider {
    /// The token that stands for the provider in the field `provider`.
    pub open spec fn token(self) -> Seq<char> {
        match self {
            FactorProvider::Okta => "OKTA"@,
            FactorProvider::Google => "GOOGLE"@,
            FactorProvider::Fido => "FIDO"@,
        }
    }

    /// The provider that a token stands for, if any. The case of the letters
    /// does not count.
    pub open spec fn of_token(token: Seq<char>) -> Option<FactorProvider> {
        if same_ignoring_case(token, FactorProvider::Okta.token()) {
            Some(FactorProvider::Okta)
        } else if same_ignoring_case(token, FactorProvider::Google.token()) {
            Some(FactorProvider::Google)
        } else if same_ignoring_case(token, FactorProvider::Fido.token()) {
            Some(FactorProvider::Fido)
        } else {
            None
        }
    }

    /// Reads a provider from its token. The wire writes the tokens in upper
    /// case; they are recognized in any case.
    pub fn from_token(token: &str) -> (provider: Option<FactorProvider>)
        ensures
            provider == FactorProvider::of_token(token@),
    {
        if same_text_ignoring_case(token, "OKTA") {
            Some(FactorProvider::Okta)
        } else if same_text_ignoring_case(token, "GOOGLE") {
            Some(FactorProvider::Google)
        } else if same_text_ignoring_case(token, "FIDO") {
            Some(FactorProvider::Fido)
        } else {
            None
        }
    }
}

/// Where a factor stands in its life.
#[derive(Clone, Copy, Debug, PartialEq, Eq, Structural)]
pub enum FactorStatus {
    NotSetup,
    PendingActivation,
    Enrolled,
    Active,
    Inactive,
    Expired,
}

impl FactorStatus {
    /// The token that stands for the status in the field `status`.
    pub open spec fn token(self) -> Seq<char> {
        match self {
            FactorStatus::NotSetup => "NOT_SETUP"@,
            FactorStatus::PendingActivation => "PENDING_ACTIVATION"@,
            FactorStatus::Enrolled => "ENROLLED"@,
            FactorStatus::Active => "ACTIVE"@,
            FactorStatus::Inactive => "INACTIVE"@,
            FactorStatus::Expired => "EXPIRED"@,
        }
    }

    /// The status that a token stands for, if any.
    pub open spec fn of_token(token: Seq<char>) -> Option<FactorStatus> {
        if token == FactorStatus::NotSetup.token() {
            Some(FactorStatus::NotSetup)
        } else if token == FactorStatus::PendingActivation.token() {
            Some(FactorStatus::PendingActivation)
        } else if token == FactorStatus::Enrolled.token() {
            Some(FactorStatus::Enrolled)
        } else if token == FactorStatus::Active.token() {
            Some(FactorStatus::Active)
        } else if token == FactorStatus::Inactive.token() {
            Some(FactorStatus::Inactive)
        } else if token == FactorStatus::Expired.token() {
            Some(FactorStatus::Expired)
        } else {
            None
        }
    }

    /// Reads a status from its token. The match is exact: tokens are upper
    /// case, with underscores between words.
    pub fn from_token(token: &str) -> (status: Option<FactorStatus>)
        ensures
            status == FactorStatus::of_token(token@),
    {
        if same_text(token, "NOT_SETUP") {
            Some(FactorStatus::NotSetup)
        } else if same_text(token, "PENDING_ACTIVATION") {
            Some(FactorStatus::PendingActivation)
        } else if same_text(token, "ENROLLED") {
            Some(FactorStatus::Enrolled)
        } else if same_text(token, "ACTIVE") {
            Some(FactorStatus::Active)
        } else if same_text(token, "INACTIVE") {
            Some(FactorStatus::Inactive)
        } else if same_text(token, "EXPIRED") {
            Some(FactorStatus::Expired)
        } else {
            None
        }
    }
}

/// Distinct kinds are written with distinct tokens, so reading the token of
/// a kind gives that kind back.
pub proof fn lemma_kind_token_reads_back(kind: FactorKind)
    ensures
        FactorKind::of_token(kind.token()) == Some(kind),
{
    reveal_strlit("push");
    reveal_strlit("sms");
    reveal_strlit("token:software:totp");
    reveal_strlit("webauthn");
    assert("push"@.len() == 4 && "sms"@.len() == 3 && "token:software:totp"@.len() == 19
        && "webauthn"@.len() == 8);
}

/// Distinct providers are written with tokens that differ in more than
/// case, so reading the token of a provider gives that provider back.
pub proof fn lemma_provider_token_reads_back(provider: FactorProvider)
    ensures
        FactorProvider::of_token(provider.token()) == Some(provider),
{
    reveal_strlit("OKTA");
    reveal_strlit("GOOGLE");
    reveal_strlit("FIDO");
    assert(to_upper("OKTA"@).len() == 4 && to_upper("GOOGLE"@).len() == 6 && to_upper("FIDO"@).len()
        == 4);
    assert(to_upper("OKTA"@)[0] == 'O' && to_upper("FIDO"@)[0] == 'F');
}

/// Distinct statuses are written with distinct tokens, so reading the token
/// of a status gives that status back.
pub proof fn lemma_status_token_reads_back(status: FactorStatus)
    ensures
        FactorStatus::of_token(status.token()) == Some(status),
{
    reveal_strlit("NOT_SETUP");
    reveal_strlit("PENDING_ACTIVATION");
    reveal_strlit("ENROLLED");
    reveal_strlit("ACTIVE");
    reveal_strlit("INACTIVE");
    reveal_strlit("EXPIRED");
    assert("NOT_SETUP"@.len() == 9 && "PENDING_ACTIVATION"@.len() == 18 && "ENROLLED"@.len() == 8
        && "ACTIVE"@.len() == 6 && "INACTIVE"@.len() == 8 && "EXPIRED"@.len() == 7);
    assert("ENROLLED"@[0] == 'E' && "INACTIVE"@[0] == 'I');
}

} // verus!
