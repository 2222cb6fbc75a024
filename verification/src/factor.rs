//! The factors: the closed set of kinds, how a record is read as one, and
//! how a factor is described in one line.

use crate::error::{Field, ParseError};
use crate::profile::{
    view_outcome, PushFactorProfile, PushFactorProfileView, SmsFactorProfile,
    SmsFactorProfileView, TokenFactorProfile, TokenFactorProfileView, WebAuthnFactorProfile,
    WebAuthnFactorProfileView,
};
use crate::tokens::{FactorKind, FactorProvider, FactorStatus};
use crate::value::{as_map, clone_fields, find, lookup, view_fields, Value, ValueView};
use vstd::prelude::*;
use vstd::string::StringExecFns;

verus! {

/// A challenge that the provider embeds in a factor while a verification is
/// under way.
#[derive(Clone, Debug, PartialEq, Eq)]
pub struct FactorChallenge {
    /// The opaque token of the challenge.
    pub challenge: String,
}

/// The content of a [`FactorChallenge`].
pub ghost struct FactorChallengeView {
    pub challenge: Seq<char>,
}

impl View for FactorChallenge {
    type V = FactorChallengeView;

    open spec fn view(&self) -> FactorChallengeView {
        FactorChallengeView { challenge: self.challenge@ }
    }
}

/// One enrolled authentication method of a user.
///
/// `links` maps relation names to link descriptors. The descriptors belong to
/// whoever follows the links; they are carried as they were read and never
/// looked into. [`lookup`] finds the descriptor of a relation; where a
/// relation is entered twice, the first entry is the one that counts.
#[derive(Clone, Debug, PartialEq, Eq)]
#[allow(inconsistent_fields)]
pub enum Factor {
    /// A notification pushed to a device.
    Push {
        id: String,
        provider: FactorProvider,
        status: Option<FactorStatus>,
        profile: PushFactorProfile,
        links: Option<Vec<(String, Value)>>,
    },
    /// A code sent by SMS.
    Sms {
        id: String,
        provider: FactorProvider,
        status: Option<FactorStatus>,
        profile: SmsFactorProfile,
        links: Option<Vec<(String, Value)>>,
    },
    /// A time-based one-time password.
    Totp {
        id: String,
        provider: FactorProvider,
        status: Option<FactorStatus>,
        profile: TokenFactorProfile,
        links: Option<Vec<(String, Value)>>,
    },
    /// A security key or a biometric authenticator.
    WebAuthn {
        id: String,
        provider: FactorProvider,
        status: Option<FactorStatus>,
        profile: WebAuthnFactorProfile,
        links: Option<Vec<(String, Value)>>,
        embedded: Option<FactorChallenge>,
    },
}

/// The content of a [`Factor`].
#[allow(inconsistent_fields)]
pub ghost enum FactorView {
    Push {
        id: Seq<char>,
        provider: FactorProvider,
        status: Option<FactorStatus>,
        profile: PushFactorProfileView,
        links: Option<Map<Seq<char>, ValueView>>,
    },
    Sms {
        id: Seq<char>,
        provider: FactorProvider,
        status: Option<FactorStatus>,
        profile: SmsFactorProfileView,
        links: Option<Map<Seq<char>, ValueView>>,
    },
    Totp {
        id: Seq<char>,
        provider: FactorProvider,
        status: Option<FactorStatus>,
        profile: TokenFactorProfileView,
        links: Option<Map<Seq<char>, ValueView>>,
    },
    WebAuthn {
        id: Seq<char>,
        provider: FactorProvider,
        status: Option<FactorStatus>,
        profile: WebAuthnFactorProfileView,
        links: Option<Map<Seq<char>, ValueView>>,
        embedded: Option<FactorChallengeView>,
    },
}

/// The content of links that may be absent: the mapping from relation names
/// to descriptors that the entries stand for.
pub open spec fn view_links(links: Option<Vec<(String, Value)>>) -> Option<
    Map<Seq<char>, ValueView>,
> {
    match links {
        Some(entries) => Some(as_map(view_fields(entries))),
        None => None,
    }
}

/// The content of a challenge that may be absent.
pub open spec fn view_challenge(embedded: Option<FactorChallenge>) -> Option<FactorChallengeView> {
    match embedded {
        Some(c) => Some(c@),
        None => None,
    }
}

impl View for Factor {
    type V = FactorView;

    open spec fn view(&self) -> FactorView {
        match *self {
            Factor::Push { id, provider, status, profile, links } => FactorView::Push {
                id: id@,
                provider,
                status,
                profile: profile@,
                links: view_links(links),
            },
            Factor::Sms { id, provider, status, profile, links } => FactorView::Sms {
                id: id@,
                provider,
                status,
                profile: profile@,
                links: view_links(links),
            },
            Factor::Totp { id, provider, status, profile, links } => FactorView::Totp {
                id: id@,
                provider,
                status,
                profile: profile@,
                links: view_links(links),
            },
            Factor::WebAuthn { id, provider, status, profile, links, embedded } => {
                FactorView::WebAuthn {
                    id: id@,
                    provider,
                    status,
                    profile: profile@,
                    links: view_links(links),
                    embedded: view_challenge(embedded),
                }
            },
        }
    }
}

/// What every kind of factor carries beside its profile.
pub ghost struct EnvelopeView {
    pub id: Seq<char>,
    pub provider: FactorProvider,
    pub status: Option<FactorStatus>,
    pub links: Option<Map<Seq<char>, ValueView>>,
}

/// The kind that the discriminant `factorType` of a record names; nothing
/// where the field is absent, is no string, or holds an unknown token.
pub open spec fn kind_of(v: ValueView) -> Option<FactorKind> {
    match v.field(Field::FactorType.wire_name()) {
        Some(ValueView::Text(token)) => FactorKind::of_token(token),
        _ => None,
    }
}

/// The provider that the field `provider` of a record names; nothing where
/// the field is absent, is no string, or holds an unknown token.
pub open spec fn provider_of(v: ValueView) -> Option<FactorProvider> {
    match v.field(Field::Provider.wire_name()) {
        Some(ValueView::Text(token)) => FactorProvider::of_token(token),
        _ => None,
    }
}

/// The identifier of a record: the string in `id`, which must not be empty.
pub open spec fn id_of(v: ValueView) -> Option<Seq<char>> {
    match v.field(Field::Id.wire_name()) {
        Some(ValueView::Text(id)) => if id.len() > 0 {
            Some(id)
        } else {
            None
        },
        _ => None,
    }
}

/// The status of a record. An absent or null `status` is no status; a string
/// must be the token of one; anything else is malformed.
pub open spec fn status_of(v: ValueView) -> Result<Option<FactorStatus>, ParseError> {
    match v.field(Field::Status.wire_name()) {
        None => Ok(None),
        Some(ValueView::Null) => Ok(None),
        Some(ValueView::Text(token)) => match FactorStatus::of_token(token) {
            Some(status) => Ok(Some(status)),
            None => Err(ParseError::MalformedProfile { field: Field::Status }),
        },
        _ => Err(ParseError::MalformedProfile { field: Field::Status }),
    }
}

/// The links of a record. An absent or null `_links` is no links; a record
/// gives the mapping that its fields stand for, with every descriptor as it
/// is; anything else is malformed.
pub open spec fn links_of(v: ValueView) -> Result<Option<Map<Seq<char>, ValueView>>, ParseError> {
    match v.field(Field::Links.wire_name()) {
        None => Ok(None),
        Some(ValueView::Null) => Ok(None),
        Some(ValueView::Record(entries)) => Ok(Some(as_map(entries))),
        _ => Err(ParseError::MalformedProfile { field: Field::Links }),
    }
}

/// The value under `profile`; a record without that field is treated like
/// one whose profile is null, which no profile accepts.
pub open spec fn payload_of(v: ValueView) -> ValueView {
    match v.field(Field::Profile.wire_name()) {
        Some(p) => p,
        None => ValueView::Null,
    }
}

/// The embedded challenge of a record. An absent or null `_embedded` is no
/// challenge; a record must hold a string `challenge`; anything else is
/// malformed.
pub open spec fn challenge_of(v: ValueView) -> Result<Option<FactorChallengeView>, ParseError> {
    match v.field(Field::Embedded.wire_name()) {
        None => Ok(None),
        Some(ValueView::Null) => Ok(None),
        Some(ValueView::Record(fields)) => match find(fields, Field::Challenge.wire_name()) {
            Some(ValueView::Text(challenge)) => Ok(Some(FactorChallengeView { challenge })),
            _ => Err(ParseError::MalformedChallenge),
        },
        _ => Err(ParseError::MalformedChallenge),
    }
}

/// The fields that every kind carries, read in the order provider, id,
/// status, links; the first that is not as it must be decides the error.
pub open spec fn envelope_of(v: ValueView) -> Result<EnvelopeView, ParseError> {
    if provider_of(v) is None {
        Err(ParseError::UnrecognizedProvider)
    } else if id_of(v) is None {
        Err(ParseError::MalformedProfile { field: Field::Id })
    } else if status_of(v) is Err {
        Err(ParseError::MalformedProfile { field: Field::Status })
    } else if links_of(v) is Err {
        Err(ParseError::MalformedProfile { field: Field::Links })
    } else {
        Ok(
            EnvelopeView {
                id: id_of(v)->0,
                provider: provider_of(v)->0,
                status: status_of(v)->Ok_0,
                links: links_of(v)->Ok_0,
            },
        )
    }
}

impl FactorView {
    /// The kind of the factor.
    pub open spec fn kind(self) -> FactorKind {
        match self {
            FactorView::Push { .. } => FactorKind::Push,
            FactorView::Sms { .. } => FactorKind::Sms,
            FactorView::Totp { .. } => FactorKind::Totp,
            FactorView::WebAuthn { .. } => FactorKind::WebAuthn,
        }
    }

    /// The identifier of the factor.
    pub open spec fn id(self) -> Seq<char> {
        match self {
            FactorView::Push { id, .. } => id,
            FactorView::Sms { id, .. } => id,
            FactorView::Totp { id, .. } => id,
            FactorView::WebAuthn { id, .. } => id,
        }
    }

    /// What holds of every factor that was read from a record: its
    /// identifier is not empty.
    pub open spec fn well_formed(self) -> bool {
        self.id().len() > 0
    }

    /// What reading a record gives.
    ///
    /// The discriminant is looked at first and decides the kind. Then come
    /// the fields that every kind carries, then the profile in the shape that
    /// the kind requires, and for a WebAuthn factor the embedded challenge.
    /// The first of these that is not as it must be decides the error, and
    /// then there is no factor at all.
    pub open spec fn parsed(v: ValueView) -> Result<FactorView, ParseError> {
        match kind_of(v) {
            None => Err(ParseError::UnrecognizedFactorType),
            Some(kind) => match envelope_of(v) {
                Err(e) => Err(e),
                Ok(envelope) => match kind {
                    FactorKind::Push => match PushFactorProfileView::parsed(payload_of(v)) {
                        Err(e) => Err(e),
                        Ok(profile) => Ok(
                            FactorView::Push {
                                id: envelope.id,
                                provider: envelope.provider,
                                status: envelope.status,
                                profile,
                                links: envelope.links,
                            },
                        ),
                    },
                    FactorKind::Sms => match SmsFactorProfileView::parsed(payload_of(v)) {
                        Err(e) => Err(e),
                        Ok(profile) => Ok(
                            FactorView::Sms {
                                id: envelope.id,
                                provider: envelope.provider,
                                status: envelope.status,
                                profile,
                                links: envelope.links,
                            },
                        ),
                    },
                    FactorKind::Totp => match TokenFactorProfileView::parsed(payload_of(v)) {
                        Err(e) => Err(e),
                        Ok(profile) => Ok(
                            FactorView::Totp {
                                id: envelope.id,
                                provider: envelope.provider,
                                status: envelope.status,
                                profile,
                                links: envelope.links,
                            },
                        ),
                    },
                    FactorKind::WebAuthn => match WebAuthnFactorProfileView::parsed(
                        payload_of(v),
                    ) {
                        Err(e) => Err(e),
                        Ok(profile) => match challenge_of(v) {
                            Err(e) => Err(e),
                            Ok(embedded) => Ok(
                                FactorView::WebAuthn {
                                    id: envelope.id,
                                    provider: envelope.provider,
                                    status: envelope.status,
                                    profile,
                                    links: envelope.links,
                                    embedded,
                                },
                            ),
                        },
                    },
                },
            },
        }
    }

    /// The line that describes the factor. The rules stand in the order in
    /// which they apply: a time-based code attributed to Google is any
    /// third-party authenticator app and is not named after the provider.
    pub open spec fn description(self) -> Seq<char> {
        match self {
            FactorView::Push { profile, .. } => "Okta Verify Push to "@ + profile.name,
            FactorView::Sms { profile, .. } => "Okta SMS to "@ + profile.phone_number,
            FactorView::Totp { provider: FactorProvider::Google, .. } => "Software TOTP"@,
            FactorView::Totp { .. } => "Okta Verify TOTP"@,
            FactorView::WebAuthn { profile, .. } => "WebAuthn with "@
                + profile.authenticator_name,
        }
    }
}

/// The fields that every kind carries, as they were read from a record.
struct Envelope {
    id: String,
    provider: FactorProvider,
    status: Option<FactorStatus>,
    links: Option<Vec<(String, Value)>>,
}

impl View for Envelope {
    type V = EnvelopeView;

    closed spec fn view(&self) -> EnvelopeView {
        EnvelopeView {
            id: self.id@,
            provider: self.provider,
            status: self.status,
            links: view_links(self.links),
        }
    }
}

/// Reads the discriminant.
fn read_kind(record: &Value) -> (kind: Option<FactorKind>)
    ensures
        kind == kind_of(record@),
{
    match record.get(Field::FactorType.name()) {
        Some(Value::Text(token)) => FactorKind::from_token(token.as_str()),
        _ => None,
    }
}

/// Reads the provider.
fn read_provider(record: &Value) -> (provider: Option<FactorProvider>)
    ensures
        provider == provider_of(record@),
{
    match record.get(Field::Provider.name()) {
        Some(Value::Text(token)) => FactorProvider::from_token(token.as_str()),
        _ => None,
    }
}

/// Reads the identifier.
fn read_id(record: &Value) -> (id: Option<String>)
    ensures
        match id {
            Some(t) => id_of(record@) == Some(t@),
            None => id_of(record@) is None,
        },
{
    match record.get(Field::Id.name()) {
        Some(Value::Text(id)) => if id.as_str().is_empty() {
            None
        } else {
            Some(id.clone())
        },
        _ => None,
    }
}

/// Reads the status.
fn read_status(record: &Value) -> (status: Result<Option<FactorStatus>, ParseError>)
    ensures
        status == status_of(record@),
{
    match record.get(Field::Status.name()) {
        None => Ok(None),
        Some(Value::Null) => Ok(None),
        Some(Value::Text(token)) => match FactorStatus::from_token(token.as_str()) {
            Some(status) => Ok(Some(status)),
            None => Err(ParseError::MalformedProfile { field: Field::Status }),
        },
        _ => Err(ParseError::MalformedProfile { field: Field::Status }),
    }
}

/// Reads the links, and copies them as they stand.
fn read_links(record: &Value) -> (links: Result<Option<Vec<(String, Value)>>, ParseError>)
    ensures
        match links {
            Ok(read) => links_of(record@) == Ok::<_, ParseError>(view_links(read)),
            Err(e) => links_of(record@) == Err::<Option<Map<Seq<char>, ValueView>>, _>(e),
        },
{
    match record.get(Field::Links.name()) {
        None => Ok(None),
        Some(Value::Null) => Ok(None),
        Some(Value::Record(entries)) => Ok(Some(clone_fields(entries))),
        _ => Err(ParseError::MalformedProfile { field: Field::Links }),
    }
}

/// Reads the embedded challenge.
fn read_challenge(record: &Value) -> (embedded: Result<Option<FactorChallenge>, ParseError>)
    ensures
        match embedded {
            Ok(read) => challenge_of(record@) == Ok::<_, ParseError>(view_challenge(read)),
            Err(e) => challenge_of(record@) == Err::<Option<FactorChallengeView>, _>(e),
        },
{
    match record.get(Field::Embedded.name()) {
        None => Ok(None),
        Some(Value::Null) => Ok(None),
        Some(Value::Record(fields)) => match lookup(fields, Field::Challenge.name()) {
            Some(Value::Text(challenge)) => Ok(
                Some(FactorChallenge { challenge: challenge.clone() }),
            ),
            _ => Err(ParseError::MalformedChallenge),
        },
        _ => Err(ParseError::MalformedChallenge),
    }
}

/// Reads the fields that every kind carries.
fn read_envelope(record: &Value) -> (out: Result<Envelope, ParseError>)
    ensures
        view_outcome(out) == envelope_of(record@),
{
    let provider = match read_provider(record) {
        Some(provider) => provider,
        None => return Err(ParseError::UnrecognizedProvider),
    };
    let id = match read_id(record) {
        Some(id) => id,
        None => return Err(ParseError::MalformedProfile { field: Field::Id }),
    };
    let status = match read_status(record) {
        Ok(status) => status,
        Err(e) => return Err(e),
    };
    let links = match read_links(record) {
        Ok(links) => links,
        Err(e) => return Err(e),
    };
    Ok(Envelope { id, provider, status, links })
}

impl Factor {
    /// Reads a factor from a record.
    ///
    /// The outcome is exactly [`FactorView::parsed`] of the record. In
    /// particular a record whose discriminant names no known kind is always
    /// rejected as such, whatever else it holds, and every factor that comes
    /// out has an identifier that is not empty and the kind that the
    /// discriminant names.
    pub fn parse(record: &Value) -> (out: Result<Factor, ParseError>)
        ensures
            view_outcome(out) == FactorView::parsed(record@),
            kind_of(record@) is None ==> out == Err::<Factor, _>(
                ParseError::UnrecognizedFactorType,
            ),
            out matches Ok(factor) ==> factor@.well_formed() && kind_of(record@) == Some(
                factor@.kind(),
            ),
    {
        let kind = match read_kind(record) {
            Some(kind) => kind,
            None => return Err(ParseError::UnrecognizedFactorType),
        };
        let envelope = match read_envelope(record) {
            Ok(envelope) => envelope,
            Err(e) => return Err(e),
        };
        let absent = Value::Null;
        let payload: &Value = match record.get(Field::Profile.name()) {
            Some(payload) => payload,
            None => &absent,
        };
        assert(payload@ == payload_of(record@));
        let Envelope { id, provider, status, links } = envelope;
        match kind {
            FactorKind::Push => match PushFactorProfile::parse(payload) {
                Ok(profile) => Ok(Factor::Push { id, provider, status, profile, links }),
                Err(e) => Err(e),
            },
            FactorKind::Sms => match SmsFactorProfile::parse(payload) {
                Ok(profile) => Ok(Factor::Sms { id, provider, status, profile, links }),
                Err(e) => Err(e),
            },
            FactorKind::Totp => match TokenFactorProfile::parse(payload) {
                Ok(profile) => Ok(Factor::Totp { id, provider, status, profile, links }),
                Err(e) => Err(e),
            },
            FactorKind::WebAuthn => match WebAuthnFactorProfile::parse(payload) {
                Ok(profile) => match read_challenge(record) {
                    Ok(embedded) => Ok(
                        Factor::WebAuthn { id, provider, status, profile, links, embedded },
                    ),
                    Err(e) => Err(e),
                },
                Err(e) => Err(e),
            },
        }
    }

    /// The kind of the factor.
    pub fn kind(&self) -> (kind: FactorKind)
        ensures
            kind == self@.kind(),
    {
        match self {
            Factor::Push { .. } => FactorKind::Push,
            Factor::Sms { .. } => FactorKind::Sms,
            Factor::Totp { .. } => FactorKind::Totp,
            Factor::WebAuthn { .. } => FactorKind::WebAuthn,
        }
    }

    /// The identifier of the factor.
    pub fn id(&self) -> (id: &str)
        ensures
            id@ == self@.id(),
    {
        match self {
            Factor::Push { id, .. } => id.as_str(),
            Factor::Sms { id, .. } => id.as_str(),
            Factor::Totp { id, .. } => id.as_str(),
            Factor::WebAuthn { id, .. } => id.as_str(),
        }
    }

    /// The line that describes the factor, for a list to choose from or for
    /// a log. Every factor has exactly one.
    pub fn to_string(&self) -> (line: String)
        ensures
            line@ == self@.description(),
    {
        match self {
            Factor::Push { profile, .. } => String::from_str("Okta Verify Push to ").concat(
                profile.name(),
            ),
            Factor::Sms { profile, .. } => String::from_str("Okta SMS to ").concat(
                profile.phone_number(),
            ),
            Factor::Totp { provider: FactorProvider::Google, .. } => String::from_str(
                "Software TOTP",
            ),
            Factor::Totp { .. } => String::from_str("Okta Verify TOTP"),
            Factor::WebAuthn { profile, .. } => String::from_str("WebAuthn with ").concat(
                profile.authenticator_name(),
            ),
        }
    }
}

} // verus!
