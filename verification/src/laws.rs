//! What holds of reading and describing factors, whatever the input.

use crate::error::{lemma_wire_names_distinct, Field, ParseError};
use crate::factor::{
    challenge_of, envelope_of, kind_of, payload_of, EnvelopeView, Factor, FactorChallengeView,
    FactorView,
};
use crate::profile::{
    text_field, PushFactorProfileView, SmsFactorProfileView, TokenFactorProfileView,
    WebAuthnFactorProfileView,
};
use crate::tokens::{
    lemma_kind_token_reads_back, lemma_provider_token_reads_back, FactorKind, FactorProvider,
};
use crate::value::{find_from, ValueView};
use vstd::prelude::*;

verus! {

/// A field that holds a string.
pub open spec fn text_entry(field: Field, text: Seq<char>) -> (Seq<char>, ValueView) {
    (field.wire_name(), ValueView::Text(text))
}

/// The record that holds the fields of a push profile and nothing else.
pub open spec fn push_profile_record(profile: PushFactorProfileView) -> ValueView {
    ValueView::Record(
        seq![
            text_entry(Field::CredentialId, profile.credential_id),
            text_entry(Field::DeviceType, profile.device_type),
            text_entry(Field::Name, profile.name),
            text_entry(Field::Platform, profile.platform),
            text_entry(Field::Version, profile.version),
        ],
    )
}

/// The record that holds the field of an SMS profile and nothing else.
pub open spec fn sms_profile_record(profile: SmsFactorProfileView) -> ValueView {
    ValueView::Record(seq![text_entry(Field::PhoneNumber, profile.phone_number)])
}

/// The record that holds the field of a token profile and nothing else.
pub open spec fn token_profile_record(profile: TokenFactorProfileView) -> ValueView {
    ValueView::Record(seq![text_entry(Field::CredentialId, profile.credential_id)])
}

/// The record that holds the fields of a WebAuthn profile and nothing else.
pub open spec fn webauthn_profile_record(profile: WebAuthnFactorProfileView) -> ValueView {
    ValueView::Record(
        seq![
            text_entry(Field::CredentialId, profile.credential_id),
            text_entry(Field::AuthenticatorName, profile.authenticator_name),
        ],
    )
}

/// The smallest record of a factor: the discriminant, the identifier, the
/// provider and the profile, with every optional field left out.
pub open spec fn minimal_record(
    kind: FactorKind,
    id: Seq<char>,
    provider: FactorProvider,
    profile: ValueView,
) -> ValueView {
    ValueView::Record(
        seq![
            text_entry(Field::FactorType, kind.token()),
            text_entry(Field::Id, id),
            text_entry(Field::Provider, provider.token()),
            (Field::Profile.wire_name(), profile),
        ],
    )
}

/// Reading a minimal record finds the kind, the identifier, the provider and
/// the profile that were written, and no status, links or challenge.
pub proof fn lemma_minimal_record_is_read(
    kind: FactorKind,
    id: Seq<char>,
    provider: FactorProvider,
    profile: ValueView,
)
    requires
        id.len() > 0,
    ensures
        kind_of(minimal_record(kind, id, provider, profile)) == Some(kind),
        envelope_of(minimal_record(kind, id, provider, profile)) == Ok::<_, ParseError>(
            EnvelopeView { id, provider, status: None, links: None },
        ),
        payload_of(minimal_record(kind, id, provider, profile)) == profile,
        challenge_of(minimal_record(kind, id, provider, profile)) == Ok::<
            Option<FactorChallengeView>,
            ParseError,
        >(None),
{
    reveal_with_fuel(find_from, 5);
    lemma_fields_are_told_apart();
    lemma_kind_token_reads_back(kind);
    lemma_provider_token_reads_back(provider);
}

/// Distinct fields are told apart by their names.
proof fn lemma_fields_are_told_apart()
    ensures
        forall|a: Field, b: Field| a.wire_name() == b.wire_name() <==> a == b,
{
    assert forall|a: Field, b: Field| a.wire_name() == b.wire_name() <==> a == b by {
        lemma_wire_names_distinct(a, b);
    }
}

/// A minimal record of a push factor reads as a push factor whose fields are
/// those that were written.
pub proof fn lemma_minimal_push_is_read(
    id: Seq<char>,
    provider: FactorProvider,
    profile: PushFactorProfileView,
)
    requires
        id.len() > 0,
    ensures
        FactorView::parsed(
            minimal_record(FactorKind::Push, id, provider, push_profile_record(profile)),
        ) == Ok::<_, ParseError>(
            FactorView::Push { id, provider, status: None, profile, links: None },
        ),
{
    lemma_minimal_record_is_read(FactorKind::Push, id, provider, push_profile_record(profile));
    reveal_with_fuel(find_from, 6);
    lemma_fields_are_told_apart();
}

/// A minimal record of an SMS factor reads as an SMS factor whose fields are
/// those that were written.
pub proof fn lemma_minimal_sms_is_read(
    id: Seq<char>,
    provider: FactorProvider,
    profile: SmsFactorProfileView,
)
    requires
        id.len() > 0,
    ensures
        FactorView::parsed(
            minimal_record(FactorKind::Sms, id, provider, sms_profile_record(profile)),
        ) == Ok::<_, ParseError>(
            FactorView::Sms { id, provider, status: None, profile, links: None },
        ),
{
    lemma_minimal_record_is_read(FactorKind::Sms, id, provider, sms_profile_record(profile));
    reveal_with_fuel(find_from, 6);
    lemma_fields_are_told_apart();
}

/// A minimal record of a time-based one-time-password factor reads as one
/// whose fields are those that were written.
pub proof fn lemma_minimal_totp_is_read(
    id: Seq<char>,
    provider: FactorProvider,
    profile: TokenFactorProfileView,
)
    requires
        id.len() > 0,
    ensures
        FactorView::parsed(
            minimal_record(FactorKind::Totp, id, provider, token_profile_record(profile)),
        ) == Ok::<_, ParseError>(
            FactorView::Totp { id, provider, status: None, profile, links: None },
        ),
{
    lemma_minimal_record_is_read(FactorKind::Totp, id, provider, token_profile_record(profile));
    reveal_with_fuel(find_from, 6);
    lemma_fields_are_told_apart();
}

/// A minimal record of a WebAuthn factor reads as a WebAuthn factor whose
/// fields are those that were written, with no challenge.
pub proof fn lemma_minimal_webauthn_is_read(
    id: Seq<char>,
    provider: FactorProvider,
    profile: WebAuthnFactorProfileView,
)
    requires
        id.len() > 0,
    ensures
        FactorView::parsed(
            minimal_record(FactorKind::WebAuthn, id, provider, webauthn_profile_record(profile)),
        ) == Ok::<_, ParseError>(
            FactorView::WebAuthn {
                id,
                provider,
                status: None,
                profile,
                links: None,
                embedded: None,
            },
        ),
{
    lemma_minimal_record_is_read(
        FactorKind::WebAuthn,
        id,
        provider,
        webauthn_profile_record(profile),
    );
    reveal_with_fuel(find_from, 6);
    lemma_fields_are_told_apart();
}

/// A record whose discriminant names no known kind is rejected as such,
/// whatever else it holds: it is never read as a factor of another kind.
pub proof fn lemma_unknown_kind_is_rejected(record: ValueView)
    requires
        kind_of(record) is None,
    ensures
        FactorView::parsed(record) == Err::<FactorView, _>(ParseError::UnrecognizedFactorType),
{
}

/// A WebAuthn record whose profile holds no string `authenticatorName` is
/// never read as a factor: no name is made up for it. Where nothing else is
/// wrong with the record, that field is named as the one at fault.
pub proof fn lemma_missing_authenticator_name_is_rejected(
    record: ValueView,
    fields: Seq<(Seq<char>, ValueView)>,
)
    requires
        kind_of(record) == Some(FactorKind::WebAuthn),
        payload_of(record) == ValueView::Record(fields),
        text_field(fields, Field::AuthenticatorName) is None,
    ensures
        FactorView::parsed(record) is Err,
        envelope_of(record) is Ok && text_field(fields, Field::CredentialId) is Some
            ==> FactorView::parsed(record) == Err::<FactorView, _>(
            ParseError::MalformedProfile { field: Field::AuthenticatorName },
        ),
{
}

/// Describing a factor twice gives the same line twice: the line depends on
/// the content of the factor and on nothing else.
pub proof fn lemma_description_repeats(factor: Factor, again: Factor, first: String, second: String)
    requires
        factor@ == again@,
        first@ == factor@.description(),
        second@ == again@.description(),
    ensures
        first@ == second@,
{
}

} // verus!
