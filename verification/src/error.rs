//! The fields of the wire format, and why a record was not accepted.

use vstd::prelude::*;

verus! {

/// A field of the wire format.
#[derive(Clone, Copy, Debug, PartialEq, Eq, Structural)]
pub enum Field {
    FactorType,
    Id,
    Provider,
    Status,
    Profile,
    Links,
    Embedded,
    Challenge,
    CredentialId,
    DeviceType,
    Name,
    Platform,
    Version,
    PhoneNumber,
    PhoneExtension,
    AuthenticatorName,
    Question,
    QuestionText,
    Answer,
}

impl Field {
    /// The name under which the field is written on the wire.
    pub open spec fn wire_name(self) -> Seq<char> {
        match self {
            Field::FactorType => "factorType"@,
            Field::Id => "id"@,
            Field::Provider => "provider"@,
            Field::Status => "status"@,
            Field::Profile => "profile"@,
            Field::Links => "_links"@,
            Field::Embedded => "_embedded"@,
            Field::Challenge => "challenge"@,
            Field::CredentialId => "credentialId"@,
            Field::DeviceType => "deviceType"@,
            Field::Name => "name"@,
            Field::Platform => "platform"@,
            Field::Version => "version"@,
            Field::PhoneNumber => "phoneNumber"@,
            Field::PhoneExtension => "phoneExtension"@,
            Field::AuthenticatorName => "authenticatorName"@,
            Field::Question => "question"@,
            Field::QuestionText => "questionText"@,
            Field::Answer => "answer"@,
        }
    }

    /// The name under which the field is written on the wire.
    pub fn name(&self) -> (name: &'static str)
        ensures
            name@ == self.wire_name(),
    {
        match self {
            Field::FactorType => "factorType",
            Field::Id => "id",
            Field::Provider => "provider",
            Field::Status => "status",
            Field::Profile => "profile",
            Field::Links => "_links",
            Field::Embedded => "_embedded",
            Field::Challenge => "challenge",
            Field::CredentialId => "credentialId",
            Field::DeviceType => "deviceType",
            Field::Name => "name",
            Field::Platform => "platform",
            Field::Version => "version",
            Field::PhoneNumber => "phoneNumber",
            Field::PhoneExtension => "phoneExtension",
            Field::AuthenticatorName => "authenticatorName",
            Field::Question => "question",
            Field::QuestionText => "questionText",
            Field::Answer => "answer",
        }
    }
}

/// Two fields are written under the same name only if they are the same
/// field.
pub proof fn lemma_wire_names_distinct(a: Field, b: Field)
    ensures
        a.wire_name() == b.wire_name() <==> a == b,
{
    reveal_strlit("factorType");
    reveal_strlit("id");
    reveal_strlit("provider");
    reveal_strlit("status");
    reveal_strlit("profile");
    reveal_strlit("_links");
    reveal_strlit("_embedded");
    reveal_strlit("challenge");
    reveal_strlit("credentialId");
    reveal_strlit("deviceType");
    reveal_strlit("name");
    reveal_strlit("platform");
    reveal_strlit("version");
    reveal_strlit("phoneNumber");
    reveal_strlit("phoneExtension");
    reveal_strlit("authenticatorName");
    reveal_strlit("question");
    reveal_strlit("questionText");
    reveal_strlit("answer");
    let x = a.wire_name();
    let y = b.wire_name();
    if a != b && x.len() == y.len() {
        // Names of one length differ in their first or second character.
        assert(x[0] != y[0] || x[1] != y[1]);
    }
}

/// The reasons for which a record is rejected. A rejected record yields no
/// factor at all: nothing is defaulted and nothing is left half filled.
#[derive(Clone, Copy, Debug, PartialEq, Eq, Structural)]
pub enum ParseError {
    /// The discriminant `factorType` is absent, is no string, or names no
    /// known kind of factor.
    UnrecognizedFactorType,
    /// The field `provider` is absent, is no string, or names no known
    /// provider.
    UnrecognizedProvider,
    /// A field that the kind requires is missing or has the wrong shape;
    /// `field` says which. This covers `id`, `status` and `_links` as well as
    /// `profile` and the fields inside it.
    MalformedProfile { field: Field },
    /// The embedded challenge is present but is no record with a string
    /// `challenge`.
    MalformedChallenge,
}

impl ParseError {
    /// The field at fault.
    pub open spec fn offending_field(self) -> Field {
        match self {
            ParseError::UnrecognizedFactorType => Field::FactorType,
            ParseError::UnrecognizedProvider => Field::Provider,
            ParseError::MalformedProfile { field } => field,
            ParseError::MalformedChallenge => Field::Embedded,
        }
    }

    /// The field at fault: the one that the record lacks, or that holds what
    /// it must not. For a malformed challenge that is `_embedded`, which
    /// holds the challenge.
    pub fn field(&self) -> (field: Field)
        ensures
            field == self.offending_field(),
    {
        match self {
            ParseError::UnrecognizedFactorType => Field::FactorType,
            ParseError::UnrecognizedProvider => Field::Provider,
            ParseError::MalformedProfile { field } => *field,
            ParseError::MalformedChallenge => Field::Embedded,
        }
    }
}

} // verus!
