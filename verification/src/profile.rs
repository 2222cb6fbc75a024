//! The profiles: for each kind of factor the fields that describe it, and the
//! shape that a record must have to be read as one.

use crate::error::{Field, ParseError};
use crate::value::{find, lookup, view_fields, Value, ValueView};
use vstd::prelude::*;

verus! {

/// The text of the field `field`: present only where the field exists and is
/// a string.
pub open spec fn text_field(fields: Seq<(Seq<char>, ValueView)>, field: Field) -> Option<Seq<char>> {
    match find(fields, field.wire_name()) {
        Some(ValueView::Text(t)) => Some(t),
        _ => None,
    }
}

/// Whether the field `field` may be read as an optional string: it is absent,
/// null, or a string.
pub open spec fn admits_optional_text(fields: Seq<(Seq<char>, ValueView)>, field: Field) -> bool {
    match find(fields, field.wire_name()) {
        None => true,
        Some(ValueView::Null) => true,
        Some(ValueView::Text(_)) => true,
        _ => false,
    }
}

/// The content of the outcome of reading a record.
pub open spec fn view_outcome<T: View>(outcome: Result<T, ParseError>) -> Result<T::V, ParseError> {
    match outcome {
        Ok(t) => Ok(t@),
        Err(e) => Err(e),
    }
}

/// The content of a string that may be absent.
pub open spec fn view_text(text: Option<String>) -> Option<Seq<char>> {
    match text {
        Some(t) => Some(t@),
        None => None,
    }
}

/// Reads a required string field, and names the field where it is missing
/// or no string.
fn read_text(fields: &Vec<(String, Value)>, field: Field) -> (out: Result<String, ParseError>)
    ensures
        match out {
            Ok(t) => text_field(view_fields(*fields), field) == Some(t@),
            Err(e) => text_field(view_fields(*fields), field) is None && e
                == (ParseError::MalformedProfile { field }),
        },
{
    match lookup(fields, field.name()) {
        Some(Value::Text(t)) => Ok(t.clone()),
        _ => Err(ParseError::MalformedProfile { field }),
    }
}

/// Reads a string field that may be absent or null, and names the field
/// where it holds anything else.
fn read_optional_text(fields: &Vec<(String, Value)>, field: Field) -> (out: Result<
    Option<String>,
    ParseError,
>)
    ensures
        match out {
            Ok(t) => admits_optional_text(view_fields(*fields), field) && view_text(t)
                == text_field(view_fields(*fields), field),
            Err(e) => !admits_optional_text(view_fields(*fields), field) && e
                == (ParseError::MalformedProfile { field }),
        },
{
    match lookup(fields, field.name()) {
        None => Ok(None),
        Some(Value::Null) => Ok(None),
        Some(Value::Text(t)) => Ok(Some(t.clone())),
        _ => Err(ParseError::MalformedProfile { field }),
    }
}

/// The profile of a push factor: the device that receives the notification.
#[derive(Clone, Debug, PartialEq, Eq)]
pub struct PushFactorProfile {
    credential_id: String,
    device_type: String,
    name: String,
    platform: String,
    version: String,
}

/// The content of a [`PushFactorProfile`].
pub ghost struct PushFactorProfileView {
    pub credential_id: Seq<char>,
    pub device_type: Seq<char>,
    pub name: Seq<char>,
    pub platform: Seq<char>,
    pub version: Seq<char>,
}

impl View for PushFactorProfile {
    type V = PushFactorProfileView;

    closed spec fn view(&self) -> PushFactorProfileView {
        PushFactorProfileView {
            credential_id: self.credential_id@,
            device_type: self.device_type@,
            name: self.name@,
            platform: self.platform@,
            version: self.version@,
        }
    }
}

impl PushFactorProfileView {
    /// What reading a value as this profile gives: the profile, where the
    /// value is a record that holds every required field as a string; else
    /// the first field, in the order in which they are declared, that is not
    /// as it must be.
    pub open spec fn parsed(v: ValueView) -> Result<PushFactorProfileView, ParseError> {
        match v {
            ValueView::Record(fields) => {
                if text_field(fields, Field::CredentialId) is None {
                    Err(ParseError::MalformedProfile { field: Field::CredentialId })
                } else if text_field(fields, Field::DeviceType) is None {
                    Err(ParseError::MalformedProfile { field: Field::DeviceType })
                } else if text_field(fields, Field::Name) is None {
                    Err(ParseError::MalformedProfile { field: Field::Name })
                } else if text_field(fields, Field::Platform) is None {
                    Err(ParseError::MalformedProfile { field: Field::Platform })
                } else if text_field(fields, Field::Version) is None {
                    Err(ParseError::MalformedProfile { field: Field::Version })
                } else {
                    Ok(
                        PushFactorProfileView {
                            credential_id: text_field(fields, Field::CredentialId)->0,
                            device_type: text_field(fields, Field::DeviceType)->0,
                            name: text_field(fields, Field::Name)->0,
                            platform: text_field(fields, Field::Platform)->0,
                            version: text_field(fields, Field::Version)->0,
                        },
                    )
                }
            },
            _ => Err(ParseError::MalformedProfile { field: Field::Profile }),
        }
    }
}

impl PushFactorProfile {
    /// Reads the profile from a value. The value must be a record; fields
    /// that the profile does not know are passed over.
    pub fn parse(v: &Value) -> (out: Result<PushFactorProfile, ParseError>)
        ensures
            view_outcome(out) == PushFactorProfileView::parsed(v@),
    {
        match v {
            Value::Record(fields) => {
                let credential_id = match read_text(fields, Field::CredentialId) {
                    Ok(t) => t,
                    Err(e) => return Err(e),
                };
                let device_type = match read_text(fields, Field::DeviceType) {
                    Ok(t) => t,
                    Err(e) => return Err(e),
                };
                let name = match read_text(fields, Field::Name) {
                    Ok(t) => t,
                    Err(e) => return Err(e),
                };
                let platform = match read_text(fields, Field::Platform) {
                    Ok(t) => t,
                    Err(e) => return Err(e),
                };
                let version = match read_text(fields, Field::Version) {
                    Ok(t) => t,
                    Err(e) => return Err(e),
                };
                Ok(PushFactorProfile { credential_id, device_type, name, platform, version })
            },
            _ => Err(ParseError::MalformedProfile { field: Field::Profile }),
        }
    }

    /// The credential that the device is enrolled under.
    pub fn credential_id(&self) -> (text: &str)
        ensures
            text@ == self@.credential_id,
    {
        self.credential_id.as_str()
    }

    /// The type of the device.
    pub fn device_type(&self) -> (text: &str)
        ensures
            text@ == self@.device_type,
    {
        self.device_type.as_str()
    }

    /// The name of the device, as its owner knows it.
    pub fn name(&self) -> (text: &str)
        ensures
            text@ == self@.name,
    {
        self.name.as_str()
    }

    /// The platform that the device runs.
    pub fn platform(&self) -> (text: &str)
        ensures
            text@ == self@.platform,
    {
        self.platform.as_str()
    }

    /// The version of that platform.
    pub fn version(&self) -> (text: &str)
        ensures
            text@ == self@.version,
    {
        self.version.as_str()
    }
}

/// The profile of an SMS factor: the phone that receives the code.
#[derive(Clone, Debug, PartialEq, Eq)]
pub struct SmsFactorProfile {
    phone_number: String,
}

/// The content of a [`SmsFactorProfile`].
pub ghost struct SmsFactorProfileView {
    pub phone_number: Seq<char>,
}

impl View for SmsFactorProfile {
    type V = SmsFactorProfileView;

    closed spec fn view(&self) -> SmsFactorProfileView {
        SmsFactorProfileView {
            phone_number: self.phone_number@,
        }
    }
}

impl SmsFactorProfileView {
    /// What reading a value as this profile gives: the profile, where the
    /// value is a record that holds every required field as a string; else
    /// the first field, in the order in which they are declared, that is not
    /// as it must be.
    pub open spec fn parsed(v: ValueView) -> Result<SmsFactorProfileView, ParseError> {
        match v {
            ValueView::Record(fields) => {
                if text_field(fields, Field::PhoneNumber) is None {
                    Err(ParseError::MalformedProfile { field: Field::PhoneNumber })
                } else {
                    Ok(
                        SmsFactorProfileView {
                            phone_number: text_field(fields, Field::PhoneNumber)->0,
                        },
                    )
                }
            },
            _ => Err(ParseError::MalformedProfile { field: Field::Profile }),
        }
    }
}

impl SmsFactorProfile {
    /// Reads the profile from a value. The value must be a record; fields
    /// that the profile does not know are passed over.
    pub fn parse(v: &Value) -> (out: Result<SmsFactorProfile, ParseError>)
        ensures
            view_outcome(out) == SmsFactorProfileView::parsed(v@),
    {
        match v {
            Value::Record(fields) => {
                let phone_number = match read_text(fields, Field::PhoneNumber) {
                    Ok(t) => t,
                    Err(e) => return Err(e),
                };
                Ok(SmsFactorProfile { phone_number })
            },
            _ => Err(ParseError::MalformedProfile { field: Field::Profile }),
        }
    }

    /// The number that the code is sent to.
    pub fn phone_number(&self) -> (text: &str)
        ensures
            text@ == self@.phone_number,
    {
        self.phone_number.as_str()
    }
}

/// The profile of a voice-call factor. No kind of factor uses this shape yet.
#[derive(Clone, Debug, PartialEq, Eq)]
pub struct CallFactorProfile {
    phone_number: String,
    phone_extension: Option<String>,
}

/// The content of a [`CallFactorProfile`].
pub ghost struct CallFactorProfileView {
    pub phone_number: Seq<char>,
    pub phone_extension: Option<Seq<char>>,
}

impl View for CallFactorProfile {
    type V = CallFactorProfileView;

    closed spec fn view(&self) -> CallFactorProfileView {
        CallFactorProfileView {
            phone_number: self.phone_number@,
            phone_extension: view_text(self.phone_extension),
        }
    }
}

impl CallFactorProfileView {
    /// What reading a value as this profile gives: the profile, where the
    /// value is a record that holds every required field as a string; else
    /// the first field, in the order in which they are declared, that is not
    /// as it must be.
    pub open spec fn parsed(v: ValueView) -> Result<CallFactorProfileView, ParseError> {
        match v {
            ValueView::Record(fields) => {
                if text_field(fields, Field::PhoneNumber) is None {
                    Err(ParseError::MalformedProfile { field: Field::PhoneNumber })
                } else if !admits_optional_text(fields, Field::PhoneExtension) {
                    Err(ParseError::MalformedProfile { field: Field::PhoneExtension })
                } else {
                    Ok(
                        CallFactorProfileView {
                            phone_number: text_field(fields, Field::PhoneNumber)->0,
                            phone_extension: text_field(fields, Field::PhoneExtension),
                        },
                    )
                }
            },
            _ => Err(ParseError::MalformedProfile { field: Field::Profile }),
        }
    }
}

impl CallFactorProfile {
    /// Reads the profile from a value. The value must be a record; fields
    /// that the profile does not know are passed over.
    pub fn parse(v: &Value) -> (out: Result<CallFactorProfile, ParseError>)
        ensures
            view_outcome(out) == CallFactorProfileView::parsed(v@),
    {
        match v {
            Value::Record(fields) => {
                let phone_number = match read_text(fields, Field::PhoneNumber) {
                    Ok(t) => t,
                    Err(e) => return Err(e),
                };
                let phone_extension = match read_optional_text(fields, Field::PhoneExtension) {
                    Ok(t) => t,
                    Err(e) => return Err(e),
                };
                Ok(CallFactorProfile { phone_number, phone_extension })
            },
            _ => Err(ParseError::MalformedProfile { field: Field::Profile }),
        }
    }

    /// The number that is called.
    pub fn phone_number(&self) -> (text: &str)
        ensures
            text@ == self@.phone_number,
    {
        self.phone_number.as_str()
    }

    /// The extension to dial after the number, if any.
    pub fn phone_extension(&self) -> (text: Option<&str>)
        ensures
            match text {
                Some(t) => self@.phone_extension == Some(t@),
                None => self@.phone_extension is None,
            },
    {
        match &self.phone_extension {
            Some(t) => Some(t.as_str()),
            None => None,
        }
    }
}

/// The profile of a security-question factor. No kind of factor uses this shape yet.
#[derive(Clone, Debug, PartialEq, Eq)]
pub struct QuestionFactorProfile {
    question: String,
    question_text: String,
    answer: Option<String>,
}

/// The content of a [`QuestionFactorProfile`].
pub ghost struct QuestionFactorProfileView {
    pub question: Seq<char>,
    pub question_text: Seq<char>,
    pub answer: Option<Seq<char>>,
}

impl View for QuestionFactorProfile {
    type V = QuestionFactorProfileView;

    closed spec fn view(&self) -> QuestionFactorProfileView {
        QuestionFactorProfileView {
            question: self.question@,
            question_text: self.question_text@,
            answer: view_text(self.answer),
        }
    }
}

impl QuestionFactorProfileView {
    /// What reading a value as this profile gives: the profile, where the
    /// value is a record that holds every required field as a string; else
    /// the first field, in the order in which they are declared, that is not
    /// as it must be.
    pub open spec fn parsed(v: ValueView) -> Result<QuestionFactorProfileView, ParseError> {
        match v {
            ValueView::Record(fields) => {
                if text_field(fields, Field::Question) is None {
                    Err(ParseError::MalformedProfile { field: Field::Question })
                } else if text_field(fields, Field::QuestionText) is None {
                    Err(ParseError::MalformedProfile { field: Field::QuestionText })
                } else if !admits_optional_text(fields, Field::Answer) {
                    Err(ParseError::MalformedProfile { field: Field::Answer })
                } else {
                    Ok(
                        QuestionFactorProfileView {
                            question: text_field(fields, Field::Question)->0,
                            question_text: text_field(fields, Field::QuestionText)->0,
                            answer: text_field(fields, Field::Answer),
                        },
                    )
                }
            },
            _ => Err(ParseError::MalformedProfile { field: Field::Profile }),
        }
    }
}

impl QuestionFactorProfile {
    /// Reads the profile from a value. The value must be a record; fields
    /// that the profile does not know are passed over.
    pub fn parse(v: &Value) -> (out: Result<QuestionFactorProfile, ParseError>)
        ensures
            view_outcome(out) == QuestionFactorProfileView::parsed(v@),
    {
        match v {
            Value::Record(fields) => {
                let question = match read_text(fields, Field::Question) {
                    Ok(t) => t,
                    Err(e) => return Err(e),
                };
                let question_text = match read_text(fields, Field::QuestionText) {
                    Ok(t) => t,
                    Err(e) => return Err(e),
                };
                let answer = match read_optional_text(fields, Field::Answer) {
                    Ok(t) => t,
                    Err(e) => return Err(e),
                };
                Ok(QuestionFactorProfile { question, question_text, answer })
            },
            _ => Err(ParseError::MalformedProfile { field: Field::Profile }),
        }
    }

    /// The key of the question.
    pub fn question(&self) -> (text: &str)
        ensures
            text@ == self@.question,
    {
        self.question.as_str()
    }

    /// The question as it is shown.
    pub fn question_text(&self) -> (text: &str)
        ensures
            text@ == self@.question_text,
    {
        self.question_text.as_str()
    }

    /// The answer, where it is given.
    pub fn answer(&self) -> (text: Option<&str>)
        ensures
            match text {
                Some(t) => self@.answer == Some(t@),
                None => self@.answer is None,
            },
    {
        match &self.answer {
            Some(t) => Some(t.as_str()),
            None => None,
        }
    }
}

/// The profile of a time-based one-time-password factor.
#[derive(Clone, Debug, PartialEq, Eq)]
pub struct TokenFactorProfile {
    credential_id: String,
}

/// The content of a [`TokenFactorProfile`].
pub ghost struct TokenFactorProfileView {
    pub credential_id: Seq<char>,
}

impl View for TokenFactorProfile {
    type V = TokenFactorProfileView;

    closed spec fn view(&self) -> TokenFactorProfileView {
        TokenFactorProfileView {
            credential_id: self.credential_id@,
        }
    }
}

impl TokenFactorProfileView {
    /// What reading a value as this profile gives: the profile, where the
    /// value is a record that holds every required field as a string; else
    /// the first field, in the order in which they are declared, that is not
    /// as it must be.
    pub open spec fn parsed(v: ValueView) -> Result<TokenFactorProfileView, ParseError> {
        match v {
            ValueView::Record(fields) => {
                if text_field(fields, Field::CredentialId) is None {
                    Err(ParseError::MalformedProfile { field: Field::CredentialId })
                } else {
                    Ok(
                        TokenFactorProfileView {
                            credential_id: text_field(fields, Field::CredentialId)->0,
                        },
                    )
                }
            },
            _ => Err(ParseError::MalformedProfile { field: Field::Profile }),
        }
    }
}

impl TokenFactorProfile {
    /// Reads the profile from a value. The value must be a record; fields
    /// that the profile does not know are passed over.
    pub fn parse(v: &Value) -> (out: Result<TokenFactorProfile, ParseError>)
        ensures
            view_outcome(out) == TokenFactorProfileView::parsed(v@),
    {
        match v {
            Value::Record(fields) => {
                let credential_id = match read_text(fields, Field::CredentialId) {
                    Ok(t) => t,
                    Err(e) => return Err(e),
                };
                Ok(TokenFactorProfile { credential_id })
            },
            _ => Err(ParseError::MalformedProfile { field: Field::Profile }),
        }
    }

    /// The credential that the token is enrolled under.
    pub fn credential_id(&self) -> (text: &str)
        ensures
            text@ == self@.credential_id,
    {
        self.credential_id.as_str()
    }
}

/// The profile of a web factor. No kind of factor uses this shape yet.
#[derive(Clone, Debug, PartialEq, Eq)]
pub struct WebFactorProfile {
    credential_id: String,
}

/// The content of a [`WebFactorProfile`].
pub ghost struct WebFactorProfileView {
    pub credential_id: Seq<char>,
}

impl View for WebFactorProfile {
    type V = WebFactorProfileView;

    closed spec fn view(&self) -> WebFactorProfileView {
        WebFactorProfileView {
            credential_id: self.credential_id@,
        }
    }
}

impl WebFactorProfileView {
    /// What reading a value as this profile gives: the profile, where the
    /// value is a record that holds every required field as a string; else
    /// the first field, in the order in which they are declared, that is not
    /// as it must be.
    pub open spec fn parsed(v: ValueView) -> Result<WebFactorProfileView, ParseError> {
        match v {
            ValueView::Record(fields) => {
                if text_field(fields, Field::CredentialId) is None {
                    Err(ParseError::MalformedProfile { field: Field::CredentialId })
                } else {
                    Ok(
                        WebFactorProfileView {
                            credential_id: text_field(fields, Field::CredentialId)->0,
                        },
                    )
                }
            },
            _ => Err(ParseError::MalformedProfile { field: Field::Profile }),
        }
    }
}

impl WebFactorProfile {
    /// Reads the profile from a value. The value must be a record; fields
    /// that the profile does not know are passed over.
    pub fn parse(v: &Value) -> (out: Result<WebFactorProfile, ParseError>)
        ensures
            view_outcome(out) == WebFactorProfileView::parsed(v@),
    {
        match v {
            Value::Record(fields) => {
                let credential_id = match read_text(fields, Field::CredentialId) {
                    Ok(t) => t,
                    Err(e) => return Err(e),
                };
                Ok(WebFactorProfile { credential_id })
            },
            _ => Err(ParseError::MalformedProfile { field: Field::Profile }),
        }
    }

    /// The credential that the factor is enrolled under.
    pub fn credential_id(&self) -> (text: &str)
        ensures
            text@ == self@.credential_id,
    {
        self.credential_id.as_str()
    }
}

/// The profile of a WebAuthn factor: a security key or a biometric authenticator.
#[derive(Clone, Debug, PartialEq, Eq)]
pub struct WebAuthnFactorProfile {
    credential_id: String,
    authenticator_name: String,
}

/// The content of a [`WebAuthnFactorProfile`].
pub ghost struct WebAuthnFactorProfileView {
    pub credential_id: Seq<char>,
    pub authenticator_name: Seq<char>,
}

impl View for WebAuthnFactorProfile {
    type V = WebAuthnFactorProfileView;

    closed spec fn view(&self) -> WebAuthnFactorProfileView {
        WebAuthnFactorProfileView {
            credential_id: self.credential_id@,
            authenticator_name: self.authenticator_name@,
        }
    }
}

impl WebAuthnFactorProfileView {
    /// What reading a value as this profile gives: the profile, where the
    /// value is a record that holds every required field as a string; else
    /// the first field, in the order in which they are declared, that is not
    /// as it must be.
    pub open spec fn parsed(v: ValueView) -> Result<WebAuthnFactorProfileView, ParseError> {
        match v {
            ValueView::Record(fields) => {
                if text_field(fields, Field::CredentialId) is None {
                    Err(ParseError::MalformedProfile { field: Field::CredentialId })
                } else if text_field(fields, Field::AuthenticatorName) is None {
                    Err(ParseError::MalformedProfile { field: Field::AuthenticatorName })
                } else {
                    Ok(
                        WebAuthnFactorProfileView {
                            credential_id: text_field(fields, Field::CredentialId)->0,
                            authenticator_name: text_field(fields, Field::AuthenticatorName)->0,
                        },
                    )
                }
            },
            _ => Err(ParseError::MalformedProfile { field: Field::Profile }),
        }
    }
}

impl WebAuthnFactorProfile {
    /// Reads the profile from a value. The value must be a record; fields
    /// that the profile does not know are passed over.
    pub fn parse(v: &Value) -> (out: Result<WebAuthnFactorProfile, ParseError>)
        ensures
            view_outcome(out) == WebAuthnFactorProfileView::parsed(v@),
    {
        match v {
            Value::Record(fields) => {
                let credential_id = match read_text(fields, Field::CredentialId) {
                    Ok(t) => t,
                    Err(e) => return Err(e),
                };
                let authenticator_name = match read_text(fields, Field::AuthenticatorName) {
                    Ok(t) => t,
                    Err(e) => return Err(e),
                };
                Ok(WebAuthnFactorProfile { credential_id, authenticator_name })
            },
            _ => Err(ParseError::MalformedProfile { field: Field::Profile }),
        }
    }

    /// The credential that the authenticator holds.
    pub fn credential_id(&self) -> (text: &str)
        ensures
            text@ == self@.credential_id,
    {
        self.credential_id.as_str()
    }

    /// The name of the authenticator.
    pub fn authenticator_name(&self) -> (text: &str)
        ensures
            text@ == self@.authenticator_name,
    {
        self.authenticator_name.as_str()
    }
}

} // verus!
