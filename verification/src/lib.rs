//! Typed model of the multi-factor-authentication factors that an identity
//! provider lists for a user: the untyped records that arrive from the wire,
//! the closed set of factor kinds they are parsed into, and the one-line
//! description shown for each factor.

pub mod error;
pub mod factor;
pub mod laws;
pub mod listing;
pub mod profile;
pub mod text;
pub mod tokens;
pub mod value;
pub mod verification;

pub use error::{Field, ParseError};
pub use factor::{Factor, FactorChallenge};
pub use listing::parse_listing;
pub use profile::{
    CallFactorProfile, PushFactorProfile, QuestionFactorProfile, SmsFactorProfile,
    TokenFactorProfile, WebAuthnFactorProfile, WebFactorProfile,
};
pub use tokens::{FactorKind, FactorProvider, FactorStatus};
pub use value::{lookup, Value};
pub use verification::FactorVerification;
