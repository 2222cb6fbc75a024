//! The pass codes that a user hands in to verify a factor.

use crate::profile::view_text;
use vstd::prelude::*;

verus! {

/// What a user hands in to verify a factor: the code that the factor shows,
/// and the one that follows it where two codes in a row are asked for.
#[derive(Clone, Debug, PartialEq, Eq)]
pub struct FactorVerification {
    pass_code: String,
    next_pass_code: Option<String>,
}

/// The content of a [`FactorVerification`].
pub ghost struct FactorVerificationView {
    pub pass_code: Seq<char>,
    pub next_pass_code: Option<Seq<char>>,
}

impl View for FactorVerification {
    type V = FactorVerificationView;

    closed spec fn view(&self) -> FactorVerificationView {
        FactorVerificationView {
            pass_code: self.pass_code@,
            next_pass_code: view_text(self.next_pass_code),
        }
    }
}

impl FactorVerification {
    /// A verification with the given codes.
    pub fn new(pass_code: String, next_pass_code: Option<String>) -> (verification:
        FactorVerification)
        ensures
            verification@ == (FactorVerificationView {
                pass_code: pass_code@,
                next_pass_code: view_text(next_pass_code),
            }),
    {
        FactorVerification { pass_code, next_pass_code }
    }

    /// The code that the factor shows.
    pub fn pass_code(&self) -> (text: &str)
        ensures
            text@ == self@.pass_code,
    {
        self.pass_code.as_str()
    }

    /// The code that follows, where one is given.
    pub fn next_pass_code(&self) -> (text: Option<&str>)
        ensures
            match text {
                Some(t) => self@.next_pass_code == Some(t@),
                None => self@.next_pass_code is None,
            },
    {
        match &self.next_pass_code {
            Some(t) => Some(t.as_str()),
            None => None,
        }
    }
}

} // verus!
