//! What can go wrong while a codec is synthesized.

use vstd::prelude::*;
use vstd::string::StringExecFns;
use virtue::prelude::Span;

verus! {

/// `proc_macro2::Span`: a place in the source.
#[verifier::external_type_specification]
#[verifier::external_body]
pub struct ExSpan(Span);

/// A failure of the synthesis. No code is produced for the type.
#[derive(Debug)]
pub enum DeriveError {
    /// A piece of the generated code was no valid sequence of tokens: the
    /// name of the codec's crate, of a variant or of a field broke it.
    Generate(virtue::Error),
    /// An attribute could not be taken apart into keys and values.
    Attribute(virtue::Error),
    /// A field carries an attribute other than `with_serde`. The span is that
    /// of the offending entry, where there is one.
    UnknownFieldAttribute { token: Option<Span> },
    /// `crate` stands alone, without `= "name"`.
    ExpectedKeyValue { span: Span },
    /// The value given for `crate` is no string.
    ExpectedString { found: String, span: Span },
    /// The tag that a variant fixes is no integer literal of 32 bits.
    InvalidTag { found: String, span: Span },
    /// The union has more variants than a tag has values.
    TooManyVariants,
}

/// A failure, as contracts speak of it.
pub enum Fault {
    Generate,
    Attribute,
    UnknownFieldAttribute { token: Option<Span> },
    ExpectedKeyValue { span: Span },
    ExpectedString { found: Seq<char>, span: Span },
    InvalidTag { found: Seq<char>, span: Span },
    TooManyVariants,
}

impl View for DeriveError {
    type V = Fault;

    open spec fn view(&self) -> Fault {
        match self {
            DeriveError::Generate(_) => Fault::Generate,
            DeriveError::Attribute(_) => Fault::Attribute,
            DeriveError::UnknownFieldAttribute { token } => Fault::UnknownFieldAttribute {
                token: *token,
            },
            DeriveError::ExpectedKeyValue { span } => Fault::ExpectedKeyValue { span: *span },
            DeriveError::ExpectedString { found, span } => Fault::ExpectedString {
                found: found@,
                span: *span,
            },
            DeriveError::InvalidTag { found, span } => Fault::InvalidTag {
                found: found@,
                span: *span,
            },
            DeriveError::TooManyVariants => Fault::TooManyVariants,
        }
    }
}

impl Fault {
    /// What to tell the user, but for the two kinds that carry an error of
    /// `virtue`, which speaks for itself.
    pub open spec fn message(self) -> Option<Seq<char>> {
        match self {
            Fault::Generate | Fault::Attribute => None,
            Fault::UnknownFieldAttribute { .. } => Some(
                "Unknown attribute, expected one of: \"with_serde\""@,
            ),
            Fault::ExpectedKeyValue { .. } => Some("Expected `key = val`"@),
            Fault::ExpectedString { found, .. } => Some("Expected string, found "@ + found),
            Fault::InvalidTag { found, .. } => Some(
                "Expected an integer of 32 bits, found "@ + found,
            ),
            Fault::TooManyVariants => Some("Expected no more variants than a tag has values"@),
        }
    }
}

impl DeriveError {
    /// What to tell the user, but for the two kinds that carry an error of
    /// `virtue`, which speaks for itself.
    pub fn message(&self) -> (text: Option<String>)
        ensures
            match self@.message() {
                Some(message) => text is Some && text.unwrap()@ == message,
                None => text is None,
            },
    {
        match self {
            DeriveError::Generate(_) => None,
            DeriveError::Attribute(_) => None,
            DeriveError::UnknownFieldAttribute { .. } => Some(
                String::from_str("Unknown attribute, expected one of: \"with_serde\""),
            ),
            DeriveError::ExpectedKeyValue { .. } => Some(String::from_str("Expected `key = val`")),
            DeriveError::ExpectedString { found, .. } => {
                let mut text = String::from_str("Expected string, found ");
                text.append(found.as_str());
                Some(text)
            },
            DeriveError::InvalidTag { found, .. } => {
                let mut text = String::from_str("Expected an integer of 32 bits, found ");
                text.append(found.as_str());
                Some(text)
            },
            DeriveError::TooManyVariants => Some(
                String::from_str("Expected no more variants than a tag has values"),
            ),
        }
    }
}

} // verus!
