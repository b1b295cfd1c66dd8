//! The code for one field. Plain and adapted fields differ in the call that
//! is written for them and in nothing else, and the encoder and both decoders
//! go by the same adapter of the field.

use vstd::prelude::*;
use vstd::string::StringExecFns;
use crate::shape::Adapter;

verus! {

/// Which of the two decoders is written.
#[derive(Clone, Copy, Debug, PartialEq, Eq, Structural)]
pub enum DecodeMode {
    /// The decoder whose result owns all its data.
    Owning,
    /// The decoder whose result may borrow from the input.
    Borrowing,
}

impl DecodeMode {
    /// The trait that a field is decoded through.
    pub open spec fn trait_name(self) -> Seq<char> {
        match self {
            DecodeMode::Owning => "Decode"@,
            DecodeMode::Borrowing => "BorrowDecode"@,
        }
    }

    /// The function of that trait.
    pub open spec fn entry_point(self) -> Seq<char> {
        match self {
            DecodeMode::Owning => "decode"@,
            DecodeMode::Borrowing => "borrow_decode"@,
        }
    }

    /// The adapter type that an adapted field is decoded as.
    pub open spec fn adapter_name(self) -> Seq<char> {
        match self {
            DecodeMode::Owning => "Compat"@,
            DecodeMode::Borrowing => "BorrowCompat"@,
        }
    }

    /// The trait that a field is decoded through.
    pub fn trait_text(self) -> (text: &'static str)
        ensures
            text@ == self.trait_name(),
    {
        match self {
            DecodeMode::Owning => "Decode",
            DecodeMode::Borrowing => "BorrowDecode",
        }
    }

    /// The function of that trait.
    pub fn entry_point_text(self) -> (text: &'static str)
        ensures
            text@ == self.entry_point(),
    {
        match self {
            DecodeMode::Owning => "decode",
            DecodeMode::Borrowing => "borrow_decode",
        }
    }

    /// The adapter type that an adapted field is decoded as.
    pub fn adapter_text(self) -> (text: &'static str)
        ensures
            text@ == self.adapter_name(),
    {
        match self {
            DecodeMode::Owning => "Compat",
            DecodeMode::Borrowing => "BorrowCompat",
        }
    }
}

/// The statement that encodes the member `member` of `self`, in the encoder
/// of a record.
pub open spec fn encode_member(root: Seq<char>, member: Seq<char>, adapter: Adapter) -> Seq<char> {
    match adapter {
        Adapter::Plain => "::"@ + root + "::Encode::encode(&self."@ + member + ", encoder)?;"@,
        Adapter::Interop => "::"@ + root + "::Encode::encode(&"@ + root
            + "::serde::Compat(&self."@ + member + "), encoder)?;"@,
    }
}

/// The statement that encodes the variable `binding`, in the arm of a
/// variant whose pattern bound the field to it.
pub open spec fn encode_binding(root: Seq<char>, binding: Seq<char>, adapter: Adapter) -> Seq<
    char,
> {
    match adapter {
        Adapter::Plain => root + "::Encode::encode("@ + binding + ", encoder)?;"@,
        Adapter::Interop => root + "::Encode::encode(&"@ + root + "::serde::Compat("@ + binding
            + "), encoder)?;"@,
    }
}

/// The line `member: value,` that decodes one member of a record. An adapted
/// field is decoded as the adapter and taken out of it.
pub open spec fn decode_member(
    root: Seq<char>,
    member: Seq<char>,
    adapter: Adapter,
    mode: DecodeMode,
) -> Seq<char> {
    match adapter {
        Adapter::Plain => member + ": "@ + root + "::"@ + mode.trait_name() + "::"@
            + mode.entry_point() + "(decoder)?,"@,
        Adapter::Interop => member + ": (<"@ + root + "::serde::"@ + mode.adapter_name()
            + "<_> as "@ + root + "::"@ + mode.trait_name() + ">::"@ + mode.entry_point()
            + "(decoder)?).0,"@,
    }
}

/// The value and the comma that follow `member:` where a field of a variant
/// is decoded.
pub open spec fn decode_value(root: Seq<char>, adapter: Adapter, mode: DecodeMode) -> Seq<char> {
    match adapter {
        Adapter::Plain => root + "::"@ + mode.trait_name() + "::"@ + mode.entry_point()
            + "(decoder)?,"@,
        Adapter::Interop => "<"@ + root + "::serde::"@ + mode.adapter_name() + "<_> as "@ + root
            + "::"@ + mode.trait_name() + ">::"@ + mode.entry_point() + "(decoder)?.0,"@,
    }
}

/// Writes the statement that encodes a member of a record.
pub fn encode_member_code(root: &str, member: &str, adapter: Adapter) -> (code: String)
    ensures
        code@ == encode_member(root@, member@, adapter),
{
    let mut code = String::from_str("::");
    code.append(root);
    match adapter {
        Adapter::Plain => {
            code.append("::Encode::encode(&self.");
            code.append(member);
            code.append(", encoder)?;");
        },
        Adapter::Interop => {
            code.append("::Encode::encode(&");
            code.append(root);
            code.append("::serde::Compat(&self.");
            code.append(member);
            code.append("), encoder)?;");
        },
    }
    code
}

/// Writes the statement that encodes a bound field of a variant.
pub fn encode_binding_code(root: &str, binding: &str, adapter: Adapter) -> (code: String)
    ensures
        code@ == encode_binding(root@, binding@, adapter),
{
    let mut code = String::from_str(root);
    match adapter {
        Adapter::Plain => {
            code.append("::Encode::encode(");
            code.append(binding);
            code.append(", encoder)?;");
        },
        Adapter::Interop => {
            code.append("::Encode::encode(&");
            code.append(root);
            code.append("::serde::Compat(");
            code.append(binding);
            code.append("), encoder)?;");
        },
    }
    code
}

/// Writes the line that decodes a member of a record.
pub fn decode_member_code(root: &str, member: &str, adapter: Adapter, mode: DecodeMode) -> (code:
    String)
    ensures
        code@ == decode_member(root@, member@, adapter, mode),
{
    let mut code = String::from_str(member);
    match adapter {
        Adapter::Plain => {
            code.append(": ");
            code.append(root);
            code.append("::");
            code.append(mode.trait_text());
            code.append("::");
            code.append(mode.entry_point_text());
            code.append("(decoder)?,");
        },
        Adapter::Interop => {
            code.append(": (<");
            code.append(root);
            code.append("::serde::");
            code.append(mode.adapter_text());
            code.append("<_> as ");
            code.append(root);
            code.append("::");
            code.append(mode.trait_text());
            code.append(">::");
            code.append(mode.entry_point_text());
            code.append("(decoder)?).0,");
        },
    }
    code
}

/// Writes the value that decodes a field of a variant.
pub fn decode_value_code(root: &str, adapter: Adapter, mode: DecodeMode) -> (code: String)
    ensures
        code@ == decode_value(root@, adapter, mode),
{
    match adapter {
        Adapter::Plain => {
            let mut code = String::from_str(root);
            code.append("::");
            code.append(mode.trait_text());
            code.append("::");
            code.append(mode.entry_point_text());
            code.append("(decoder)?,");
            code
        },
        Adapter::Interop => {
            let mut code = String::from_str("<");
            code.append(root);
            code.append("::serde::");
            code.append(mode.adapter_text());
            code.append("<_> as ");
            code.append(root);
            code.append("::");
            code.append(mode.trait_text());
            code.append(">::");
            code.append(mode.entry_point_text());
            code.append("(decoder)?.0,");
            code
        },
    }
}

} // verus!
