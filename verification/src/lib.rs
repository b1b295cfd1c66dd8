//! Synthesis of the three procedures of a binary codec for a record or a
//! union: `encode`, `decode` and `borrow_decode`.
//!
//! A front end hands in the [`declaration::Declaration`] of a type. It is
//! turned into a [`shape::ShapeDescription`], and the code is written as
//! tokens into a `virtue` `Generator`, one `impl` block for each procedure.
//! The contracts say which tokens are written: see [`tokens::Token`] and
//! [`procedure::ImplBlock`]. What the procedures then do to a value is said
//! in [`wire`].

use vstd::prelude::*;
use virtue::generate::Generator;
use virtue::prelude::Group;

pub mod attribute;
pub mod declaration;
pub mod derive_enum;
pub mod derive_struct;
pub mod emission;
pub mod error;
pub mod procedure;
pub mod shape;
pub mod tag;
pub mod text;
pub mod tokens;
pub mod wire;

use crate::attribute::{crate_name_of_type, CrateNameAttribute};
use crate::declaration::Declaration;
use crate::derive_enum::{
    enum_decode_body, enum_decode_lexes, enum_encode_body, enum_encode_lexes, DeriveEnum,
};
use crate::derive_struct::{
    record_decode_body, record_decode_lexes, record_encode_body, record_encode_lexes, DeriveStruct,
};
use crate::emission::DecodeMode;
use crate::error::DeriveError;
use crate::procedure::{
    borrow_decode_procedure, decode_procedure, encode_procedure, generated, same_target,
    target_name, written, ProcedureView,
};
use crate::shape::{has_tags, ShapeDescription, ShapeView};
use crate::tokens::Token;

verus! {

/// The three procedures that can be asked for.
#[derive(Clone, Copy, Debug, PartialEq, Eq, Structural)]
pub enum Capability {
    Encode,
    Decode,
    BorrowDecode,
}

/// The body of `encode` for a shape.
pub open spec fn encode_body(root: Seq<char>, shape: ShapeView) -> Seq<Token> {
    match shape {
        ShapeView::Record(fields) => record_encode_body(root, fields),
        ShapeView::Union(variants) => enum_encode_body(root, variants),
    }
}

/// Whether the lexer accepts every piece of the body of `encode`.
pub open spec fn encode_lexes(root: Seq<char>, shape: ShapeView) -> bool {
    match shape {
        ShapeView::Record(fields) => record_encode_lexes(root, fields),
        ShapeView::Union(variants) => enum_encode_lexes(root, variants),
    }
}

/// The body of the decoder of the given mode for a shape. `target` is the
/// name of the type.
pub open spec fn decode_body(
    root: Seq<char>,
    target: Seq<char>,
    shape: ShapeView,
    mode: DecodeMode,
) -> Seq<Token> {
    match shape {
        ShapeView::Record(fields) => record_decode_body(root, fields, mode),
        ShapeView::Union(variants) => enum_decode_body(root, target, variants, mode),
    }
}

/// Whether the lexer accepts every piece of the body of the decoder.
pub open spec fn decode_lexes(root: Seq<char>, shape: ShapeView, mode: DecodeMode) -> bool {
    match shape {
        ShapeView::Record(fields) => record_decode_lexes(root, fields, mode),
        ShapeView::Union(variants) => enum_decode_lexes(root, variants, mode),
    }
}

impl Capability {
    /// The header of the procedure.
    pub open spec fn procedure(self, root: Seq<char>) -> ProcedureView {
        match self {
            Capability::Encode => encode_procedure(root),
            Capability::Decode => decode_procedure(root),
            Capability::BorrowDecode => borrow_decode_procedure(root),
        }
    }

    /// The body of the procedure for a shape. `target` is the name of the
    /// type.
    pub open spec fn body(self, root: Seq<char>, target: Seq<char>, shape: ShapeView) -> Seq<
        Token,
    > {
        match self {
            Capability::Encode => encode_body(root, shape),
            Capability::Decode => decode_body(root, target, shape, DecodeMode::Owning),
            Capability::BorrowDecode => decode_body(root, target, shape, DecodeMode::Borrowing),
        }
    }

    /// Whether the lexer accepts every piece of the body of the procedure.
    pub open spec fn body_lexes(self, root: Seq<char>, shape: ShapeView) -> bool {
        match self {
            Capability::Encode => encode_lexes(root, shape),
            Capability::Decode => decode_lexes(root, shape, DecodeMode::Owning),
            Capability::BorrowDecode => decode_lexes(root, shape, DecodeMode::Borrowing),
        }
    }
}

/// What the synthesis of one procedure does to a generator. It succeeds
/// where the lexer accepts every piece of the code, and then the generator
/// has written one more `impl` block: that of the procedure, made from the
/// crate's name, the description and the type that the generator writes
/// for, and from nothing else. Where it fails, on a piece of code, the
/// generator has written nothing.
pub open spec fn synthesized(
    capability: Capability,
    root: Seq<char>,
    shape: ShapeView,
    before: Generator,
    after: Generator,
    res: Result<(), DeriveError>,
) -> bool {
    written(
        before,
        after,
        res,
        capability.procedure(root),
        capability.body_lexes(root, shape),
        capability.body(root, target_name(before), shape),
    )
}

/// What a derive does to a generator, from the attributes and the
/// declaration of a type. The attributes on the type are read first, then
/// the declaration, and then the procedure is synthesized. Where the
/// attributes or the declaration are refused, the generator has written
/// nothing.
pub open spec fn derived(
    capability: Capability,
    attributes: Seq<Group>,
    declaration: Declaration,
    before: Generator,
    after: Generator,
    res: Result<(), DeriveError>,
) -> bool {
    match crate_name_of_type(attributes, attributes.len()) {
        Err(fault) => res matches Err(error) && error@ == fault && after == before,
        Ok(named) => match declaration.described() {
            Err(fault) => res matches Err(error) && error@ == fault && after == before,
            Ok(shape) => synthesized(
                capability,
                match named {
                    Some(name) => name,
                    None => "bincode"@,
                },
                shape,
                before,
                after,
                res,
            ),
        },
    }
}

/// Determinism. Two runs of the synthesis from the same crate name and the
/// same description, into generators that hold the same code for the same
/// type, both succeed or both fail, and leave generators that hold the same
/// code.
pub proof fn same_description_same_code(
    capability: Capability,
    root: Seq<char>,
    shape: ShapeView,
    first_before: Generator,
    first_after: Generator,
    first: Result<(), DeriveError>,
    second_before: Generator,
    second_after: Generator,
    second: Result<(), DeriveError>,
)
    requires
        synthesized(capability, root, shape, first_before, first_after, first),
        synthesized(capability, root, shape, second_before, second_after, second),
        generated(first_before) == generated(second_before),
        same_target(first_before, second_before),
    ensures
        first is Ok <==> second is Ok,
        generated(first_after) == generated(second_after),
        same_target(first_after, second_after),
{
}

/// Determinism, from the declaration on. Two derives from the same
/// attributes and the same declaration, into generators that hold the same
/// code for the same type, both succeed or fail alike, and leave generators
/// that hold the same code.
pub proof fn same_declaration_same_code(
    capability: Capability,
    attributes: Seq<Group>,
    declaration: Declaration,
    first_before: Generator,
    first_after: Generator,
    first: Result<(), DeriveError>,
    second_before: Generator,
    second_after: Generator,
    second: Result<(), DeriveError>,
)
    requires
        derived(capability, attributes, declaration, first_before, first_after, first),
        derived(capability, attributes, declaration, second_before, second_after, second),
        generated(first_before) == generated(second_before),
        same_target(first_before, second_before),
    ensures
        first is Ok <==> second is Ok,
        first matches Err(error) ==> second matches Err(other) && error@ == other@,
        generated(first_after) == generated(second_after),
        same_target(first_after, second_after),
{
}

/// Writes the asked procedure for the described type into the generator.
pub fn synthesize(
    capability: Capability,
    generator: &mut Generator,
    shape: ShapeDescription,
    crate_name: CrateNameAttribute,
) -> (res: Result<(), DeriveError>)
    requires
        has_tags(shape@),
    ensures
        synthesized(capability, crate_name@, shape@, *old(generator), *final(generator), res),
{
    match shape {
        ShapeDescription::Record(fields) => {
            let derive = DeriveStruct { fields, crate_name };
            match capability {
                Capability::Encode => derive.generate_encode(generator),
                Capability::Decode => derive.generate_decode(generator),
                Capability::BorrowDecode => derive.generate_borrow_decode(generator),
            }
        },
        ShapeDescription::Union(variants) => {
            let derive = DeriveEnum { variants, crate_name };
            match capability {
                Capability::Encode => derive.generate_encode(generator),
                Capability::Decode => derive.generate_decode(generator),
                Capability::BorrowDecode => derive.generate_borrow_decode(generator),
            }
        },
    }
}

/// Reads the attributes and the declaration of a type and writes the asked
/// procedure for it into the generator.
pub fn derive_declared(
    capability: Capability,
    generator: &mut Generator,
    attributes: &Vec<Group>,
    declaration: &Declaration,
) -> (res: Result<(), DeriveError>)
    ensures
        derived(capability, attributes@, *declaration, *old(generator), *final(generator), res),
{
    let crate_name = match CrateNameAttribute::of_type(attributes) {
        Ok(crate_name) => crate_name,
        Err(error) => {
            return Err(error);
        },
    };
    let shape = match declaration.describe() {
        Ok(shape) => shape,
        Err(error) => {
            return Err(error);
        },
    };
    synthesize(capability, generator, shape, crate_name)
}

/// The derive of `Encode`: writes `encode` for the declared type into the
/// generator.
pub fn derive_encode(
    generator: &mut Generator,
    attributes: &Vec<Group>,
    declaration: &Declaration,
) -> (res: Result<(), DeriveError>)
    ensures
        derived(
            Capability::Encode,
            attributes@,
            *declaration,
            *old(generator),
            *final(generator),
            res,
        ),
{
    derive_declared(Capability::Encode, generator, attributes, declaration)
}

/// The derive of `Decode`: writes `decode` for the declared type into the
/// generator.
pub fn derive_decode(
    generator: &mut Generator,
    attributes: &Vec<Group>,
    declaration: &Declaration,
) -> (res: Result<(), DeriveError>)
    ensures
        derived(
            Capability::Decode,
            attributes@,
            *declaration,
            *old(generator),
            *final(generator),
            res,
        ),
{
    derive_declared(Capability::Decode, generator, attributes, declaration)
}

/// The derive of `BorrowDecode`: writes `borrow_decode` for the declared type
/// into the generator.
pub fn derive_brrow_decode(
    generator: &mut Generator,
    attributes: &Vec<Group>,
    declaration: &Declaration,
) -> (res: Result<(), DeriveError>)
    ensures
        derived(
            Capability::BorrowDecode,
            attributes@,
            *declaration,
            *old(generator),
            *final(generator),
            res,
        ),
{
    derive_declared(Capability::BorrowDecode, generator, attributes, declaration)
}

} // verus!
