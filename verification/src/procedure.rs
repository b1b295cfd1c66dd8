//! The three procedures that are synthesized for a type, and the `impl` block
//! that `virtue`'s `Generator` writes for each.

use vstd::prelude::*;
use vstd::string::StringExecFns;
use virtue::generate::{FnSelfArg, Generator, StreamBuilder};
use virtue::parse::{Generic, GenericConstraints, Generics, SimpleGeneric};
use crate::attribute::{absolute_path, CrateNameAttribute};
use crate::error::DeriveError;
use crate::tokens::{check_lexes, is_word, lexed, lexes, stream_tokens, Spacing, Token};

verus! {

/// What a procedure takes as its receiver.
#[derive(Clone, Copy, Debug, PartialEq, Eq, Structural)]
pub enum Receiver {
    /// Nothing: an associated function.
    Absent,
    /// `&self`.
    RefSelf,
}

/// The header of a procedure and of the `impl` block around it, as contracts
/// speak of it.
pub struct ProcedureView {
    pub trait_path: Seq<char>,
    pub lifetimes: Seq<Seq<char>>,
    pub name: Seq<char>,
    pub generic: Seq<char>,
    pub generic_bound: Seq<char>,
    pub receiver: Receiver,
    pub argument: Seq<char>,
    pub argument_type: Seq<char>,
    pub return_type: Seq<char>,
}

/// The header of a procedure and of the `impl` block around it.
#[derive(Clone, Debug, PartialEq, Eq)]
pub struct Procedure {
    /// The trait that is implemented. Every type parameter of the target is
    /// bound by it too.
    pub trait_path: String,
    /// Lifetimes that the `impl` block adds and hands to the trait.
    pub lifetimes: Vec<String>,
    /// The name of the procedure.
    pub name: String,
    /// The procedure's own type parameter,
    pub generic: String,
    /// and what bounds it.
    pub generic_bound: String,
    pub receiver: Receiver,
    /// The one argument besides the receiver,
    pub argument: String,
    /// and its type.
    pub argument_type: String,
    pub return_type: String,
}

/// The texts of a list of strings, in the same order.
pub open spec fn texts(strings: Seq<String>) -> Seq<Seq<char>> {
    Seq::new(strings.len(), |i: int| strings[i]@)
}

impl View for Procedure {
    type V = ProcedureView;

    open spec fn view(&self) -> ProcedureView {
        ProcedureView {
            trait_path: self.trait_path@,
            lifetimes: texts(self.lifetimes@),
            name: self.name@,
            generic: self.generic@,
            generic_bound: self.generic_bound@,
            receiver: self.receiver,
            argument: self.argument@,
            argument_type: self.argument_type@,
            return_type: self.return_type@,
        }
    }
}

impl ProcedureView {
    /// The names in the header are words, so that each can become one
    /// identifier.
    pub open spec fn well_formed(self) -> bool {
        &&& is_word(self.name)
        &&& is_word(self.generic)
        &&& forall|i: int| 0 <= i < self.lifetimes.len() ==> is_word(#[trigger] self.lifetimes[i])
    }

    /// Every piece of the header that is handed over as code is accepted by
    /// the lexer.
    pub open spec fn lexes(self) -> bool {
        &&& lexes(self.trait_path)
        &&& lexes(self.generic_bound)
        &&& lexes(self.argument)
        &&& lexes(self.argument_type)
        &&& lexes(self.return_type)
    }
}

/// `encode(&self, encoder: &mut E)` of the codec `root`, for any encoder `E`.
pub open spec fn encode_procedure(root: Seq<char>) -> ProcedureView {
    ProcedureView {
        trait_path: absolute_path(root, "Encode"@),
        lifetimes: Seq::empty(),
        name: "encode"@,
        generic: "E"@,
        generic_bound: absolute_path(root, "enc::Encoder"@),
        receiver: Receiver::RefSelf,
        argument: "encoder"@,
        argument_type: "&mut E"@,
        return_type: "core::result::Result<(), "@ + root + "::error::EncodeError>"@,
    }
}

/// `decode(decoder: &mut D)` of the codec `root`, for any decoder `D`.
pub open spec fn decode_procedure(root: Seq<char>) -> ProcedureView {
    ProcedureView {
        trait_path: absolute_path(root, "Decode"@),
        lifetimes: Seq::empty(),
        name: "decode"@,
        generic: "D"@,
        generic_bound: absolute_path(root, "de::Decoder"@),
        receiver: Receiver::Absent,
        argument: "decoder"@,
        argument_type: "&mut D"@,
        return_type: "core::result::Result<Self, "@ + root + "::error::DecodeError>"@,
    }
}

/// `borrow_decode(decoder: &mut D)` of the codec `root`, for any decoder `D`
/// that lends out its input for the lifetime `'__de`.
pub open spec fn borrow_decode_procedure(root: Seq<char>) -> ProcedureView {
    ProcedureView {
        trait_path: absolute_path(root, "BorrowDecode"@),
        lifetimes: seq!["__de"@],
        name: "borrow_decode"@,
        generic: "D"@,
        generic_bound: absolute_path(root, "de::BorrowDecoder<'__de>"@),
        receiver: Receiver::Absent,
        argument: "decoder"@,
        argument_type: "&mut D"@,
        return_type: "core::result::Result<Self, "@ + root + "::error::DecodeError>"@,
    }
}

/// One `impl` block written by a generator: the header it was asked for,
/// the tokens of its `where` clause after the word `where`, and the tokens
/// of the procedure's body.
pub struct ImplBlock {
    pub procedure: ProcedureView,
    pub where_clause: Seq<Token>,
    pub body: Seq<Token>,
}

/// `virtue::generate::Generator`: the code written so far for one type.
#[verifier::external_type_specification]
#[verifier::external_body]
pub struct ExGenerator(Generator);

/// `virtue::parse::Generics`: the generics that a type declares.
#[verifier::external_type_specification]
#[verifier::external_body]
pub struct ExGenerics(Generics);

/// `virtue::parse::Generic`: one of them, of any kind.
#[verifier::external_type_specification]
#[verifier::external_body]
pub struct ExGeneric(Generic);

/// `virtue::parse::GenericConstraints`: the `where` clause of an `impl`
/// block.
#[verifier::external_type_specification]
#[verifier::external_body]
pub struct ExGenericConstraints(GenericConstraints);

/// `virtue::parse::SimpleGeneric`: a type parameter.
#[verifier::external_type_specification]
#[verifier::external_body]
pub struct ExSimpleGeneric(SimpleGeneric);

/// The `impl` blocks that a generator has written, first to last.
pub uninterp spec fn generated(generator: Generator) -> Seq<ImplBlock>;

/// The name of the type that a generator writes code for.
pub uninterp spec fn target_name(generator: Generator) -> Seq<char>;

/// The names of the type parameters that the type of a generator declares,
/// in declaration order. Lifetimes and constants are no type parameters.
pub uninterp spec fn target_parameters(generator: Generator) -> Seq<Seq<char>>;

/// The tokens of the `where` clause that the type of a generator declares,
/// after the word `where`.
pub uninterp spec fn declared_where(generator: Generator) -> Seq<Token>;

/// The names of the type parameters among the generics of a type, in
/// declaration order. Lifetimes and constants are no type parameters.
pub uninterp spec fn type_parameters(generics: Generics) -> Seq<Seq<char>>;

/// The name of a type parameter.
pub uninterp spec fn parameter_name(parameter: SimpleGeneric) -> Seq<char>;

/// The tokens of a `where` clause, after the word `where`.
pub uninterp spec fn where_tokens(constraints: GenericConstraints) -> Seq<Token>;

/// A `where` clause with one more bound: a comma where the clause does not
/// end in one, then `parameter: bound`.
pub open spec fn with_bound(clause: Seq<Token>, parameter: Seq<char>, bound: Seq<Token>) -> Seq<
    Token,
> {
    let comma = if clause.len() > 0 && !(clause.last() matches Token::Punct(',', _)) {
        seq![Token::Punct(',', Spacing::Alone)]
    } else {
        Seq::empty()
    };
    clause + comma + seq![Token::Ident(parameter), Token::Punct(':', Spacing::Alone)] + bound
}

/// A `where` clause after the first `count` of `parameters` were bound by
/// `bound`, one after the other.
pub open spec fn with_bounds(
    clause: Seq<Token>,
    parameters: Seq<Seq<char>>,
    bound: Seq<Token>,
    count: nat,
) -> Seq<Token>
    decreases count,
{
    if count == 0 {
        clause
    } else {
        with_bound(
            with_bounds(clause, parameters, bound, (count - 1) as nat),
            parameters[count - 1],
            bound,
        )
    }
}

/// The `impl` block of a procedure for the type of a generator. Its `where`
/// clause is that of the type's declaration, and after it every type
/// parameter of the type is bound by the procedure's trait, so that a field
/// of a parameter's type has the procedure too.
pub open spec fn impl_block(generator: Generator, procedure: ProcedureView, body: Seq<Token>) -> ImplBlock {
    ImplBlock {
        procedure,
        where_clause: with_bounds(
            declared_where(generator),
            target_parameters(generator),
            lexed(procedure.trait_path),
            target_parameters(generator).len(),
        ),
        body,
    }
}

/// Whether two generators write for the same type: one of the same name,
/// type parameters and `where` clause.
pub open spec fn same_target(before: Generator, after: Generator) -> bool {
    &&& target_name(after) == target_name(before)
    &&& target_parameters(after) == target_parameters(before)
    &&& declared_where(after) == declared_where(before)
}

/// What writing a procedure does to a generator. It succeeds where the lexer
/// accepts every piece of the header and of the body, and the generator has
/// then written one more `impl` block: that of the procedure, with the given
/// body. Where it fails, on a piece of code, the generator has written
/// nothing.
pub open spec fn written(
    before: Generator,
    after: Generator,
    res: Result<(), DeriveError>,
    procedure: ProcedureView,
    body_lexes: bool,
    body: Seq<Token>,
) -> bool {
    &&& res is Ok <==> procedure.lexes() && body_lexes
    &&& res is Ok ==> generated(after) == generated(before).push(
        impl_block(before, procedure, body),
    )
    &&& res matches Err(error) ==> error@ is Generate && generated(after) == generated(before)
    &&& same_target(before, after)
}

/// `Generator::target_name`: the name of the type that the code is for.
#[verifier::external_body]
pub(crate) fn target(generator: &Generator) -> (name: String)
    ensures
        name@ == target_name(*generator),
{
    generator.target_name().to_string()
}

/// `Generics::iter_generics`: the type parameters, in declaration order.
#[verifier::external_body]
pub(crate) fn simple_generics(generics: &Generics) -> (parameters: Vec<&SimpleGeneric>)
    ensures
        parameters@.len() == type_parameters(*generics).len(),
        forall|i: int|
            0 <= i < parameters@.len() ==> parameter_name(*#[trigger] parameters@[i])
                == type_parameters(*generics)[i],
{
    generics.iter_generics().collect()
}

/// `GenericConstraints::push_constraint`: lexes `bound` and adds
/// `parameter: bound` to the clause, after a comma where the clause needs
/// one. Where the lexer rejects `bound` the clause is left as it was.
#[verifier::external_body]
pub(crate) fn push_constraint(
    constraints: &mut GenericConstraints,
    parameter: &SimpleGeneric,
    bound: &str,
) -> (res: Result<(), virtue::Error>)
    ensures
        res is Ok <==> lexes(bound@),
        res is Ok ==> where_tokens(*final(constraints)) == with_bound(
            where_tokens(*old(constraints)),
            parameter_name(*parameter),
            lexed(bound@),
        ),
        res is Err ==> where_tokens(*final(constraints)) == where_tokens(*old(constraints)),
{
    constraints.push_constraint(parameter, bound)
}

/// The chain from `Generator::impl_for_with_lifetimes` to `FnBuilder::body`:
/// writes one `impl` block of the procedure's trait for the target, with the
/// procedure in it. `ImplFor::modify_generic_constraints` hands the generics
/// and a copy of the `where` clause of the target to
/// [`Procedure::constrain`], whose contract says what becomes of the clause.
/// The chain fails only where the lexer rejects a piece of the header, and
/// panics where a name is no identifier or the trait path does not lex:
/// both are kept out.
#[verifier::external_body]
pub(crate) fn implement(generator: &mut Generator, procedure: &Procedure, body: StreamBuilder) -> (res:
    Result<(), virtue::Error>)
    requires
        procedure@.well_formed(),
        procedure@.lexes(),
    ensures
        res is Ok,
        generated(*final(generator)) == generated(*old(generator)).push(
            impl_block(*old(generator), procedure@, stream_tokens(body)),
        ),
        target_name(*final(generator)) == target_name(*old(generator)),
        target_parameters(*final(generator)) == target_parameters(*old(generator)),
        declared_where(*final(generator)) == declared_where(*old(generator)),
{
    let receiver = match procedure.receiver {
        Receiver::Absent => FnSelfArg::None,
        Receiver::RefSelf => FnSelfArg::RefSelf,
    };
    let mut block = generator.impl_for_with_lifetimes(procedure.trait_path.as_str(), procedure.lifetimes.iter());
    block.modify_generic_constraints(|generics, constraints| procedure.constrain(generics, constraints))?
        .generate_fn(procedure.name.as_str())
        .with_generic_deps(procedure.generic.as_str(), [procedure.generic_bound.as_str()])
        .with_self_arg(receiver)
        .with_arg(procedure.argument.as_str(), procedure.argument_type.as_str())
        .with_return_type(procedure.return_type.as_str())
        .body(|content| { *content = body; Ok(()) })
}

impl Procedure {
    /// The header of `encode`.
    pub fn encode(crate_name: &CrateNameAttribute) -> (procedure: Procedure)
        ensures
            procedure@ == encode_procedure(crate_name@),
            procedure@.well_formed(),
    {
        let mut return_type = String::from_str("core::result::Result<(), ");
        return_type.append(crate_name.name.as_str());
        return_type.append("::error::EncodeError>");
        let procedure = Procedure {
            trait_path: crate_name.ty("Encode"),
            lifetimes: Vec::new(),
            name: String::from_str("encode"),
            generic: String::from_str("E"),
            generic_bound: crate_name.ty("enc::Encoder"),
            receiver: Receiver::RefSelf,
            argument: String::from_str("encoder"),
            argument_type: String::from_str("&mut E"),
            return_type,
        };
        proof {
            reveal_strlit("encode");
            reveal_strlit("E");
            assert(procedure@.lifetimes =~= Seq::empty());
        }
        procedure
    }

    /// The header of `decode`.
    pub fn decode(crate_name: &CrateNameAttribute) -> (procedure: Procedure)
        ensures
            procedure@ == decode_procedure(crate_name@),
            procedure@.well_formed(),
    {
        let mut return_type = String::from_str("core::result::Result<Self, ");
        return_type.append(crate_name.name.as_str());
        return_type.append("::error::DecodeError>");
        let procedure = Procedure {
            trait_path: crate_name.ty("Decode"),
            lifetimes: Vec::new(),
            name: String::from_str("decode"),
            generic: String::from_str("D"),
            generic_bound: crate_name.ty("de::Decoder"),
            receiver: Receiver::Absent,
            argument: String::from_str("decoder"),
            argument_type: String::from_str("&mut D"),
            return_type,
        };
        proof {
            reveal_strlit("decode");
            reveal_strlit("D");
            assert(procedure@.lifetimes =~= Seq::empty());
        }
        procedure
    }

    /// The header of `borrow_decode`.
    pub fn borrow_decode(crate_name: &CrateNameAttribute) -> (procedure: Procedure)
        ensures
            procedure@ == borrow_decode_procedure(crate_name@),
            procedure@.well_formed(),
    {
        let mut return_type = String::from_str("core::result::Result<Self, ");
        return_type.append(crate_name.name.as_str());
        return_type.append("::error::DecodeError>");
        let mut lifetimes: Vec<String> = Vec::new();
        lifetimes.push(String::from_str("__de"));
        let procedure = Procedure {
            trait_path: crate_name.ty("BorrowDecode"),
            lifetimes,
            name: String::from_str("borrow_decode"),
            generic: String::from_str("D"),
            generic_bound: crate_name.ty("de::BorrowDecoder<'__de>"),
            receiver: Receiver::Absent,
            argument: String::from_str("decoder"),
            argument_type: String::from_str("&mut D"),
            return_type,
        };
        proof {
            reveal_strlit("borrow_decode");
            reveal_strlit("D");
            reveal_strlit("__de");
            assert(procedure@.lifetimes =~= seq!["__de"@]);
        }
        procedure
    }

    /// Writes the procedure with the given body into the generator, where
    /// the lexer accepts every piece of the header.
    pub(crate) fn write(&self, generator: &mut Generator, body: StreamBuilder) -> (res: Result<
        (),
        DeriveError,
    >)
        requires
            self@.well_formed(),
        ensures
            written(*old(generator), *final(generator), res, self@, true, stream_tokens(body)),
    {
        match self.check() {
            Ok(()) => {},
            Err(error) => {
                return Err(DeriveError::Generate(error));
            },
        }
        match implement(generator, self, body) {
            Ok(()) => Ok(()),
            Err(error) => Err(DeriveError::Generate(error)),
        }
    }

    /// Tries every piece of the header on the lexer.
    pub fn check(&self) -> (res: Result<(), virtue::Error>)
        ensures
            res is Ok <==> self@.lexes(),
    {
        match check_lexes(self.trait_path.as_str()) {
            Ok(()) => {},
            Err(error) => {
                return Err(error);
            },
        }
        match check_lexes(self.generic_bound.as_str()) {
            Ok(()) => {},
            Err(error) => {
                return Err(error);
            },
        }
        match check_lexes(self.argument.as_str()) {
            Ok(()) => {},
            Err(error) => {
                return Err(error);
            },
        }
        match check_lexes(self.argument_type.as_str()) {
            Ok(()) => {},
            Err(error) => {
                return Err(error);
            },
        }
        check_lexes(self.return_type.as_str())
    }

    /// Binds every type parameter of the target by the procedure's trait, so
    /// that a field of a parameter's type has the procedure too. It fails
    /// where there is a parameter and the lexer rejects the trait's path, and
    /// then leaves the clause as it was.
    pub fn constrain(&self, generics: &Generics, constraints: &mut GenericConstraints) -> (res:
        Result<(), virtue::Error>)
        ensures
            res is Ok <==> type_parameters(*generics).len() == 0 || lexes(self@.trait_path),
            res is Ok ==> where_tokens(*final(constraints)) == with_bounds(
                where_tokens(*old(constraints)),
                type_parameters(*generics),
                lexed(self@.trait_path),
                type_parameters(*generics).len(),
            ),
            res is Err ==> where_tokens(*final(constraints)) == where_tokens(*old(constraints)),
    {
        let parameters = simple_generics(generics);
        let mut bound: usize = 0;
        while bound < parameters.len()
            invariant
                bound <= parameters@.len() == type_parameters(*generics).len(),
                forall|i: int|
                    0 <= i < parameters@.len() ==> parameter_name(*#[trigger] parameters@[i])
                        == type_parameters(*generics)[i],
                bound > 0 ==> lexes(self@.trait_path),
                where_tokens(*constraints) == with_bounds(
                    where_tokens(*old(constraints)),
                    type_parameters(*generics),
                    lexed(self@.trait_path),
                    bound as nat,
                ),
            decreases parameters@.len() - bound,
        {
            match push_constraint(constraints, parameters[bound], self.trait_path.as_str()) {
                Ok(()) => {},
                Err(error) => {
                    return Err(error);
                },
            }
            bound += 1;
        }
        Ok(())
    }
}

} // verus!
