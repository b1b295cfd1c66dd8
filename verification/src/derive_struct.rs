//! The codec of a record: its fields one after the other, in declaration
//! order, with nothing before, between or after them.

use vstd::prelude::*;
use virtue::generate::{Generator, StreamBuilder};
use crate::attribute::CrateNameAttribute;
use crate::emission::{
    decode_member, decode_member_code, encode_member, encode_member_code, DecodeMode,
};
use crate::error::DeriveError;
use crate::procedure::{
    borrow_decode_procedure, decode_procedure, encode_procedure, written, Procedure, ProcedureView,
};
use crate::shape::{FieldView, Fields, FieldsView};
use crate::tokens::{
    group, ident_str, lexed, lexes, new_stream, push_parsed, stream_tokens, Delimiter, Token,
};

verus! {

/// A record and the crate of the codec that it is encoded with.
pub struct DeriveStruct {
    pub fields: Fields,
    pub crate_name: CrateNameAttribute,
}

/// The statements that encode the first `count` fields.
pub open spec fn record_encode_statements(root: Seq<char>, fields: Seq<FieldView>, count: nat) -> Seq<
    Token,
>
    decreases count,
{
    if count == 0 {
        Seq::empty()
    } else {
        record_encode_statements(root, fields, (count - 1) as nat) + lexed(
            encode_member(root, fields[count - 1].identity.member(), fields[count - 1].adapter),
        )
    }
}

/// The body of a record's `encode`: every field in declaration order, each
/// giving up at once where it fails, then `Ok(())`.
pub open spec fn record_encode_body(root: Seq<char>, fields: FieldsView) -> Seq<Token> {
    record_encode_statements(root, fields.fields, fields.fields.len()) + lexed("Ok(())"@)
}

/// Whether the lexer accepts every piece of the body of a record's `encode`.
pub open spec fn record_encode_lexes(root: Seq<char>, fields: FieldsView) -> bool {
    &&& forall|i: int|
        0 <= i < fields.fields.len() ==> lexes(
            encode_member(
                root,
                (#[trigger] fields.fields[i]).identity.member(),
                fields.fields[i].adapter,
            ),
        )
    &&& lexes("Ok(())"@)
}

/// The lines that decode the first `count` fields.
pub open spec fn record_decode_members(
    root: Seq<char>,
    fields: Seq<FieldView>,
    mode: DecodeMode,
    count: nat,
) -> Seq<Token>
    decreases count,
{
    if count == 0 {
        Seq::empty()
    } else {
        record_decode_members(root, fields, mode, (count - 1) as nat) + lexed(
            decode_member(
                root,
                fields[count - 1].identity.member(),
                fields[count - 1].adapter,
                mode,
            ),
        )
    }
}

/// The body of a record's decoder: `Ok(Self { .. })` with every field decoded
/// in declaration order, each giving up at once where it fails.
pub open spec fn record_decode_body(root: Seq<char>, fields: FieldsView, mode: DecodeMode) -> Seq<
    Token,
> {
    seq![
        Token::Ident("Ok"@),
        Token::Group(
            Delimiter::Parenthesis,
            seq![
                Token::Ident("Self"@),
                Token::Group(
                    Delimiter::Brace,
                    record_decode_members(root, fields.fields, mode, fields.fields.len()),
                ),
            ],
        ),
    ]
}

/// Whether the lexer accepts every piece of the body of a record's decoder.
pub open spec fn record_decode_lexes(root: Seq<char>, fields: FieldsView, mode: DecodeMode) -> bool {
    forall|i: int|
        0 <= i < fields.fields.len() ==> lexes(
            decode_member(
                root,
                (#[trigger] fields.fields[i]).identity.member(),
                fields.fields[i].adapter,
                mode,
            ),
        )
}

/// The header of the decoder of the given mode.
pub open spec fn decoder_procedure(root: Seq<char>, mode: DecodeMode) -> ProcedureView {
    match mode {
        DecodeMode::Owning => decode_procedure(root),
        DecodeMode::Borrowing => borrow_decode_procedure(root),
    }
}

impl DeriveStruct {
    /// Writes the body of `encode`.
    fn encode_body(&self, body: &mut StreamBuilder) -> (res: Result<(), virtue::Error>)
        ensures
            res is Ok <==> record_encode_lexes(self.crate_name@, self.fields@),
            res is Ok ==> stream_tokens(*final(body)) == stream_tokens(*old(body))
                + record_encode_body(self.crate_name@, self.fields@),
    {
        let ghost root = self.crate_name@;
        let ghost fields = self.fields@.fields;
        let count = self.fields.len();
        let mut index: usize = 0;
        while index < count
            invariant
                index <= count == fields.len(),
                root == self.crate_name@,
                fields == self.fields@.fields,
                forall|i: int|
                    0 <= i < index ==> lexes(
                        encode_member(
                            root,
                            (#[trigger] fields[i]).identity.member(),
                            fields[i].adapter,
                        ),
                    ),
                stream_tokens(*body) == stream_tokens(*old(body)) + record_encode_statements(
                    root,
                    fields,
                    index as nat,
                ),
            decreases count - index,
        {
            let member = self.fields.member(index).unwrap();
            let adapter = self.fields.adapter(index).unwrap();
            let code = encode_member_code(self.crate_name.name.as_str(), member.as_str(), adapter);
            match push_parsed(body, code.as_str()) {
                Ok(()) => {},
                Err(error) => {
                    return Err(error);
                },
            }
            index += 1;
        }
        push_parsed(body, "Ok(())")
    }

    /// Writes the body of the decoder of the given mode.
    fn decode_body(&self, body: &mut StreamBuilder, mode: DecodeMode) -> (res: Result<
        (),
        virtue::Error,
    >)
        ensures
            res is Ok <==> record_decode_lexes(self.crate_name@, self.fields@, mode),
            res is Ok ==> stream_tokens(*final(body)) == stream_tokens(*old(body))
                + record_decode_body(self.crate_name@, self.fields@, mode),
    {
        let ghost root = self.crate_name@;
        let ghost fields = self.fields@.fields;
        let mut members = new_stream();
        let count = self.fields.len();
        let mut index: usize = 0;
        while index < count
            invariant
                index <= count == fields.len(),
                root == self.crate_name@,
                fields == self.fields@.fields,
                forall|i: int|
                    0 <= i < index ==> lexes(
                        decode_member(
                            root,
                            (#[trigger] fields[i]).identity.member(),
                            fields[i].adapter,
                            mode,
                        ),
                    ),
                stream_tokens(members) == record_decode_members(root, fields, mode, index as nat),
            decreases count - index,
        {
            let member = self.fields.member(index).unwrap();
            let adapter = self.fields.adapter(index).unwrap();
            let code = decode_member_code(
                self.crate_name.name.as_str(),
                member.as_str(),
                adapter,
                mode,
            );
            match push_parsed(&mut members, code.as_str()) {
                Ok(()) => {},
                Err(error) => {
                    return Err(error);
                },
            }
            index += 1;
        }
        proof {
            reveal_strlit("Ok");
            reveal_strlit("Self");
        }
        let mut value = new_stream();
        ident_str(&mut value, "Self");
        group(&mut value, Delimiter::Brace, members);
        assert(stream_tokens(value) =~= seq![
            Token::Ident("Self"@),
            Token::Group(Delimiter::Brace, stream_tokens(members)),
        ]);
        ident_str(body, "Ok");
        group(body, Delimiter::Parenthesis, value);
        assert(stream_tokens(*body) =~= stream_tokens(*old(body)) + record_decode_body(
            root,
            self.fields@,
            mode,
        ));
        Ok(())
    }

    /// Writes the decoder of the given mode into the generator.
    fn generate_decoder(&self, generator: &mut Generator, mode: DecodeMode) -> (res: Result<
        (),
        DeriveError,
    >)
        ensures
            written(
                *old(generator),
                *final(generator),
                res,
                decoder_procedure(self.crate_name@, mode),
                record_decode_lexes(self.crate_name@, self.fields@, mode),
                record_decode_body(self.crate_name@, self.fields@, mode),
            ),
    {
        let procedure = match mode {
            DecodeMode::Owning => Procedure::decode(&self.crate_name),
            DecodeMode::Borrowing => Procedure::borrow_decode(&self.crate_name),
        };
        let mut body = new_stream();
        match self.decode_body(&mut body, mode) {
            Ok(()) => {},
            Err(error) => {
                return Err(DeriveError::Generate(error));
            },
        }
        procedure.write(generator, body)
    }

    /// Writes `encode` for the record into the generator: an `impl` block of
    /// the codec's `Encode` whose procedure encodes the fields in declaration
    /// order. It fails where the lexer rejects a piece of the code, which the
    /// crate's name or a field's name can bring about, and then writes
    /// nothing.
    pub fn generate_encode(self, generator: &mut Generator) -> (res: Result<(), DeriveError>)
        ensures
            written(
                *old(generator),
                *final(generator),
                res,
                encode_procedure(self.crate_name@),
                record_encode_lexes(self.crate_name@, self.fields@),
                record_encode_body(self.crate_name@, self.fields@),
            ),
    {
        let procedure = Procedure::encode(&self.crate_name);
        let mut body = new_stream();
        match self.encode_body(&mut body) {
            Ok(()) => {},
            Err(error) => {
                return Err(DeriveError::Generate(error));
            },
        }
        procedure.write(generator, body)
    }

    /// Writes `decode` for the record into the generator: an `impl` block of
    /// the codec's `Decode` whose procedure decodes the fields in declaration
    /// order and builds the record from them. It fails where the lexer
    /// rejects a piece of the code, and then writes nothing.
    pub fn generate_decode(self, generator: &mut Generator) -> (res: Result<(), DeriveError>)
        ensures
            written(
                *old(generator),
                *final(generator),
                res,
                decode_procedure(self.crate_name@),
                record_decode_lexes(self.crate_name@, self.fields@, DecodeMode::Owning),
                record_decode_body(self.crate_name@, self.fields@, DecodeMode::Owning),
            ),
    {
        self.generate_decoder(generator, DecodeMode::Owning)
    }

    /// Writes `borrow_decode` for the record into the generator. The code is
    /// that of `decode` but for the names of the trait, of its function and of
    /// the adapter. It fails where the lexer rejects a piece of the code, and
    /// then writes nothing.
    pub fn generate_borrow_decode(self, generator: &mut Generator) -> (res: Result<
        (),
        DeriveError,
    >)
        ensures
            written(
                *old(generator),
                *final(generator),
                res,
                borrow_decode_procedure(self.crate_name@),
                record_decode_lexes(self.crate_name@, self.fields@, DecodeMode::Borrowing),
                record_decode_body(self.crate_name@, self.fields@, DecodeMode::Borrowing),
            ),
    {
        self.generate_decoder(generator, DecodeMode::Borrowing)
    }
}

} // verus!
