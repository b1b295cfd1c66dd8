use bincode_derive::attribute::CrateNameAttribute;
use bincode_derive::derive_struct::DeriveStruct;
use bincode_derive::procedure::{Procedure, Receiver};
use bincode_derive::shape::{Adapter, Fields, ShapeDescription};
use bincode_derive::{synthesize, Capability};
use std::str::FromStr;
use virtue::prelude::{Delimiter, Generator, Parse, TokenStream, TokenTree};

fn flat(stream: TokenStream) -> String {
    let mut words: Vec<String> = Vec::new();
    for tree in stream {
        match tree {
            TokenTree::Group(group) => {
                let (open, close) = match group.delimiter() {
                    Delimiter::Parenthesis => ("(", ")"),
                    Delimiter::Brace => ("{", "}"),
                    Delimiter::Bracket => ("[", "]"),
                    Delimiter::None => ("", ""),
                };
                words.push(open.to_string());
                words.push(flat(group.stream()));
                words.push(close.to_string());
            }
            other => words.push(other.to_string()),
        }
    }
    words.retain(|word| !word.is_empty());
    words.join(" ")
}

fn code(text: &str) -> String {
    flat(TokenStream::from_str(text).unwrap())
}

fn generator_for(declaration: &str) -> Generator {
    let (generator, _, _) =
        Parse::new(TokenStream::from_str(declaration).unwrap()).unwrap().into_generator();
    generator
}

fn codec(name: &str) -> CrateNameAttribute {
    CrateNameAttribute { name: name.to_string() }
}

#[test]
fn header_of_encode() {
    let procedure = Procedure::encode(&codec("bincode"));
    assert_eq!(procedure.trait_path, "::bincode::Encode");
    assert!(procedure.lifetimes.is_empty());
    assert_eq!(procedure.name, "encode");
    assert_eq!(procedure.generic, "E");
    assert_eq!(procedure.generic_bound, "::bincode::enc::Encoder");
    assert_eq!(procedure.receiver, Receiver::RefSelf);
    assert_eq!(procedure.argument, "encoder");
    assert_eq!(procedure.argument_type, "&mut E");
    assert_eq!(procedure.return_type, "core::result::Result<(), bincode::error::EncodeError>");
}

#[test]
fn header_of_decode() {
    let procedure = Procedure::decode(&codec("codec"));
    assert_eq!(procedure.trait_path, "::codec::Decode");
    assert!(procedure.lifetimes.is_empty());
    assert_eq!(procedure.name, "decode");
    assert_eq!(procedure.generic, "D");
    assert_eq!(procedure.generic_bound, "::codec::de::Decoder");
    assert_eq!(procedure.receiver, Receiver::Absent);
    assert_eq!(procedure.argument, "decoder");
    assert_eq!(procedure.argument_type, "&mut D");
    assert_eq!(procedure.return_type, "core::result::Result<Self, codec::error::DecodeError>");
}

#[test]
fn header_of_borrow_decode() {
    let procedure = Procedure::borrow_decode(&codec("bincode"));
    assert_eq!(procedure.trait_path, "::bincode::BorrowDecode");
    assert_eq!(procedure.lifetimes, vec!["__de".to_string()]);
    assert_eq!(procedure.name, "borrow_decode");
    assert_eq!(procedure.generic, "D");
    assert_eq!(procedure.generic_bound, "::bincode::de::BorrowDecoder<'__de>");
    assert_eq!(procedure.receiver, Receiver::Absent);
    assert_eq!(procedure.argument, "decoder");
    assert_eq!(procedure.argument_type, "&mut D");
    assert_eq!(procedure.return_type, "core::result::Result<Self, bincode::error::DecodeError>");
}

#[test]
fn a_header_of_plain_names_lexes() {
    assert!(Procedure::encode(&codec("bincode")).check().is_ok());
    assert!(Procedure::decode(&codec("a::b")).check().is_ok());
    assert!(Procedure::borrow_decode(&codec("bincode")).check().is_ok());
}

#[test]
fn a_header_with_a_broken_crate_name_does_not_lex() {
    assert!(Procedure::encode(&codec("(")).check().is_err());
    assert!(Procedure::decode(&codec("\"")).check().is_err());
    assert!(Procedure::borrow_decode(&codec("}")).check().is_err());
}

#[test]
fn type_parameters_are_bound_by_the_trait() {
    let mut generator = generator_for("struct Foo<T, U> { a: T, b: U }");
    let derive = DeriveStruct { fields: Fields::Unit, crate_name: codec("bincode") };
    derive.generate_encode(&mut generator).unwrap();
    assert_eq!(
        flat(generator.finish().unwrap()),
        code(
            "impl<T, U> ::bincode::Encode for Foo<T, U>
                where T: ::bincode::Encode, U: ::bincode::Encode
            {
                fn encode<E: ::bincode::enc::Encoder>(&self, encoder: &mut E)
                    -> core::result::Result<(), bincode::error::EncodeError>
                {
                    Ok(())
                }
            }"
        )
    );
}

#[test]
fn bounds_come_after_the_bounds_of_the_declaration() {
    let mut generator = generator_for("struct Foo<T> where T: Clone { a: T }");
    let derive = DeriveStruct { fields: Fields::Unit, crate_name: codec("bincode") };
    derive.generate_decode(&mut generator).unwrap();
    assert_eq!(
        flat(generator.finish().unwrap()),
        code(
            "impl<T> ::bincode::Decode for Foo<T>
                where T: Clone, T: ::bincode::Decode
            {
                fn decode<D: ::bincode::de::Decoder>(decoder: &mut D)
                    -> core::result::Result<Self, bincode::error::DecodeError>
                {
                    Ok(Self {})
                }
            }"
        )
    );
}

#[test]
fn lifetimes_and_constants_are_not_bound() {
    let mut generator = generator_for("struct Foo<'a, T, const N: usize> { a: &'a [T; N] }");
    let derive = DeriveStruct { fields: Fields::Unit, crate_name: codec("bincode") };
    derive.generate_borrow_decode(&mut generator).unwrap();
    assert_eq!(
        flat(generator.finish().unwrap()),
        code(
            "impl<'__de, 'a, T, const N: usize> ::bincode::BorrowDecode<'__de> for Foo<'a, T, N>
                where T: ::bincode::BorrowDecode
            {
                fn borrow_decode<D: ::bincode::de::BorrowDecoder<'__de>>(decoder: &mut D)
                    -> core::result::Result<Self, bincode::error::DecodeError>
                {
                    Ok(Self {})
                }
            }"
        )
    );
}

#[test]
fn drivers_write_the_three_procedures() {
    let shape = ShapeDescription::Record(Fields::Tuple(vec![Adapter::Plain]));
    let mut generator = Generator::with_name("Foo");
    synthesize(Capability::Encode, &mut generator, shape.clone(), codec("bincode")).unwrap();
    synthesize(Capability::Decode, &mut generator, shape.clone(), codec("bincode")).unwrap();
    synthesize(Capability::BorrowDecode, &mut generator, shape, codec("bincode")).unwrap();
    assert_eq!(
        flat(generator.finish().unwrap()),
        code(
            "impl ::bincode::Encode for Foo {
                fn encode<E: ::bincode::enc::Encoder>(&self, encoder: &mut E)
                    -> core::result::Result<(), bincode::error::EncodeError>
                {
                    ::bincode::Encode::encode(&self.0, encoder)?;
                    Ok(())
                }
            }
            impl ::bincode::Decode for Foo {
                fn decode<D: ::bincode::de::Decoder>(decoder: &mut D)
                    -> core::result::Result<Self, bincode::error::DecodeError>
                {
                    Ok(Self { 0: bincode::Decode::decode(decoder)?, })
                }
            }
            impl<'__de> ::bincode::BorrowDecode<'__de> for Foo {
                fn borrow_decode<D: ::bincode::de::BorrowDecoder<'__de>>(decoder: &mut D)
                    -> core::result::Result<Self, bincode::error::DecodeError>
                {
                    Ok(Self { 0: bincode::BorrowDecode::borrow_decode(decoder)?, })
                }
            }"
        )
    );
}

#[test]
fn drivers_take_unions() {
    let shape = ShapeDescription::Union(Vec::new());
    let mut generator = Generator::with_name("Never");
    synthesize(Capability::Encode, &mut generator, shape.clone(), codec("bincode")).unwrap();
    let encode = flat(generator.finish().unwrap());
    assert!(encode.contains(&code("match self { _ => core::unreachable!() }")));
    let mut generator = Generator::with_name("Never");
    synthesize(Capability::Decode, &mut generator, shape.clone(), codec("bincode")).unwrap();
    let decode = flat(generator.finish().unwrap());
    assert!(decode.contains(&code("bincode::error::DecodeError::EmptyEnum")));
    let mut generator = Generator::with_name("Never");
    synthesize(Capability::BorrowDecode, &mut generator, shape, codec("bincode")).unwrap();
    let borrow_decode = flat(generator.finish().unwrap());
    assert!(borrow_decode.contains(&code("bincode::error::DecodeError::EmptyEnum")));
}

#[test]
fn the_same_description_gives_the_same_code() {
    let shape = ShapeDescription::Record(Fields::Tuple(vec![Adapter::Plain, Adapter::Interop]));
    let mut texts = Vec::new();
    for _ in 0..2 {
        let mut generator = Generator::with_name("Foo");
        synthesize(Capability::Encode, &mut generator, shape.clone(), codec("bincode")).unwrap();
        synthesize(Capability::Decode, &mut generator, shape.clone(), codec("bincode")).unwrap();
        synthesize(Capability::BorrowDecode, &mut generator, shape.clone(), codec("bincode")).unwrap();
        texts.push(generator.finish().unwrap().to_string());
    }
    assert_eq!(texts[0], texts[1]);
}
