use bincode_derive::attribute::CrateNameAttribute;
use bincode_derive::derive_struct::DeriveStruct;
use bincode_derive::error::DeriveError;
use bincode_derive::shape::{Adapter, Fields, NamedField};
use std::str::FromStr;
use virtue::prelude::{Delimiter, Generator, TokenStream, TokenTree};

fn flat(stream: TokenStream) -> String {
    let mut words: Vec<String> = Vec::new();
    for tree in stream {
        match tree {
            TokenTree::Group(group) => {
                let (open, close) = match group.delimiter() {
                    Delimiter::Parenthesis => ("(", ")"),
                    Delimiter::Brace => ("{", "}"),
                    Delimiter::Bracket => ("[", "]"),
                    Delimiter::None => ("", ""),
                };
                words.push(open.to_string());
                words.push(flat(group.stream()));
                words.push(close.to_string());
            }
            other => words.push(other.to_string()),
        }
    }
    words.retain(|word| !word.is_empty());
    words.join(" ")
}

fn code(text: &str) -> String {
    flat(TokenStream::from_str(text).unwrap())
}

fn named(name: &str, adapter: Adapter) -> NamedField {
    NamedField { name: name.to_string(), adapter }
}

fn record(fields: Fields, crate_name: &str) -> DeriveStruct {
    DeriveStruct { fields, crate_name: CrateNameAttribute { name: crate_name.to_string() } }
}

#[test]
fn struct_encode_named_fields() {
    let mut generator = Generator::with_name("Foo");
    let derive = record(
        Fields::Struct(vec![named("a", Adapter::Plain), named("b", Adapter::Interop)]),
        "bincode",
    );
    derive.generate_encode(&mut generator).unwrap();
    assert_eq!(
        flat(generator.finish().unwrap()),
        code(
            "impl ::bincode::Encode for Foo {
                fn encode<E: ::bincode::enc::Encoder>(&self, encoder: &mut E)
                    -> core::result::Result<(), bincode::error::EncodeError>
                {
                    ::bincode::Encode::encode(&self.a, encoder)?;
                    ::bincode::Encode::encode(&bincode::serde::Compat(&self.b), encoder)?;
                    Ok(())
                }
            }"
        )
    );
}

#[test]
fn struct_encode_tuple_fields() {
    let mut generator = Generator::with_name("Pair");
    let derive = record(Fields::Tuple(vec![Adapter::Interop, Adapter::Plain]), "codec");
    derive.generate_encode(&mut generator).unwrap();
    assert_eq!(
        flat(generator.finish().unwrap()),
        code(
            "impl ::codec::Encode for Pair {
                fn encode<E: ::codec::enc::Encoder>(&self, encoder: &mut E)
                    -> core::result::Result<(), codec::error::EncodeError>
                {
                    ::codec::Encode::encode(&codec::serde::Compat(&self.0), encoder)?;
                    ::codec::Encode::encode(&self.1, encoder)?;
                    Ok(())
                }
            }"
        )
    );
}

#[test]
fn struct_encode_without_fields() {
    let mut generator = Generator::with_name("Nothing");
    record(Fields::Unit, "bincode").generate_encode(&mut generator).unwrap();
    assert_eq!(
        flat(generator.finish().unwrap()),
        code(
            "impl ::bincode::Encode for Nothing {
                fn encode<E: ::bincode::enc::Encoder>(&self, encoder: &mut E)
                    -> core::result::Result<(), bincode::error::EncodeError>
                {
                    Ok(())
                }
            }"
        )
    );
}

#[test]
fn struct_decode_tuple_fields() {
    let mut generator = Generator::with_name("Foo");
    let derive = record(Fields::Tuple(vec![Adapter::Plain, Adapter::Interop]), "bincode");
    derive.generate_decode(&mut generator).unwrap();
    assert_eq!(
        flat(generator.finish().unwrap()),
        code(
            "impl ::bincode::Decode for Foo {
                fn decode<D: ::bincode::de::Decoder>(decoder: &mut D)
                    -> core::result::Result<Self, bincode::error::DecodeError>
                {
                    Ok(Self {
                        0: bincode::Decode::decode(decoder)?,
                        1: (<bincode::serde::Compat<_> as bincode::Decode>::decode(decoder)?).0,
                    })
                }
            }"
        )
    );
}

#[test]
fn struct_decode_named_fields() {
    let mut generator = Generator::with_name("Foo");
    let derive = record(
        Fields::Struct(vec![named("first", Adapter::Interop), named("second", Adapter::Plain)]),
        "bincode",
    );
    derive.generate_decode(&mut generator).unwrap();
    assert_eq!(
        flat(generator.finish().unwrap()),
        code(
            "impl ::bincode::Decode for Foo {
                fn decode<D: ::bincode::de::Decoder>(decoder: &mut D)
                    -> core::result::Result<Self, bincode::error::DecodeError>
                {
                    Ok(Self {
                        first: (<bincode::serde::Compat<_> as bincode::Decode>::decode(decoder)?).0,
                        second: bincode::Decode::decode(decoder)?,
                    })
                }
            }"
        )
    );
}

#[test]
fn struct_decode_without_fields() {
    let mut generator = Generator::with_name("Nothing");
    record(Fields::Unit, "bincode").generate_decode(&mut generator).unwrap();
    assert_eq!(
        flat(generator.finish().unwrap()),
        code(
            "impl ::bincode::Decode for Nothing {
                fn decode<D: ::bincode::de::Decoder>(decoder: &mut D)
                    -> core::result::Result<Self, bincode::error::DecodeError>
                {
                    Ok(Self {})
                }
            }"
        )
    );
}

#[test]
fn struct_borrow_decode_tuple_fields() {
    let mut generator = Generator::with_name("Foo");
    let derive = record(Fields::Tuple(vec![Adapter::Plain, Adapter::Interop]), "codec");
    derive.generate_borrow_decode(&mut generator).unwrap();
    assert_eq!(
        flat(generator.finish().unwrap()),
        code(
            "impl<'__de> ::codec::BorrowDecode<'__de> for Foo {
                fn borrow_decode<D: ::codec::de::BorrowDecoder<'__de>>(decoder: &mut D)
                    -> core::result::Result<Self, codec::error::DecodeError>
                {
                    Ok(Self {
                        0: codec::BorrowDecode::borrow_decode(decoder)?,
                        1: (<codec::serde::BorrowCompat<_> as codec::BorrowDecode>::borrow_decode(decoder)?).0,
                    })
                }
            }"
        )
    );
}

#[test]
fn struct_fields_keep_their_order() {
    let mut generator = Generator::with_name("Foo");
    let derive = record(
        Fields::Struct(vec![
            named("z", Adapter::Plain),
            named("a", Adapter::Plain),
            named("m", Adapter::Plain),
        ]),
        "bincode",
    );
    derive.generate_encode(&mut generator).unwrap();
    let text = flat(generator.finish().unwrap());
    let z = text.find("self . z").unwrap();
    let a = text.find("self . a").unwrap();
    let m = text.find("self . m").unwrap();
    assert!(z < a && a < m);
}

#[test]
fn struct_encode_twice_gives_the_same_code() {
    let fields = Fields::Struct(vec![named("a", Adapter::Plain), named("b", Adapter::Interop)]);
    let mut first = Generator::with_name("Foo");
    record(fields.clone(), "bincode").generate_encode(&mut first).unwrap();
    let mut second = Generator::with_name("Foo");
    record(fields, "bincode").generate_encode(&mut second).unwrap();
    assert_eq!(first.finish().unwrap().to_string(), second.finish().unwrap().to_string());
}

#[test]
fn struct_encode_fails_on_a_crate_name_that_does_not_lex() {
    let mut generator = Generator::with_name("Foo");
    let derive = record(Fields::Struct(vec![named("a", Adapter::Plain)]), "(");
    let res = derive.generate_encode(&mut generator);
    assert!(matches!(res, Err(DeriveError::Generate(_))));
    assert!(generator.finish().unwrap().is_empty());
}

#[test]
fn struct_encode_fails_on_a_field_name_that_does_not_lex() {
    let mut generator = Generator::with_name("Foo");
    let derive = record(
        Fields::Struct(vec![named("a", Adapter::Plain), named("b)", Adapter::Plain)]),
        "bincode",
    );
    let res = derive.generate_encode(&mut generator);
    assert!(matches!(res, Err(DeriveError::Generate(_))));
    assert!(generator.finish().unwrap().is_empty());
}

#[test]
fn struct_decode_fails_on_a_field_name_that_does_not_lex() {
    let mut generator = Generator::with_name("Foo");
    let derive = record(Fields::Struct(vec![named("\"", Adapter::Interop)]), "bincode");
    assert!(matches!(derive.generate_decode(&mut generator), Err(DeriveError::Generate(_))));
    assert!(generator.finish().unwrap().is_empty());
    let mut generator = Generator::with_name("Foo");
    let derive = record(Fields::Struct(vec![named("\"", Adapter::Interop)]), "bincode");
    assert!(matches!(derive.generate_borrow_decode(&mut generator), Err(DeriveError::Generate(_))));
    assert!(generator.finish().unwrap().is_empty());
}

#[test]
fn struct_takes_any_name_without_a_panic() {
    let names = ["", " ", "r#type", "'a", "1abc", "a b", "é", "_", "a::b", "(", ")", "\"", "/*", "//", "x y z", "🦀", "0x", "'"];
    for name in names {
        for crate_name in ["bincode", name] {
            let fields = Fields::Struct(vec![named(name, Adapter::Plain), named(name, Adapter::Interop)]);
            let mut generator = Generator::with_name("Foo");
            let _ = record(fields.clone(), crate_name).generate_encode(&mut generator);
            let _ = record(fields.clone(), crate_name).generate_decode(&mut generator);
            let _ = record(fields, crate_name).generate_borrow_decode(&mut generator);
            let _ = generator.finish();
        }
    }
}

#[test]
fn struct_code_comes_after_what_the_generator_holds() {
    let mut generator = Generator::with_name("Foo");
    record(Fields::Unit, "bincode").generate_encode(&mut generator).unwrap();
    record(Fields::Unit, "bincode").generate_decode(&mut generator).unwrap();
    let text = flat(generator.finish().unwrap());
    let encode = text.find("fn encode").unwrap();
    let decode = text.find("fn decode").unwrap();
    assert!(encode < decode);
}
