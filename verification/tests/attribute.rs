use bincode_derive::attribute::{AttributeItem, CrateNameAttribute, FieldAttribute};
use bincode_derive::error::DeriveError;
use bincode_derive::shape::Adapter;
use std::str::FromStr;
use virtue::prelude::{Group, Span, TokenStream, TokenTree};

fn attribute(text: &str) -> Group {
    let mut trees = TokenStream::from_str(text).unwrap().into_iter();
    match (trees.next(), trees.next()) {
        (Some(TokenTree::Punct(_)), Some(TokenTree::Group(group))) => group,
        _ => panic!("no attribute: {}", text),
    }
}

fn tag(name: &str) -> AttributeItem {
    AttributeItem::Tag { name: name.to_string(), at: Span::call_site() }
}

fn property(key: &str, value: &str) -> AttributeItem {
    AttributeItem::Property {
        key: key.to_string(),
        value: value.to_string(),
        at: Span::call_site(),
    }
}

#[test]
fn ty_is_an_absolute_path() {
    let attribute = CrateNameAttribute { name: "bincode".to_string() };
    assert_eq!(attribute.ty("Encode"), "::bincode::Encode");
    assert_eq!(attribute.ty("de::Decoder"), "::bincode::de::Decoder");
    let renamed = CrateNameAttribute { name: "my_codec".to_string() };
    assert_eq!(renamed.ty("Encode"), "::my_codec::Encode");
}

#[test]
fn default_crate_is_the_codec_itself() {
    assert_eq!(CrateNameAttribute::default().name, "bincode");
}

#[test]
fn with_serde_is_the_field_attribute() {
    assert!(matches!(
        FieldAttribute::from_items(&vec![tag("with_serde")]),
        Ok(FieldAttribute::WithSerde)
    ));
    assert!(matches!(
        FieldAttribute::from_items(&vec![tag("with_serde"), tag("other")]),
        Ok(FieldAttribute::WithSerde)
    ));
    assert!(matches!(
        FieldAttribute::from_items(&vec![property("with_serde", "1")]),
        Ok(FieldAttribute::WithSerde)
    ));
}

#[test]
fn another_field_attribute_is_refused() {
    assert!(matches!(
        FieldAttribute::from_items(&vec![tag("skip")]),
        Err(DeriveError::UnknownFieldAttribute { token: Some(_) })
    ));
    assert!(matches!(
        FieldAttribute::from_items(&vec![tag("other"), tag("with_serde")]),
        Err(DeriveError::UnknownFieldAttribute { token: Some(_) })
    ));
    assert!(matches!(
        FieldAttribute::from_items(&vec![property("crate", "\"x\"")]),
        Err(DeriveError::UnknownFieldAttribute { token: Some(_) })
    ));
    assert!(matches!(
        FieldAttribute::from_items(&vec![AttributeItem::Unknown]),
        Err(DeriveError::UnknownFieldAttribute { token: None })
    ));
}

#[test]
fn an_empty_field_attribute_is_refused() {
    assert!(matches!(
        FieldAttribute::from_items(&Vec::new()),
        Err(DeriveError::UnknownFieldAttribute { token: None })
    ));
}

#[test]
fn field_attribute_is_read_from_the_tokens() {
    assert!(matches!(
        FieldAttribute::parse(&attribute("#[bincode(with_serde)]")),
        Ok(Some(FieldAttribute::WithSerde))
    ));
    assert!(matches!(FieldAttribute::parse(&attribute("#[serde(skip)]")), Ok(None)));
    assert!(matches!(FieldAttribute::parse(&attribute("#[doc = \"text\"]")), Ok(None)));
    assert!(matches!(
        FieldAttribute::parse(&attribute("#[bincode(skip)]")),
        Err(DeriveError::UnknownFieldAttribute { token: Some(_) })
    ));
    assert!(matches!(
        FieldAttribute::parse(&attribute("#[bincode()]")),
        Err(DeriveError::UnknownFieldAttribute { token: None })
    ));
    assert!(matches!(
        FieldAttribute::parse(&attribute("#[bincode(5)]")),
        Err(DeriveError::Attribute(_))
    ));
}

#[test]
fn a_field_without_attributes_is_plain() {
    assert!(matches!(Adapter::of_field(&Vec::new()), Ok(Adapter::Plain)));
    assert!(matches!(
        Adapter::of_field(&vec![attribute("#[doc = \"text\"]"), attribute("#[serde(skip)]")]),
        Ok(Adapter::Plain)
    ));
}

#[test]
fn a_field_with_the_attribute_is_adapted() {
    assert!(matches!(
        Adapter::of_field(&vec![attribute("#[doc = \"text\"]"), attribute("#[bincode(with_serde)]")]),
        Ok(Adapter::Interop)
    ));
}

#[test]
fn a_refused_attribute_fails_the_field() {
    assert!(matches!(
        Adapter::of_field(&vec![attribute("#[bincode(nope)]"), attribute("#[bincode(with_serde)]")]),
        Err(DeriveError::UnknownFieldAttribute { token: Some(_) })
    ));
    assert!(matches!(
        Adapter::of_field(&vec![attribute("#[bincode(with_serde)]"), attribute("#[bincode(nope)]")]),
        Ok(Adapter::Interop)
    ));
}

#[test]
fn crate_name_is_the_value_without_its_quotes() {
    let found = CrateNameAttribute::from_items(&vec![property("crate", "\"my_codec\"")]);
    assert_eq!(found.unwrap(), Some(CrateNameAttribute { name: "my_codec".to_string() }));
    let found = CrateNameAttribute::from_items(&vec![tag("other"), property("crate", "\"a::b\"")]);
    assert_eq!(found.unwrap(), Some(CrateNameAttribute { name: "a::b".to_string() }));
    let found = CrateNameAttribute::from_items(&vec![property("crate", "\"\"")]);
    assert_eq!(found.unwrap(), Some(CrateNameAttribute { name: String::new() }));
}

#[test]
fn the_first_crate_entry_decides() {
    let found = CrateNameAttribute::from_items(&vec![
        property("crate", "\"first\""),
        property("crate", "\"second\""),
    ]);
    assert_eq!(found.unwrap(), Some(CrateNameAttribute { name: "first".to_string() }));
}

#[test]
fn a_list_without_crate_names_none() {
    assert_eq!(CrateNameAttribute::from_items(&Vec::new()).unwrap(), None);
    assert_eq!(CrateNameAttribute::from_items(&vec![tag("with_serde")]).unwrap(), None);
    assert_eq!(
        CrateNameAttribute::from_items(&vec![property("other", "\"x\""), AttributeItem::Unknown])
            .unwrap(),
        None
    );
}

#[test]
fn crate_alone_is_refused() {
    assert!(matches!(
        CrateNameAttribute::from_items(&vec![tag("crate")]),
        Err(DeriveError::ExpectedKeyValue { .. })
    ));
}

#[test]
fn a_crate_that_is_no_string_is_refused() {
    match CrateNameAttribute::from_items(&vec![property("crate", "5")]) {
        Err(DeriveError::ExpectedString { found, .. }) => assert_eq!(found, "5"),
        other => panic!("{:?}", other),
    }
    match CrateNameAttribute::from_items(&vec![property("crate", "'x'")]) {
        Err(DeriveError::ExpectedString { found, .. }) => assert_eq!(found, "'x'"),
        other => panic!("{:?}", other),
    }
    assert!(matches!(
        CrateNameAttribute::from_items(&vec![property("crate", "\"")]),
        Err(DeriveError::ExpectedString { .. })
    ));
}

#[test]
fn crate_name_is_read_from_the_tokens() {
    let found = CrateNameAttribute::parse(&attribute("#[bincode(crate = \"other\")]"));
    assert_eq!(found.unwrap(), Some(CrateNameAttribute { name: "other".to_string() }));
    assert_eq!(CrateNameAttribute::parse(&attribute("#[serde(crate = \"x\")]")).unwrap(), None);
    assert_eq!(CrateNameAttribute::parse(&attribute("#[bincode(with_serde)]")).unwrap(), None);
    assert!(matches!(
        CrateNameAttribute::parse(&attribute("#[bincode(crate)]")),
        Err(DeriveError::ExpectedKeyValue { .. })
    ));
    assert!(matches!(
        CrateNameAttribute::parse(&attribute("#[bincode(crate = 5)]")),
        Err(DeriveError::ExpectedString { .. })
    ));
    assert!(matches!(
        CrateNameAttribute::parse(&attribute("#[bincode(= 5)]")),
        Err(DeriveError::Attribute(_))
    ));
}

#[test]
fn crate_of_a_type() {
    let found = CrateNameAttribute::of_type(&vec![
        attribute("#[derive(Debug)]"),
        attribute("#[bincode(crate = \"other\")]"),
        attribute("#[bincode(crate = \"late\")]"),
    ]);
    assert_eq!(found.unwrap(), CrateNameAttribute { name: "other".to_string() });
}

#[test]
fn crate_of_a_type_without_attribute_is_the_default() {
    assert_eq!(CrateNameAttribute::of_type(&Vec::new()).unwrap(), CrateNameAttribute::default());
    let found = CrateNameAttribute::of_type(&vec![attribute("#[derive(Debug)]")]);
    assert_eq!(found.unwrap(), CrateNameAttribute { name: "bincode".to_string() });
}

#[test]
fn a_refused_attribute_fails_the_type() {
    assert!(matches!(
        CrateNameAttribute::of_type(&vec![
            attribute("#[bincode(crate = 1)]"),
            attribute("#[bincode(crate = \"late\")]"),
        ]),
        Err(DeriveError::ExpectedString { .. })
    ));
}

#[test]
fn messages_of_the_failures() {
    assert_eq!(
        DeriveError::UnknownFieldAttribute { token: None }.message(),
        Some("Unknown attribute, expected one of: \"with_serde\"".to_string())
    );
    assert_eq!(
        DeriveError::ExpectedKeyValue { span: Span::call_site() }.message(),
        Some("Expected `key = val`".to_string())
    );
    assert_eq!(
        DeriveError::ExpectedString { found: "5".to_string(), span: Span::call_site() }.message(),
        Some("Expected string, found 5".to_string())
    );
    assert_eq!(
        DeriveError::InvalidTag { found: "-1".to_string(), span: Span::call_site() }.message(),
        Some("Expected an integer of 32 bits, found -1".to_string())
    );
    assert_eq!(
        DeriveError::TooManyVariants.message(),
        Some("Expected no more variants than a tag has values".to_string())
    );
    let lexer = FieldAttribute::parse(&attribute("#[bincode(5)]")).unwrap_err();
    assert_eq!(lexer.message(), None);
}
