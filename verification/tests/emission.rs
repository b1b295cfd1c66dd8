use bincode_derive::derive_enum::allowed_range_code;
use bincode_derive::emission::{
    decode_member_code, decode_value_code, encode_binding_code, encode_member_code, DecodeMode,
};
use bincode_derive::shape::{Adapter, Fields, FieldsKind, NamedField};

#[test]
fn encode_member_plain() {
    assert_eq!(
        encode_member_code("bincode", "a", Adapter::Plain),
        "::bincode::Encode::encode(&self.a, encoder)?;"
    );
}

#[test]
fn encode_member_interop() {
    assert_eq!(
        encode_member_code("bincode", "0", Adapter::Interop),
        "::bincode::Encode::encode(&bincode::serde::Compat(&self.0), encoder)?;"
    );
}

#[test]
fn encode_binding_plain() {
    assert_eq!(
        encode_binding_code("codec", "field_0", Adapter::Plain),
        "codec::Encode::encode(field_0, encoder)?;"
    );
}

#[test]
fn encode_binding_interop() {
    assert_eq!(
        encode_binding_code("codec", "x", Adapter::Interop),
        "codec::Encode::encode(&codec::serde::Compat(x), encoder)?;"
    );
}

#[test]
fn decode_member_owning() {
    assert_eq!(
        decode_member_code("bincode", "a", Adapter::Plain, DecodeMode::Owning),
        "a: bincode::Decode::decode(decoder)?,"
    );
    assert_eq!(
        decode_member_code("bincode", "a", Adapter::Interop, DecodeMode::Owning),
        "a: (<bincode::serde::Compat<_> as bincode::Decode>::decode(decoder)?).0,"
    );
}

#[test]
fn decode_member_borrowing() {
    assert_eq!(
        decode_member_code("bincode", "1", Adapter::Plain, DecodeMode::Borrowing),
        "1: bincode::BorrowDecode::borrow_decode(decoder)?,"
    );
    assert_eq!(
        decode_member_code("bincode", "1", Adapter::Interop, DecodeMode::Borrowing),
        "1: (<bincode::serde::BorrowCompat<_> as bincode::BorrowDecode>::borrow_decode(decoder)?).0,"
    );
}

#[test]
fn decode_value_owning() {
    assert_eq!(
        decode_value_code("bincode", Adapter::Plain, DecodeMode::Owning),
        "bincode::Decode::decode(decoder)?,"
    );
    assert_eq!(
        decode_value_code("bincode", Adapter::Interop, DecodeMode::Owning),
        "<bincode::serde::Compat<_> as bincode::Decode>::decode(decoder)?.0,"
    );
}

#[test]
fn decode_value_borrowing() {
    assert_eq!(
        decode_value_code("bincode", Adapter::Plain, DecodeMode::Borrowing),
        "bincode::BorrowDecode::borrow_decode(decoder)?,"
    );
    assert_eq!(
        decode_value_code("bincode", Adapter::Interop, DecodeMode::Borrowing),
        "<bincode::serde::BorrowCompat<_> as bincode::BorrowDecode>::borrow_decode(decoder)?.0,"
    );
}

#[test]
fn decoders_differ_in_the_names_of_the_calls_only() {
    for adapter in [Adapter::Plain, Adapter::Interop] {
        let owning = decode_member_code("bincode", "a", adapter, DecodeMode::Owning);
        let borrowing = decode_member_code("bincode", "a", adapter, DecodeMode::Borrowing);
        let renamed = owning
            .replace("::Decode", "::BorrowDecode")
            .replace("::decode(", "::borrow_decode(")
            .replace("::Compat<", "::BorrowCompat<");
        assert_eq!(renamed, borrowing);
    }
}

#[test]
fn call_names_of_the_modes() {
    assert_eq!(DecodeMode::Owning.trait_text(), "Decode");
    assert_eq!(DecodeMode::Owning.entry_point_text(), "decode");
    assert_eq!(DecodeMode::Owning.adapter_text(), "Compat");
    assert_eq!(DecodeMode::Borrowing.trait_text(), "BorrowDecode");
    assert_eq!(DecodeMode::Borrowing.entry_point_text(), "borrow_decode");
    assert_eq!(DecodeMode::Borrowing.adapter_text(), "BorrowCompat");
}

#[test]
fn allowed_range_text() {
    assert_eq!(
        allowed_range_code("bincode", 0, 2),
        "bincode::error::AllowedEnumVariants::Range { min: 0, max: 2 }"
    );
    assert_eq!(
        allowed_range_code("codec", 0, 41),
        "codec::error::AllowedEnumVariants::Range { min: 0, max: 41 }"
    );
}

#[test]
fn fields_of_a_tuple_are_known_by_position() {
    let fields = Fields::Tuple(vec![Adapter::Plain, Adapter::Interop]);
    assert_eq!(fields.len(), 2);
    assert_eq!(fields.kind(), FieldsKind::Tuple);
    assert_eq!(fields.member(0), Some("0".to_string()));
    assert_eq!(fields.member(1), Some("1".to_string()));
    assert_eq!(fields.member(2), None);
    assert_eq!(fields.binding(0), Some("field_0".to_string()));
    assert_eq!(fields.binding(1), Some("field_1".to_string()));
    assert_eq!(fields.binding(2), None);
    assert_eq!(fields.adapter(0), Some(Adapter::Plain));
    assert_eq!(fields.adapter(1), Some(Adapter::Interop));
    assert_eq!(fields.adapter(2), None);
}

#[test]
fn fields_of_a_struct_are_known_by_name() {
    let fields = Fields::Struct(vec![
        NamedField { name: "x".to_string(), adapter: Adapter::Interop },
        NamedField { name: "y".to_string(), adapter: Adapter::Plain },
    ]);
    assert_eq!(fields.len(), 2);
    assert_eq!(fields.kind(), FieldsKind::Struct);
    assert_eq!(fields.member(0), Some("x".to_string()));
    assert_eq!(fields.binding(1), Some("y".to_string()));
    assert_eq!(fields.adapter(0), Some(Adapter::Interop));
    assert_eq!(fields.adapter(1), Some(Adapter::Plain));
    assert_eq!(fields.member(2), None);
}

#[test]
fn a_unit_has_no_fields() {
    let fields = Fields::Unit;
    assert_eq!(fields.len(), 0);
    assert_eq!(fields.kind(), FieldsKind::Unit);
    assert_eq!(fields.member(0), None);
    assert_eq!(fields.binding(0), None);
    assert_eq!(fields.adapter(0), None);
}
