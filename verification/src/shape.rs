//! The shape of the type that a codec is synthesized for: a record of fields,
//! or a union of variants that carry fields and, some of them, a fixed tag.

use vstd::prelude::*;
use vstd::string::StringExecFns;
use crate::text::{decimal, decimal_string};

verus! {

/// How a field's value reaches the wire.
#[derive(Clone, Copy, Debug, PartialEq, Eq, Structural)]
pub enum Adapter {
    /// Through the field type's own codec.
    Plain,
    /// Through the interop adapter, which borrows the format that another
    /// serialization framework defines for the field's type.
    Interop,
}

/// The three ways in which a record or a variant lists its fields.
#[derive(Clone, Copy, Debug, PartialEq, Eq, Structural)]
pub enum FieldsKind {
    /// No list at all: `struct A;`, the variant `A`.
    Unit,
    /// Positional fields: `A(u8, u8)`.
    Tuple,
    /// Named fields: `A { x: u8 }`.
    Struct,
}

/// By what a field is reached: its name, or its position in a tuple.
pub enum Identity {
    Named(Seq<char>),
    Positional(nat),
}

/// One field, as contracts speak of it.
pub struct FieldView {
    pub identity: Identity,
    pub adapter: Adapter,
}

/// A list of fields, as contracts speak of it. The order is the wire order.
pub struct FieldsView {
    pub kind: FieldsKind,
    pub fields: Seq<FieldView>,
}

/// A variant of a union, as contracts speak of it.
pub struct VariantView {
    pub name: Seq<char>,
    pub fields: FieldsView,
    pub fixed_tag: Option<u32>,
}

/// A record or a union, as contracts speak of it.
pub enum ShapeView {
    Record(FieldsView),
    Union(Seq<VariantView>),
}

/// A field with a name.
#[derive(Clone, Debug, PartialEq, Eq)]
pub struct NamedField {
    pub name: String,
    pub adapter: Adapter,
}

/// The fields of a record or of a variant, in declaration order. A positional
/// field is known by its place in the list.
#[derive(Clone, Debug, PartialEq, Eq)]
pub enum Fields {
    Unit,
    Tuple(Vec<Adapter>),
    Struct(Vec<NamedField>),
}

/// One variant of a union.
#[derive(Clone, Debug, PartialEq, Eq)]
pub struct Variant {
    pub name: String,
    pub fields: Fields,
    /// The tag that the declaration fixes for this variant, if it does.
    pub fixed_tag: Option<u32>,
}

/// The description that a codec is synthesized from.
#[derive(Clone, Debug, PartialEq, Eq)]
pub enum ShapeDescription {
    Record(Fields),
    Union(Vec<Variant>),
}

impl View for NamedField {
    type V = FieldView;

    open spec fn view(&self) -> FieldView {
        FieldView { identity: Identity::Named(self.name@), adapter: self.adapter }
    }
}

impl View for Fields {
    type V = FieldsView;

    open spec fn view(&self) -> FieldsView {
        match self {
            Fields::Unit => FieldsView { kind: FieldsKind::Unit, fields: Seq::empty() },
            Fields::Tuple(adapters) => FieldsView {
                kind: FieldsKind::Tuple,
                fields: Seq::new(
                    adapters@.len(),
                    |i: int| FieldView { identity: Identity::Positional(i as nat), adapter: adapters@[i] },
                ),
            },
            Fields::Struct(fields) => FieldsView {
                kind: FieldsKind::Struct,
                fields: Seq::new(fields@.len(), |i: int| fields@[i]@),
            },
        }
    }
}

impl View for Variant {
    type V = VariantView;

    open spec fn view(&self) -> VariantView {
        VariantView { name: self.name@, fields: self.fields@, fixed_tag: self.fixed_tag }
    }
}

/// The views of a list of variants, in the same order.
pub open spec fn variant_views(variants: Seq<Variant>) -> Seq<VariantView> {
    Seq::new(variants.len(), |i: int| variants[i]@)
}

impl View for ShapeDescription {
    type V = ShapeView;

    open spec fn view(&self) -> ShapeView {
        match self {
            ShapeDescription::Record(fields) => ShapeView::Record(fields@),
            ShapeDescription::Union(variants) => ShapeView::Union(variant_views(variants@)),
        }
    }
}

/// A tag is 32 bits wide, so a union has no more variants than `u32::MAX`.
pub open spec fn has_tags(shape: ShapeView) -> bool {
    shape matches ShapeView::Union(variants) ==> variants.len() <= u32::MAX
}

impl Identity {
    /// How code names the field as a member of a value: `x` in `self.x`, `0`
    /// in `self.0`.
    pub open spec fn member(self) -> Seq<char> {
        match self {
            Identity::Named(name) => name,
            Identity::Positional(index) => decimal(index),
        }
    }

    /// The local variable that a pattern binds the field to: the field's own
    /// name, or `field_` and the position.
    pub open spec fn binding(self) -> Seq<char> {
        match self {
            Identity::Named(name) => name,
            Identity::Positional(index) => "field_"@ + decimal(index),
        }
    }
}

impl Fields {
    /// The number of fields.
    pub fn len(&self) -> (n: usize)
        ensures
            n == self@.fields.len(),
    {
        match self {
            Fields::Unit => 0,
            Fields::Tuple(adapters) => adapters.len(),
            Fields::Struct(fields) => fields.len(),
        }
    }

    /// Which of the three kinds of list this is.
    pub fn kind(&self) -> (kind: FieldsKind)
        ensures
            kind == self@.kind,
    {
        match self {
            Fields::Unit => FieldsKind::Unit,
            Fields::Tuple(_) => FieldsKind::Tuple,
            Fields::Struct(_) => FieldsKind::Struct,
        }
    }

    /// The adapter of the field at `index`, or `None` past the last field.
    pub fn adapter(&self, index: usize) -> (adapter: Option<Adapter>)
        ensures
            index < self@.fields.len() ==> adapter == Some(self@.fields[index as int].adapter),
            index >= self@.fields.len() ==> adapter is None,
    {
        match self {
            Fields::Unit => None,
            Fields::Tuple(adapters) => if index < adapters.len() {
                Some(adapters[index])
            } else {
                None
            },
            Fields::Struct(fields) => if index < fields.len() {
                Some(fields[index].adapter)
            } else {
                None
            },
        }
    }

    /// The text by which the field at `index` is reached as a member, or
    /// `None` past the last field.
    pub fn member(&self, index: usize) -> (text: Option<String>)
        ensures
            index < self@.fields.len() ==> text is Some && text.unwrap()@
                == self@.fields[index as int].identity.member(),
            index >= self@.fields.len() ==> text is None,
    {
        match self {
            Fields::Unit => None,
            Fields::Tuple(adapters) => if index < adapters.len() {
                Some(decimal_string(index))
            } else {
                None
            },
            Fields::Struct(fields) => if index < fields.len() {
                Some(fields[index].name.clone())
            } else {
                None
            },
        }
    }

    /// The name of the variable that a pattern binds the field at `index` to,
    /// or `None` past the last field.
    pub fn binding(&self, index: usize) -> (text: Option<String>)
        ensures
            index < self@.fields.len() ==> text is Some && text.unwrap()@
                == self@.fields[index as int].identity.binding(),
            index >= self@.fields.len() ==> text is None,
    {
        match self {
            Fields::Unit => None,
            Fields::Tuple(adapters) => if index < adapters.len() {
                let mut text = String::from_str("field_");
                text.append(decimal_string(index).as_str());
                Some(text)
            } else {
                None
            },
            Fields::Struct(fields) => if index < fields.len() {
                Some(fields[index].name.clone())
            } else {
                None
            },
        }
    }
}

} // verus!
