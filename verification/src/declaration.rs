//! From the declaration of a type to its description.
//!
//! A declaration is what a front end read from the source: names, the
//! attributes on each field as they stand, and the literal that fixes a
//! variant's tag as it was written. The description holds what the
//! synthesis goes by: for each field its adapter, for each variant its fixed
//! tag as a number. One attribute or tag that is refused fails the whole
//! type.

use vstd::prelude::*;
use virtue::prelude::{Group, Span};
use crate::attribute::field_adapter;
use crate::error::{DeriveError, Fault};
use crate::shape::{
    has_tags, Adapter, FieldView, Fields, FieldsKind, FieldsView, Identity, NamedField,
    ShapeDescription, ShapeView, Variant, VariantView,
};
use crate::text::{is_tag_literal, tag_literal, tag_literal_value};

verus! {

/// A named field, as it is declared.
pub struct DeclaredField {
    pub name: String,
    /// The bracketed part of each attribute on the field.
    pub attributes: Vec<Group>,
}

/// The fields of a record or of a variant, as they are declared. For a
/// positional field only its attributes are held.
pub enum DeclaredFields {
    Unit,
    Tuple(Vec<Vec<Group>>),
    Struct(Vec<DeclaredField>),
}

/// The literal after `=` in the declaration of a variant.
pub struct DeclaredTag {
    /// The literal as it was written.
    pub literal: String,
    pub span: Span,
}

/// A variant, as it is declared.
pub struct DeclaredVariant {
    pub name: String,
    pub fields: DeclaredFields,
    pub value: Option<DeclaredTag>,
}

/// A type, as it is declared.
pub enum Declaration {
    Struct(DeclaredFields),
    Enum(Vec<DeclaredVariant>),
}

impl DeclaredFields {
    /// Which of the three kinds of list this is.
    pub open spec fn kind(self) -> FieldsKind {
        match self {
            DeclaredFields::Unit => FieldsKind::Unit,
            DeclaredFields::Tuple(_) => FieldsKind::Tuple,
            DeclaredFields::Struct(_) => FieldsKind::Struct,
        }
    }

    /// The number of fields.
    pub open spec fn count(self) -> nat {
        match self {
            DeclaredFields::Unit => 0,
            DeclaredFields::Tuple(fields) => fields@.len(),
            DeclaredFields::Struct(fields) => fields@.len(),
        }
    }

    /// The attributes on the field at `index`.
    pub open spec fn attributes(self, index: int) -> Seq<Group> {
        match self {
            DeclaredFields::Unit => Seq::empty(),
            DeclaredFields::Tuple(fields) => fields@[index]@,
            DeclaredFields::Struct(fields) => fields@[index].attributes@,
        }
    }

    /// By what the field at `index` is reached.
    pub open spec fn identity(self, index: int) -> Identity {
        match self {
            DeclaredFields::Struct(fields) => Identity::Named(fields@[index].name@),
            _ => Identity::Positional(index as nat),
        }
    }

    /// The field at `index`, where its attributes are accepted.
    pub open spec fn described_field(self, index: int) -> Result<FieldView, Fault> {
        match field_adapter(self.attributes(index), self.attributes(index).len()) {
            Ok(adapter) => Ok(FieldView { identity: self.identity(index), adapter }),
            Err(fault) => Err(fault),
        }
    }

    /// The first `count` fields, or the failure of the first among them whose
    /// attributes are refused.
    pub open spec fn described_fields(self, count: nat) -> Result<Seq<FieldView>, Fault>
        decreases count,
    {
        if count == 0 {
            Ok(Seq::empty())
        } else {
            match self.described_fields((count - 1) as nat) {
                Err(fault) => Err(fault),
                Ok(fields) => match self.described_field(count - 1) {
                    Ok(field) => Ok(fields.push(field)),
                    Err(fault) => Err(fault),
                },
            }
        }
    }

    /// The description of the fields: the same fields in the same order, each
    /// with the adapter that its attributes ask for.
    pub open spec fn described(self) -> Result<FieldsView, Fault> {
        match self.described_fields(self.count()) {
            Ok(fields) => Ok(FieldsView { kind: self.kind(), fields }),
            Err(fault) => Err(fault),
        }
    }
}

/// The tag that a variant fixes, as a number. The literal has to be an
/// integer literal that fits 32 bits.
pub open spec fn described_tag(value: Option<DeclaredTag>) -> Result<Option<u32>, Fault> {
    match value {
        None => Ok(None),
        Some(tag) => if is_tag_literal(tag.literal@) && tag_literal_value(tag.literal@)
            <= u32::MAX {
            Ok(Some(tag_literal_value(tag.literal@) as u32))
        } else {
            Err(Fault::InvalidTag { found: tag.literal@, span: tag.span })
        },
    }
}

impl DeclaredVariant {
    /// The description of the variant: its name, its fields, and its fixed
    /// tag. The fields are looked at before the tag.
    pub open spec fn described(self) -> Result<VariantView, Fault> {
        match self.fields.described() {
            Err(fault) => Err(fault),
            Ok(fields) => match described_tag(self.value) {
                Err(fault) => Err(fault),
                Ok(fixed_tag) => Ok(VariantView { name: self.name@, fields, fixed_tag }),
            },
        }
    }
}

/// The first `count` variants, or the failure of the first among them that
/// is refused.
pub open spec fn described_variants(variants: Seq<DeclaredVariant>, count: nat) -> Result<
    Seq<VariantView>,
    Fault,
>
    decreases count,
{
    if count == 0 {
        Ok(Seq::empty())
    } else {
        match described_variants(variants, (count - 1) as nat) {
            Err(fault) => Err(fault),
            Ok(described) => match variants[count - 1].described() {
                Ok(variant) => Ok(described.push(variant)),
                Err(fault) => Err(fault),
            },
        }
    }
}

impl Declaration {
    /// The description of the type. Fields and variants keep their order. The
    /// first field or variant, in declaration order, that is refused fails
    /// the type, and so does a union of more variants than a tag has values.
    pub open spec fn described(self) -> Result<ShapeView, Fault> {
        match self {
            Declaration::Struct(fields) => match fields.described() {
                Ok(fields) => Ok(ShapeView::Record(fields)),
                Err(fault) => Err(fault),
            },
            Declaration::Enum(variants) => if variants@.len() > u32::MAX {
                Err(Fault::TooManyVariants)
            } else {
                match described_variants(variants@, variants@.len()) {
                    Ok(variants) => Ok(ShapeView::Union(variants)),
                    Err(fault) => Err(fault),
                }
            },
        }
    }
}

/// Whether a result is the description, or the failure, that a contract
/// names.
pub open spec fn describes<T: View>(res: Result<T, DeriveError>, named: Result<T::V, Fault>) -> bool {
    match named {
        Ok(view) => res matches Ok(found) && found@ == view,
        Err(fault) => res matches Err(error) && error@ == fault,
    }
}

/// The failure of a field is the failure of the list.
proof fn lemma_fields_fail(fields: DeclaredFields, failed: nat, count: nat)
    requires
        failed <= count,
        fields.described_fields(failed) is Err,
    ensures
        fields.described_fields(count) == fields.described_fields(failed),
    decreases count,
{
    if failed < count {
        lemma_fields_fail(fields, failed, (count - 1) as nat);
    }
}

/// The failure of a variant is the failure of the union.
proof fn lemma_variants_fail(variants: Seq<DeclaredVariant>, failed: nat, count: nat)
    requires
        failed <= count,
        described_variants(variants, failed) is Err,
    ensures
        described_variants(variants, count) == described_variants(variants, failed),
    decreases count,
{
    if failed < count {
        lemma_variants_fail(variants, failed, (count - 1) as nat);
    }
}

impl DeclaredFields {
    /// Describes the fields: finds the adapter of each from its attributes.
    pub fn describe(&self) -> (res: Result<Fields, DeriveError>)
        ensures
            describes(res, self.described()),
    {
        match self {
            DeclaredFields::Unit => {
                assert(Fields::Unit@.fields =~= Seq::<FieldView>::empty());
                Ok(Fields::Unit)
            },
            DeclaredFields::Tuple(fields) => {
                let mut adapters: Vec<Adapter> = Vec::new();
                let mut index: usize = 0;
                while index < fields.len()
                    invariant
                        index <= fields@.len(),
                        *self == DeclaredFields::Tuple(*fields),
                        adapters@.len() == index,
                        self.described_fields(index as nat) is Ok,
                        forall|i: int|
                            0 <= i < index ==> (self.described_fields(index as nat)->Ok_0)[i]
                                == (FieldView {
                                identity: Identity::Positional(i as nat),
                                adapter: #[trigger] adapters@[i],
                            }),
                        self.described_fields(index as nat)->Ok_0.len() == index,
                    decreases fields@.len() - index,
                {
                    match Adapter::of_field(&fields[index]) {
                        Ok(adapter) => {
                            adapters.push(adapter);
                        },
                        Err(error) => {
                            proof {
                                lemma_fields_fail(*self, (index + 1) as nat, self.count());
                            }
                            return Err(error);
                        },
                    }
                    index += 1;
                }
                let described = Fields::Tuple(adapters);
                assert(described@.fields =~= self.described_fields(self.count())->Ok_0);
                Ok(described)
            },
            DeclaredFields::Struct(fields) => {
                let mut named: Vec<NamedField> = Vec::new();
                let mut index: usize = 0;
                while index < fields.len()
                    invariant
                        index <= fields@.len(),
                        *self == DeclaredFields::Struct(*fields),
                        named@.len() == index,
                        self.described_fields(index as nat) is Ok,
                        forall|i: int|
                            0 <= i < index ==> (self.described_fields(index as nat)->Ok_0)[i]
                                == (#[trigger] named@[i])@,
                        self.described_fields(index as nat)->Ok_0.len() == index,
                    decreases fields@.len() - index,
                {
                    match Adapter::of_field(&fields[index].attributes) {
                        Ok(adapter) => {
                            named.push(NamedField { name: fields[index].name.clone(), adapter });
                        },
                        Err(error) => {
                            proof {
                                lemma_fields_fail(*self, (index + 1) as nat, self.count());
                            }
                            return Err(error);
                        },
                    }
                    index += 1;
                }
                let described = Fields::Struct(named);
                assert(described@.fields =~= self.described_fields(self.count())->Ok_0);
                Ok(described)
            },
        }
    }
}

impl DeclaredVariant {
    /// Describes the variant: its fields, and the tag that it fixes.
    pub fn describe(&self) -> (res: Result<Variant, DeriveError>)
        ensures
            describes(res, self.described()),
    {
        let fields = match self.fields.describe() {
            Ok(fields) => fields,
            Err(error) => {
                return Err(error);
            },
        };
        let fixed_tag = match &self.value {
            None => None,
            Some(tag) => match tag_literal(tag.literal.as_str()) {
                Some(value) => Some(value),
                None => {
                    return Err(
                        DeriveError::InvalidTag { found: tag.literal.clone(), span: tag.span },
                    );
                },
            },
        };
        Ok(Variant { name: self.name.clone(), fields, fixed_tag })
    }
}

impl Declaration {
    /// Describes the type. A description that comes out of this has no more
    /// variants than a tag has values.
    pub fn describe(&self) -> (res: Result<ShapeDescription, DeriveError>)
        ensures
            describes(res, self.described()),
            res matches Ok(shape) ==> has_tags(shape@),
    {
        match self {
            Declaration::Struct(fields) => match fields.describe() {
                Ok(fields) => Ok(ShapeDescription::Record(fields)),
                Err(error) => Err(error),
            },
            Declaration::Enum(variants) => {
                if variants.len() > 0xffff_ffff {
                    return Err(DeriveError::TooManyVariants);
                }
                let mut described: Vec<Variant> = Vec::new();
                let mut index: usize = 0;
                while index < variants.len()
                    invariant
                        index <= variants@.len() <= u32::MAX,
                        *self == Declaration::Enum(*variants),
                        described@.len() == index,
                        described_variants(variants@, index as nat) is Ok,
                        described_variants(variants@, index as nat)->Ok_0.len() == index,
                        forall|i: int|
                            0 <= i < index ==> (described_variants(
                                variants@,
                                index as nat,
                            )->Ok_0)[i] == (#[trigger] described@[i])@,
                    decreases variants@.len() - index,
                {
                    match variants[index].describe() {
                        Ok(variant) => {
                            described.push(variant);
                        },
                        Err(error) => {
                            proof {
                                lemma_variants_fail(
                                    variants@,
                                    (index + 1) as nat,
                                    variants@.len(),
                                );
                            }
                            return Err(error);
                        },
                    }
                    index += 1;
                }
                let shape = ShapeDescription::Union(described);
                assert(shape@ == ShapeView::Union(
                    described_variants(variants@, variants@.len())->Ok_0,
                )) by {
                    assert(crate::shape::variant_views(described@) =~= described_variants(
                        variants@,
                        variants@.len(),
                    )->Ok_0);
                }
                Ok(shape)
            },
        }
    }
}

} // verus!
