//! What the synthesized procedures do, call by call.
//!
//! The procedures leave the bytes to the codec: they only decide which calls
//! into it are made and in which order. So the wire is held here as the
//! sequence of those calls, an [`Entry`] for each: a tag, or the value of a
//! field together with the adapter that it went through. A value is what the
//! procedures see of it: which variant it is, and the values of its fields,
//! each a number that stands for whatever the field's codec makes of it.
//!
//! [`encode`] writes what the synthesized `encode` writes, and [`decode`]
//! reads what the synthesized decoder of the given mode reads. What the codec
//! itself does with one entry is not decided here: it is the premise
//! [`codec_reads`], on which the laws of this module rest.

use vstd::prelude::*;
use vstd::string::StringExecFns;
use crate::emission::DecodeMode;
use crate::shape::{
    has_tags, variant_views, Adapter, FieldView, Fields, ShapeDescription, ShapeView, VariantView,
};
use crate::tag::{
    allowed, allowed_variants, assigned_tag, tag_of, AllowedVariants, AllowedView,
    EnumVariantIterator,
};

verus! {

/// One call into the codec, as it shows on the wire.
#[derive(Clone, Copy, Debug, PartialEq, Eq, Structural)]
pub enum Entry {
    /// The tag of a variant.
    Tag(u32),
    /// The value of a field, and the adapter that it went through.
    Field(Adapter, u64),
}

/// A value of a described type.
#[derive(Clone, Debug, PartialEq, Eq)]
pub enum Value {
    /// A record, with the values of its fields in declaration order.
    Record(Vec<u64>),
    /// The variant at the given position of a union, with the values of its
    /// fields in declaration order.
    Variant(usize, Vec<u64>),
}

/// A value, as contracts speak of it.
pub enum ValueView {
    Record(Seq<u64>),
    Variant(nat, Seq<u64>),
}

impl View for Value {
    type V = ValueView;

    open spec fn view(&self) -> ValueView {
        match self {
            Value::Record(fields) => ValueView::Record(fields@),
            Value::Variant(index, fields) => ValueView::Variant(*index as nat, fields@),
        }
    }
}

/// Why a decoder gives up.
#[derive(Clone, Debug, PartialEq, Eq)]
pub enum DecodeError {
    /// The type is a union without variants: no tag could be valid.
    EmptyEnum { target: String },
    /// No variant has the tag that was found.
    UnexpectedVariant { found: u32, target: String, allowed: AllowedVariants },
    /// The codec failed on the entry at the given place: the wire ended
    /// before it, or holds something else there.
    Codec { at: usize },
}

/// Why a decoder gives up, as contracts speak of it.
pub enum DecodeFailure {
    EmptyEnum { target: Seq<char> },
    UnexpectedVariant { found: u32, target: Seq<char>, allowed: AllowedView },
    Codec { at: nat },
}

impl View for DecodeError {
    type V = DecodeFailure;

    open spec fn view(&self) -> DecodeFailure {
        match self {
            DecodeError::EmptyEnum { target } => DecodeFailure::EmptyEnum { target: target@ },
            DecodeError::UnexpectedVariant { found, target, allowed } => {
                DecodeFailure::UnexpectedVariant {
                    found: *found,
                    target: target@,
                    allowed: allowed@,
                }
            },
            DecodeError::Codec { at } => DecodeFailure::Codec { at: *at as nat },
        }
    }
}

/// Whether a value is one of the described type: a record with a value for
/// each field, or a variant that the union has, with a value for each of its
/// fields.
pub open spec fn conforms(shape: ShapeView, value: ValueView) -> bool {
    match (shape, value) {
        (ShapeView::Record(fields), ValueView::Record(values)) => values.len()
            == fields.fields.len(),
        (ShapeView::Union(variants), ValueView::Variant(index, values)) => index < variants.len()
            && values.len() == variants[index as int].fields.fields.len(),
        _ => false,
    }
}

/// Whether a value can be encoded: it is of the described type, and the tag
/// of its variant fits the 32 bits of a tag.
pub open spec fn encodable(shape: ShapeView, value: ValueView) -> bool {
    &&& conforms(shape, value)
    &&& match (shape, value) {
        (ShapeView::Union(variants), ValueView::Variant(index, _)) => assigned_tag(
            variants,
            index as int,
        ).value() <= u32::MAX,
        _ => true,
    }
}

/// Whether the variant of a value is the first of the union with its tag.
/// Tags are not checked for collisions, and of two variants with one tag a
/// decoder finds the first.
pub open spec fn first_with_its_tag(shape: ShapeView, value: ValueView) -> bool {
    match (shape, value) {
        (ShapeView::Union(variants), ValueView::Variant(index, _)) => forall|before: int|
            0 <= before < index ==> assigned_tag(variants, before).value() != assigned_tag(
                variants,
                index as int,
            ).value(),
        _ => true,
    }
}

/// The entries of the fields, in declaration order: each goes through the
/// adapter of its field.
pub open spec fn field_entries(fields: Seq<FieldView>, values: Seq<u64>) -> Seq<Entry> {
    Seq::new(fields.len(), |i: int| Entry::Field(fields[i].adapter, values[i]))
}

/// What `encode` writes for a value that can be encoded: the fields of a
/// record; for a union, the assigned tag of the variant and then its fields.
pub open spec fn encoded(shape: ShapeView, value: ValueView) -> Seq<Entry> {
    match (shape, value) {
        (ShapeView::Record(fields), ValueView::Record(values)) => field_entries(
            fields.fields,
            values,
        ),
        (ShapeView::Union(variants), ValueView::Variant(index, values)) => seq![
            Entry::Tag(assigned_tag(variants, index as int).value() as u32),
        ] + field_entries(variants[index as int].fields.fields, values),
        _ => Seq::empty(),
    }
}

/// What the codec reads from an entry where the decoder of the given mode
/// asks it for a field that goes through `adapter`: the value, where the
/// entry holds one that went through the same adapter. The values of this
/// module borrow nothing from the wire, and such a value is read alike by
/// both decoders.
pub open spec fn codec_reads(entry: Entry, adapter: Adapter, mode: DecodeMode) -> Option<u64> {
    match entry {
        Entry::Field(through, value) => if through == adapter {
            Some(value)
        } else {
            None
        },
        Entry::Tag(_) => None,
    }
}

/// What the decoder of the given mode reads for `field` from the wire at
/// `at`: nothing past the end of the wire.
pub open spec fn field_at(wire: Seq<Entry>, at: int, field: FieldView, mode: DecodeMode) -> Option<
    u64,
> {
    if 0 <= at < wire.len() {
        codec_reads(wire[at], field.adapter, mode)
    } else {
        None
    }
}

/// The values of the first `count` fields, read from the wire at `from` on,
/// or the failure of the first field that the wire does not hold.
pub open spec fn read_fields(
    fields: Seq<FieldView>,
    wire: Seq<Entry>,
    from: int,
    mode: DecodeMode,
    count: nat,
) -> Result<Seq<u64>, DecodeFailure>
    decreases count,
{
    if count == 0 {
        Ok(Seq::empty())
    } else {
        match read_fields(fields, wire, from, mode, (count - 1) as nat) {
            Err(failure) => Err(failure),
            Ok(values) => match field_at(wire, from + count - 1, fields[count - 1], mode) {
                Some(value) => Ok(values.push(value)),
                None => Err(DecodeFailure::Codec { at: (from + count - 1) as nat }),
            },
        }
    }
}

/// The first of the first `count` variants whose assigned tag is `tag`: the
/// arm that the decoder's `match` takes.
pub open spec fn arm_for(variants: Seq<VariantView>, tag: u32, count: nat) -> Option<int>
    decreases count,
{
    if count == 0 {
        None
    } else {
        match arm_for(variants, tag, (count - 1) as nat) {
            Some(index) => Some(index),
            None => if assigned_tag(variants, count - 1).value() == tag {
                Some(count - 1)
            } else {
                None
            },
        }
    }
}

/// What the decoder of the given mode makes of the wire: the value and the
/// number of entries that it read, or why it gave up. A record is read field by field. For a
/// union the tag is read and the first variant with that tag is read field
/// by field; a tag that no variant has is reported with the tags that are
/// accepted; a union without variants fails before anything is read.
pub open spec fn decoded(
    shape: ShapeView,
    target: Seq<char>,
    wire: Seq<Entry>,
    mode: DecodeMode,
) -> Result<(ValueView, nat), DecodeFailure> {
    match shape {
        ShapeView::Record(fields) => match read_fields(
            fields.fields,
            wire,
            0,
            mode,
            fields.fields.len(),
        ) {
            Ok(values) => Ok((ValueView::Record(values), fields.fields.len())),
            Err(failure) => Err(failure),
        },
        ShapeView::Union(variants) => if variants.len() == 0 {
            Err(DecodeFailure::EmptyEnum { target })
        } else if wire.len() == 0 || !(wire[0] is Tag) {
            Err(DecodeFailure::Codec { at: 0 })
        } else {
            match arm_for(variants, wire[0]->Tag_0, variants.len()) {
                None => Err(
                    DecodeFailure::UnexpectedVariant {
                        found: wire[0]->Tag_0,
                        target,
                        allowed: allowed_variants(variants),
                    },
                ),
                Some(index) => match read_fields(
                    variants[index].fields.fields,
                    wire,
                    1,
                    mode,
                    variants[index].fields.fields.len(),
                ) {
                    Ok(values) => Ok(
                        (
                            ValueView::Variant(index as nat, values),
                            1 + variants[index].fields.fields.len(),
                        ),
                    ),
                    Err(failure) => Err(failure),
                },
            }
        },
    }
}

/// A wire that holds the entries of the fields at `from` gives the values
/// back, whatever the adapters are.
pub proof fn fields_read_back(
    fields: Seq<FieldView>,
    values: Seq<u64>,
    wire: Seq<Entry>,
    from: int,
    mode: DecodeMode,
    count: nat,
)
    requires
        0 <= from,
        count <= fields.len() == values.len(),
        from + fields.len() <= wire.len(),
        forall|i: int| 0 <= i < fields.len() ==> wire[from + i] == field_entries(fields, values)[i],
    ensures
        read_fields(fields, wire, from, mode, count) == Ok::<Seq<u64>, DecodeFailure>(
            values.take(count as int),
        ),
    decreases count,
{
    if count == 0 {
        assert(values.take(0) =~= Seq::<u64>::empty());
    } else {
        fields_read_back(fields, values, wire, from, mode, (count - 1) as nat);
        assert(wire[from + count - 1] == field_entries(fields, values)[count - 1]);
        assert(values.take(count as int) =~= values.take(count - 1).push(values[count - 1]));
    }
}

/// The decoder's `match` takes the arm of a variant on its tag, where no
/// variant before it was assigned the same tag.
pub proof fn arm_is_found(variants: Seq<VariantView>, index: int, count: nat)
    requires
        0 <= index < count <= variants.len(),
        assigned_tag(variants, index).value() <= u32::MAX,
        forall|before: int|
            0 <= before < index ==> assigned_tag(variants, before).value() != assigned_tag(
                variants,
                index,
            ).value(),
    ensures
        arm_for(variants, assigned_tag(variants, index).value() as u32, count) == Some(index),
    decreases count,
{
    let tag = assigned_tag(variants, index).value() as u32;
    if count - 1 > index {
        arm_is_found(variants, index, (count - 1) as nat);
    } else {
        arm_is_missing(variants, tag, index as nat);
    }
}

/// The decoder's `match` takes no arm among the first `count` where none of
/// them was assigned the tag.
pub proof fn arm_is_missing(variants: Seq<VariantView>, tag: u32, count: nat)
    requires
        count <= variants.len(),
        forall|i: int| 0 <= i < count ==> assigned_tag(variants, i).value() != tag,
    ensures
        arm_for(variants, tag, count) is None,
    decreases count,
{
    if count > 0 {
        arm_is_missing(variants, tag, (count - 1) as nat);
    }
}

/// Where the decoder's `match` takes an arm, it is the first with the tag.
pub proof fn arm_is_first(variants: Seq<VariantView>, tag: u32, count: nat)
    requires
        count <= variants.len(),
    ensures
        match arm_for(variants, tag, count) {
            Some(index) => {
                &&& 0 <= index < count
                &&& assigned_tag(variants, index).value() == tag
                &&& forall|before: int|
                    0 <= before < index ==> assigned_tag(variants, before).value() != tag
            },
            None => forall|i: int| 0 <= i < count ==> assigned_tag(variants, i).value() != tag,
        },
    decreases count,
{
    if count > 0 {
        arm_is_first(variants, tag, (count - 1) as nat);
    }
}

/// Round trip. A value that can be encoded is what either decoder reads from
/// its encoding, and the decoder reads no more than the encoding, whatever
/// follows it on the wire. This holds of plain and of adapted fields alike:
/// the encoder writes a field through the adapter through which the decoders
/// read it. For a variant it holds where no variant before it was assigned
/// the same tag.
pub proof fn round_trip(
    shape: ShapeView,
    target: Seq<char>,
    value: ValueView,
    rest: Seq<Entry>,
    mode: DecodeMode,
)
    requires
        has_tags(shape),
        encodable(shape, value),
        first_with_its_tag(shape, value),
    ensures
        decoded(shape, target, encoded(shape, value) + rest, mode) == Ok::<
            (ValueView, nat),
            DecodeFailure,
        >((value, encoded(shape, value).len())),
{
    let wire = encoded(shape, value) + rest;
    match (shape, value) {
        (ShapeView::Record(fields), ValueView::Record(values)) => {
            fields_read_back(fields.fields, values, wire, 0, mode, fields.fields.len());
            assert(values.take(values.len() as int) =~= values);
        },
        (ShapeView::Union(variants), ValueView::Variant(index, values)) => {
            let fields = variants[index as int].fields.fields;
            arm_is_found(variants, index as int, variants.len());
            assert(wire[0] == Entry::Tag(assigned_tag(variants, index as int).value() as u32));
            assert forall|i: int| 0 <= i < fields.len() implies wire[1 + i] == field_entries(
                fields,
                values,
            )[i] by {
                assert(wire[1 + i] == encoded(shape, value)[1 + i]);
            }
            fields_read_back(fields, values, wire, 1, mode, fields.len());
            assert(values.take(values.len() as int) =~= values);
        },
        _ => {},
    }
}

/// A union without variants has no value that could be encoded, and its
/// decoders fail on every wire, naming the type.
pub proof fn empty_union(target: Seq<char>, value: ValueView, wire: Seq<Entry>, mode: DecodeMode)
    ensures
        !conforms(ShapeView::Union(Seq::empty()), value),
        decoded(ShapeView::Union(Seq::empty()), target, wire, mode) == Err::<
            (ValueView, nat),
            DecodeFailure,
        >(DecodeFailure::EmptyEnum { target }),
{
}

/// On a tag that no variant was assigned, the decoders of a union that has a
/// variant fail with the tag, the name of the type and the accepted tags.
pub proof fn unexpected_tag(
    variants: Seq<VariantView>,
    target: Seq<char>,
    tag: u32,
    rest: Seq<Entry>,
    mode: DecodeMode,
)
    requires
        0 < variants.len(),
        forall|i: int| 0 <= i < variants.len() ==> assigned_tag(variants, i).value() != tag,
    ensures
        decoded(ShapeView::Union(variants), target, seq![Entry::Tag(tag)] + rest, mode) == Err::<
            (ValueView, nat),
            DecodeFailure,
        >(
            DecodeFailure::UnexpectedVariant {
                found: tag,
                target,
                allowed: allowed_variants(variants),
            },
        ),
{
    arm_is_missing(variants, tag, variants.len());
    assert((seq![Entry::Tag(tag)] + rest)[0] == Entry::Tag(tag));
}

/// The two decoders read fields alike.
pub proof fn fields_read_alike(fields: Seq<FieldView>, wire: Seq<Entry>, from: int, count: nat)
    ensures
        read_fields(fields, wire, from, DecodeMode::Owning, count) == read_fields(
            fields,
            wire,
            from,
            DecodeMode::Borrowing,
            count,
        ),
    decreases count,
{
    if count > 0 {
        fields_read_alike(fields, wire, from, (count - 1) as nat);
    }
}

/// The owning and the borrowing decoder make the same of every wire: the
/// same value from the same number of entries, or the same failure. They go
/// by the same tags, fields and adapters, and the values here borrow nothing.
pub proof fn decoders_agree(shape: ShapeView, target: Seq<char>, wire: Seq<Entry>)
    ensures
        decoded(shape, target, wire, DecodeMode::Owning) == decoded(
            shape,
            target,
            wire,
            DecodeMode::Borrowing,
        ),
{
    match shape {
        ShapeView::Record(fields) => {
            fields_read_alike(fields.fields, wire, 0, fields.fields.len());
        },
        ShapeView::Union(variants) => {
            if variants.len() > 0 && wire.len() > 0 && wire[0] is Tag {
                match arm_for(variants, wire[0]->Tag_0, variants.len()) {
                    Some(index) => {
                        fields_read_alike(
                            variants[index].fields.fields,
                            wire,
                            1,
                            variants[index].fields.fields.len(),
                        );
                    },
                    None => {},
                }
            }
        },
    }
}

/// A field reaches the wire through its adapter and is read back through
/// it: the decoders take what the encoder wrote for the field, and refuse
/// what was written through the other adapter.
pub proof fn adapter_symmetry(
    fields: Seq<FieldView>,
    values: Seq<u64>,
    index: int,
    other: Adapter,
    mode: DecodeMode,
)
    requires
        0 <= index < fields.len() == values.len(),
        other != fields[index].adapter,
    ensures
        field_at(field_entries(fields, values), index, fields[index], mode) == Some(values[index]),
        codec_reads(Entry::Field(other, values[index]), fields[index].adapter, mode) is None,
{
}

/// Whether what a decoder returned is what the contract says it makes of the
/// wire.
pub open spec fn same_outcome(
    res: Result<(Value, usize), DecodeError>,
    outcome: Result<(ValueView, nat), DecodeFailure>,
) -> bool {
    match outcome {
        Ok((value, read)) => res matches Ok((decoded, entries)) && decoded@ == value && entries
            == read,
        Err(failure) => res matches Err(error) && error@ == failure,
    }
}

/// Writes the entries of the fields after `wire`.
fn write_fields(fields: &Fields, values: &Vec<u64>, wire: &mut Vec<Entry>)
    requires
        values@.len() == fields@.fields.len(),
    ensures
        final(wire)@ == old(wire)@ + field_entries(fields@.fields, values@),
{
    let count = fields.len();
    let mut index: usize = 0;
    while index < count
        invariant
            index <= count == fields@.fields.len() == values@.len(),
            wire@.len() == old(wire)@.len() + index,
            forall|i: int| 0 <= i < old(wire)@.len() ==> wire@[i] == old(wire)@[i],
            forall|i: int|
                0 <= i < index ==> wire@[old(wire)@.len() + i] == field_entries(
                    fields@.fields,
                    values@,
                )[i],
        decreases count - index,
    {
        let adapter = fields.adapter(index).unwrap();
        wire.push(Entry::Field(adapter, values[index]));
        index += 1;
    }
    assert(wire@ =~= old(wire)@ + field_entries(fields@.fields, values@));
}

/// What the codec reads from an entry for a field that goes through
/// `adapter`.
fn read_entry(entry: Entry, adapter: Adapter, mode: DecodeMode) -> (value: Option<u64>)
    ensures
        value == codec_reads(entry, adapter, mode),
{
    match entry {
        Entry::Field(through, value) => if through == adapter {
            Some(value)
        } else {
            None
        },
        Entry::Tag(_) => None,
    }
}

/// Reads the values of the fields from the wire, from `from` on.
fn read(fields: &Fields, wire: &Vec<Entry>, from: usize, mode: DecodeMode) -> (res: Result<
    Vec<u64>,
    DecodeError,
>)
    requires
        from <= 1,
    ensures
        match read_fields(fields@.fields, wire@, from as int, mode, fields@.fields.len()) {
            Ok(values) => res matches Ok(read) && read@ == values,
            Err(failure) => res matches Err(error) && error@ == failure,
        },
{
    let count = fields.len();
    let mut values: Vec<u64> = Vec::new();
    let mut index: usize = 0;
    while index < count
        invariant
            from <= 1,
            index <= count == fields@.fields.len(),
            read_fields(fields@.fields, wire@, from as int, mode, index as nat) == Ok::<
                Seq<u64>,
                DecodeFailure,
            >(values@),
        decreases count - index,
    {
        let adapter = fields.adapter(index).unwrap();
        let at = from + index;
        let value = if at < wire.len() {
            read_entry(wire[at], adapter, mode)
        } else {
            None
        };
        match value {
            Some(value) => {
                values.push(value);
            },
            None => {
                proof {
                    read_failure_stays(
                        fields@.fields,
                        wire@,
                        from as int,
                        mode,
                        (index + 1) as nat,
                        fields@.fields.len(),
                    );
                }
                return Err(DecodeError::Codec { at });
            },
        }
        index += 1;
    }
    Ok(values)
}

/// The failure of a field is the failure of all that follow it.
proof fn read_failure_stays(
    fields: Seq<FieldView>,
    wire: Seq<Entry>,
    from: int,
    mode: DecodeMode,
    failed: nat,
    count: nat,
)
    requires
        failed <= count,
        read_fields(fields, wire, from, mode, failed) is Err,
    ensures
        read_fields(fields, wire, from, mode, count) == read_fields(
            fields,
            wire,
            from,
            mode,
            failed,
        ),
    decreases count,
{
    if failed < count {
        read_failure_stays(fields, wire, from, mode, failed, (count - 1) as nat);
    }
}

/// An arm that the `match` takes among the first variants is the arm that it
/// takes among all.
proof fn arm_stays(variants: Seq<VariantView>, tag: u32, taken: nat, count: nat)
    requires
        taken <= count,
        arm_for(variants, tag, taken) is Some,
    ensures
        arm_for(variants, tag, count) == arm_for(variants, tag, taken),
    decreases count,
{
    if taken < count {
        arm_stays(variants, tag, taken, (count - 1) as nat);
    }
}

/// Does to a value what the synthesized `encode` does: writes the entries
/// of its fields in declaration order, after the tag where the type is a
/// union. There is nothing to write for a value that is not of the described
/// type, or whose tag does not fit 32 bits.
pub fn encode(shape: &ShapeDescription, value: &Value) -> (wire: Option<Vec<Entry>>)
    requires
        has_tags(shape@),
    ensures
        wire is Some <==> encodable(shape@, value@),
        wire matches Some(entries) ==> entries@ == encoded(shape@, value@),
{
    let mut wire: Vec<Entry> = Vec::new();
    match shape {
        ShapeDescription::Record(fields) => match value {
            Value::Record(values) => {
                if values.len() != fields.len() {
                    return None;
                }
                write_fields(fields, values, &mut wire);
                Some(wire)
            },
            Value::Variant(_, _) => None,
        },
        ShapeDescription::Union(variants) => match value {
            Value::Record(_) => None,
            Value::Variant(index, values) => {
                let ghost views = variant_views(variants@);
                if *index >= variants.len() {
                    return None;
                }
                assert(views[*index as int] == variants@[*index as int]@);
                let fields = &variants[*index].fields;
                if values.len() != fields.len() {
                    return None;
                }
                match tag_of(variants, *index).unwrap().evaluate() {
                    None => None,
                    Some(tag) => {
                        wire.push(Entry::Tag(tag));
                        write_fields(fields, values, &mut wire);
                        assert(wire@ =~= encoded(shape@, value@));
                        Some(wire)
                    },
                }
            },
        },
    }
}

/// Does to the wire what the synthesized decoder of the given mode does.
/// `target` is the name of the type, which the failures carry.
pub fn decode(shape: &ShapeDescription, target: &str, wire: &Vec<Entry>, mode: DecodeMode) -> (res:
    Result<(Value, usize), DecodeError>)
    requires
        has_tags(shape@),
    ensures
        same_outcome(res, decoded(shape@, target@, wire@, mode)),
{
    match shape {
        ShapeDescription::Record(fields) => match read(fields, wire, 0, mode) {
            Ok(values) => Ok((Value::Record(values), fields.len())),
            Err(error) => Err(error),
        },
        ShapeDescription::Union(variants) => {
            let ghost views = variant_views(variants@);
            if variants.len() == 0 {
                return Err(DecodeError::EmptyEnum { target: String::from_str(target) });
            }
            let entries = wire.len();
            if entries == 0 {
                return Err(DecodeError::Codec { at: 0 });
            }
            let found = match wire[0] {
                Entry::Tag(tag) => tag,
                Entry::Field(_, _) => {
                    return Err(DecodeError::Codec { at: 0 });
                },
            };
            let mut iter = EnumVariantIterator::new(variants);
            let mut index: usize = 0;
            loop
                invariant
                    views == variant_views(variants@),
                    shape@ == ShapeView::Union(views),
                    0 < variants@.len() <= u32::MAX,
                    0 < wire@.len() == entries,
                    wire@[0] == Entry::Tag(found),
                    iter.variants() == variants@,
                    index == iter.position(),
                    index <= views.len(),
                    arm_for(views, found, index as nat) is None,
                ensures
                    index == views.len(),
                decreases views.len() - index,
            {
                match iter.next() {
                    None => {
                        break ;
                    },
                    Some((tag, variant)) => {
                        assert(views[index as int] == variant@);
                        if tag.evaluate() == Some(found) {
                            proof {
                                arm_stays(views, found, (index + 1) as nat, views.len());
                            }
                            return match read(&variant.fields, wire, 1, mode) {
                                Ok(values) => {
                                    let count = variant.fields.len();
                                    proof {
                                        read_needs_entries(
                                            variant@.fields.fields,
                                            wire@,
                                            1,
                                            mode,
                                            count as nat,
                                        );
                                    }
                                    Ok((Value::Variant(index, values), 1 + count))
                                },
                                Err(error) => Err(error),
                            };
                        }
                        index += 1;
                    },
                }
            }
            Err(
                DecodeError::UnexpectedVariant {
                    found,
                    target: String::from_str(target),
                    allowed: allowed(variants).unwrap(),
                },
            )
        },
    }
}

/// Fields that were read are entries that the wire holds.
proof fn read_needs_entries(
    fields: Seq<FieldView>,
    wire: Seq<Entry>,
    from: int,
    mode: DecodeMode,
    count: nat,
)
    requires
        read_fields(fields, wire, from, mode, count) is Ok,
    ensures
        from + count <= wire.len() || count == 0,
    decreases count,
{
    if count > 0 {
        read_needs_entries(fields, wire, from, mode, (count - 1) as nat);
    }
}

} // verus!
