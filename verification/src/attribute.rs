//! The two attributes that steer the synthesis: the name of the codec's crate
//! on the type, and `with_serde` on a field.

use vstd::prelude::*;
use vstd::string::{StrSliceExecFns, StringExecFns};
use virtue::prelude::{Group, Span};
use virtue::utils::{parse_tagged_attribute, ParsedAttribute};
use crate::error::{DeriveError, Fault};
use crate::shape::Adapter;

verus! {

/// The crate that the generated code reaches the codec through. Every path
/// into the codec starts with this name, so that the code also works where
/// the codec's crate is renamed or re-exported.
#[derive(Clone, Debug, PartialEq, Eq)]
pub struct CrateNameAttribute {
    pub name: String,
}

impl View for CrateNameAttribute {
    type V = Seq<char>;

    open spec fn view(&self) -> Seq<char> {
        self.name@
    }
}

/// The path of `item` in the crate `root`, from the root of all crates.
pub open spec fn absolute_path(root: Seq<char>, item: Seq<char>) -> Seq<char> {
    "::"@ + root + "::"@ + item
}

impl CrateNameAttribute {
    /// The absolute path of an item of the codec's crate.
    pub fn ty(&self, ty: &str) -> (path: String)
        ensures
            path@ == absolute_path(self@, ty@),
    {
        let mut path = String::from_str("::");
        path.append(self.name.as_str());
        path.append("::");
        path.append(ty);
        path
    }
}

impl Default for CrateNameAttribute {
    /// The codec's own name.
    fn default() -> (attribute: Self)
        ensures
            attribute@ == "bincode"@,
    {
        CrateNameAttribute { name: String::from_str("bincode") }
    }
}

/// `proc_macro2::Group`: the bracketed tokens of an attribute.
#[verifier::external_type_specification]
#[verifier::external_body]
pub struct ExGroup(Group);

/// One entry of the list inside an attribute such as `#[codec(a, b = "c")]`.
pub enum AttributeItem {
    /// A key that stands alone, with the span of the key.
    Tag { name: String, at: Span },
    /// A key with a literal as its value, with the span of the value. The
    /// value is the literal as it was written, quotes and all.
    Property { key: String, value: String, at: Span },
    /// An entry of a kind that is not known here.
    Unknown,
}

/// An entry, as contracts speak of it.
pub enum ItemView {
    Tag { name: Seq<char>, at: Span },
    Property { key: Seq<char>, value: Seq<char>, at: Span },
    Unknown,
}

impl View for AttributeItem {
    type V = ItemView;

    open spec fn view(&self) -> ItemView {
        match self {
            AttributeItem::Tag { name, at } => ItemView::Tag { name: name@, at: *at },
            AttributeItem::Property { key, value, at } => ItemView::Property {
                key: key@,
                value: value@,
                at: *at,
            },
            AttributeItem::Unknown => ItemView::Unknown,
        }
    }
}

/// The views of a list of entries, in the same order.
pub open spec fn item_views(items: Seq<AttributeItem>) -> Seq<ItemView> {
    Seq::new(items.len(), |i: int| items[i]@)
}

impl ItemView {
    /// The key of the entry, if it has one.
    pub open spec fn key(self) -> Option<Seq<char>> {
        match self {
            ItemView::Tag { name, .. } => Some(name),
            ItemView::Property { key, .. } => Some(key),
            ItemView::Unknown => None,
        }
    }

    /// Where the entry stands in the source, if that is known.
    pub open spec fn span(self) -> Option<Span> {
        match self {
            ItemView::Tag { at, .. } => Some(at),
            ItemView::Property { at, .. } => Some(at),
            ItemView::Unknown => None,
        }
    }
}

/// What an attribute holds for a given prefix.
pub enum Tagged {
    /// The attribute is not of the form `prefix(..)`.
    Absent,
    /// The list in the brackets is no list of keys and `key = literal` pairs.
    Invalid,
    /// The entries of the list.
    Items(Seq<ItemView>),
}

/// What `virtue` reads from the tokens of an attribute for a prefix.
pub uninterp spec fn tagged_attribute(group: Group, prefix: Seq<char>) -> Tagged;

/// `virtue::utils::parse_tagged_attribute`: the entries of an attribute of
/// the form `prefix(..)`, each key and value turned into text. It fails
/// where the list is no list of keys and `key = literal` pairs.
#[verifier::external_body]
pub(crate) fn parse_tagged(group: &Group, prefix: &str) -> (res: Result<
    Option<Vec<AttributeItem>>,
    virtue::Error,
>)
    ensures
        match res {
            Ok(Some(items)) => tagged_attribute(*group, prefix@) == Tagged::Items(
                item_views(items@),
            ),
            Ok(None) => tagged_attribute(*group, prefix@) == Tagged::Absent,
            Err(_) => tagged_attribute(*group, prefix@) == Tagged::Invalid,
        },
{
    let items = parse_tagged_attribute(group, prefix)?;
    Ok(items.map(|items| items.into_iter().map(|item| match item {
        ParsedAttribute::Tag(name) => AttributeItem::Tag { at: name.span(), name: name.to_string() },
        ParsedAttribute::Property(key, value) => AttributeItem::Property {
            at: value.span(),
            key: key.to_string(),
            value: value.to_string(),
        },
        _ => AttributeItem::Unknown,
    }).collect()))
}

/// Whether two texts are the same.
fn same_text(left: &str, right: &str) -> (same: bool)
    ensures
        same == (left@ == right@),
{
    String::from_str(left) == String::from_str(right)
}

/// What a field can ask for.
#[derive(Clone, Copy, Debug, PartialEq, Eq, Structural)]
pub enum FieldAttribute {
    /// The field goes through the interop adapter.
    WithSerde,
}

/// How the first entry decides on a field's attribute: it has to have the
/// key `with_serde`. Without one, the failure names the first entry, where
/// there is one.
pub open spec fn field_attribute(items: Seq<ItemView>) -> Result<FieldAttribute, Fault> {
    if items.len() == 0 {
        Err(Fault::UnknownFieldAttribute { token: None })
    } else if items[0].key() == Some("with_serde"@) {
        Ok(FieldAttribute::WithSerde)
    } else {
        Err(Fault::UnknownFieldAttribute { token: items[0].span() })
    }
}

/// What an attribute asks of a field.
pub open spec fn parsed_field_attribute(tagged: Tagged) -> Result<Option<FieldAttribute>, Fault> {
    match tagged {
        Tagged::Absent => Ok(None),
        Tagged::Invalid => Err(Fault::Attribute),
        Tagged::Items(items) => match field_attribute(items) {
            Ok(attribute) => Ok(Some(attribute)),
            Err(fault) => Err(fault),
        },
    }
}

/// Whether a result is the value or the failure that a contract names.
pub open spec fn gives<T>(res: Result<T, DeriveError>, named: Result<T, Fault>) -> bool {
    match named {
        Ok(value) => res matches Ok(found) && found == value,
        Err(fault) => res matches Err(error) && error@ == fault,
    }
}

impl FieldAttribute {
    /// Reads the attribute of a field from the entries of `#[bincode(..)]`.
    /// Anything but `with_serde` in the first place is refused.
    pub fn from_items(items: &Vec<AttributeItem>) -> (res: Result<FieldAttribute, DeriveError>)
        ensures
            gives(res, field_attribute(item_views(items@))),
    {
        if items.len() == 0 {
            return Err(DeriveError::UnknownFieldAttribute { token: None });
        }
        assert(item_views(items@)[0] == items@[0]@);
        match &items[0] {
            AttributeItem::Tag { name, at } => {
                if same_text(name.as_str(), "with_serde") {
                    Ok(FieldAttribute::WithSerde)
                } else {
                    Err(DeriveError::UnknownFieldAttribute { token: Some(*at) })
                }
            },
            AttributeItem::Property { key, at, .. } => {
                if same_text(key.as_str(), "with_serde") {
                    Ok(FieldAttribute::WithSerde)
                } else {
                    Err(DeriveError::UnknownFieldAttribute { token: Some(*at) })
                }
            },
            AttributeItem::Unknown => Err(DeriveError::UnknownFieldAttribute { token: None }),
        }
    }

    /// Reads what one attribute asks of a field: nothing where it is no
    /// `#[bincode(..)]`, and otherwise what [`FieldAttribute::from_items`]
    /// finds in its list.
    pub fn parse(group: &Group) -> (res: Result<Option<FieldAttribute>, DeriveError>)
        ensures
            gives(res, parsed_field_attribute(tagged_attribute(*group, "bincode"@))),
    {
        match parse_tagged(group, "bincode") {
            Err(error) => Err(DeriveError::Attribute(error)),
            Ok(None) => Ok(None),
            Ok(Some(items)) => match FieldAttribute::from_items(&items) {
                Ok(attribute) => Ok(Some(attribute)),
                Err(error) => Err(error),
            },
        }
    }
}

/// What the attributes of a field ask for, taken one after the other: the
/// first `#[bincode(..)]` among the first `count` decides.
pub open spec fn field_adapter(attributes: Seq<Group>, count: nat) -> Result<Adapter, Fault>
    decreases count,
{
    if count == 0 {
        Ok(Adapter::Plain)
    } else {
        match field_adapter(attributes, (count - 1) as nat) {
            Ok(Adapter::Plain) => match parsed_field_attribute(
                tagged_attribute(attributes[count - 1], "bincode"@),
            ) {
                Ok(None) => Ok(Adapter::Plain),
                Ok(Some(FieldAttribute::WithSerde)) => Ok(Adapter::Interop),
                Err(fault) => Err(fault),
            },
            decided => decided,
        }
    }
}

/// Once an attribute has decided, the attributes after it change nothing.
proof fn lemma_field_adapter_stays(attributes: Seq<Group>, decided: nat, count: nat)
    requires
        decided <= count,
        field_adapter(attributes, decided) != Ok::<Adapter, Fault>(Adapter::Plain),
    ensures
        field_adapter(attributes, count) == field_adapter(attributes, decided),
    decreases count,
{
    if decided < count {
        lemma_field_adapter_stays(attributes, decided, (count - 1) as nat);
    }
}

impl Adapter {
    /// Finds the adapter of a field from the attributes on it. A field
    /// without `#[bincode(..)]` is plain. An attribute that is refused fails
    /// the whole type.
    pub fn of_field(attributes: &Vec<Group>) -> (res: Result<Adapter, DeriveError>)
        ensures
            gives(res, field_adapter(attributes@, attributes@.len())),
    {
        let mut index: usize = 0;
        while index < attributes.len()
            invariant
                index <= attributes@.len(),
                field_adapter(attributes@, index as nat) == Ok::<Adapter, Fault>(Adapter::Plain),
            decreases attributes@.len() - index,
        {
            match FieldAttribute::parse(&attributes[index]) {
                Ok(None) => {},
                Ok(Some(FieldAttribute::WithSerde)) => {
                    proof {
                        lemma_field_adapter_stays(attributes@, (index + 1) as nat, attributes@.len());
                    }
                    return Ok(Adapter::Interop);
                },
                Err(error) => {
                    proof {
                        lemma_field_adapter_stays(attributes@, (index + 1) as nat, attributes@.len());
                    }
                    return Err(error);
                },
            }
            index += 1;
        }
        Ok(Adapter::Plain)
    }
}

/// The first entry at or after `from` that has the key `crate`.
pub open spec fn first_crate_entry(items: Seq<ItemView>, from: int) -> Option<int>
    decreases items.len() - from,
{
    if from < 0 || from >= items.len() {
        None
    } else if items[from].key() == Some("crate"@) {
        Some(from)
    } else {
        first_crate_entry(items, from + 1)
    }
}

/// Whether a literal, as it was written, begins or ends with the quote of a
/// string.
pub open spec fn is_quoted(literal: Seq<char>) -> bool {
    literal.len() >= 2 && (literal[0] == '"' || literal.last() == '"')
}

/// The crate that a list of entries names: the value of the first entry
/// with the key `crate`, without its quotes. A list without that key names
/// none.
pub open spec fn named_crate(items: Seq<ItemView>) -> Result<Option<Seq<char>>, Fault> {
    match first_crate_entry(items, 0) {
        None => Ok(None),
        Some(index) => match items[index] {
            ItemView::Tag { at, .. } => Err(Fault::ExpectedKeyValue { span: at }),
            ItemView::Property { value, at, .. } => if is_quoted(value) {
                Ok(Some(value.subrange(1, value.len() - 1)))
            } else {
                Err(Fault::ExpectedString { found: value, span: at })
            },
            ItemView::Unknown => Ok(None),
        },
    }
}

/// What one attribute says of the codec's crate.
pub open spec fn parsed_crate_name(tagged: Tagged) -> Result<Option<Seq<char>>, Fault> {
    match tagged {
        Tagged::Absent => Ok(None),
        Tagged::Invalid => Err(Fault::Attribute),
        Tagged::Items(items) => named_crate(items),
    }
}

/// Whether a result names the crate, or is the failure, that a contract
/// names.
pub open spec fn names_crate(
    res: Result<Option<CrateNameAttribute>, DeriveError>,
    named: Result<Option<Seq<char>>, Fault>,
) -> bool {
    match named {
        Ok(None) => res matches Ok(None),
        Ok(Some(name)) => res matches Ok(Some(attribute)) && attribute@ == name,
        Err(fault) => res matches Err(error) && error@ == fault,
    }
}

/// What the attributes of a type say of the codec's crate, taken one after
/// the other: the first among the first `count` that names a crate or is
/// refused decides.
pub open spec fn crate_name_of_type(attributes: Seq<Group>, count: nat) -> Result<
    Option<Seq<char>>,
    Fault,
>
    decreases count,
{
    if count == 0 {
        Ok(None)
    } else {
        match crate_name_of_type(attributes, (count - 1) as nat) {
            Ok(None) => parsed_crate_name(tagged_attribute(attributes[count - 1], "bincode"@)),
            decided => decided,
        }
    }
}

/// Once an attribute has decided, the attributes after it change nothing.
proof fn lemma_crate_name_stays(attributes: Seq<Group>, decided: nat, count: nat)
    requires
        decided <= count,
        crate_name_of_type(attributes, decided) != Ok::<Option<Seq<char>>, Fault>(None),
    ensures
        crate_name_of_type(attributes, count) == crate_name_of_type(attributes, decided),
    decreases count,
{
    if decided < count {
        lemma_crate_name_stays(attributes, decided, (count - 1) as nat);
    }
}

impl CrateNameAttribute {
    /// Reads the name of the codec's crate from the entries of
    /// `#[bincode(..)]`: the first entry `crate = "name"` gives it. The entry
    /// is refused where `crate` stands alone or its value is no string.
    pub fn from_items(items: &Vec<AttributeItem>) -> (res: Result<
        Option<CrateNameAttribute>,
        DeriveError,
    >)
        ensures
            names_crate(res, named_crate(item_views(items@))),
    {
        let ghost views = item_views(items@);
        let mut index: usize = 0;
        while index < items.len()
            invariant
                index <= items@.len(),
                views == item_views(items@),
                first_crate_entry(views, 0) == first_crate_entry(views, index as int),
            decreases items@.len() - index,
        {
            assert(views[index as int] == items@[index as int]@);
            match &items[index] {
                AttributeItem::Tag { name, at } => {
                    if same_text(name.as_str(), "crate") {
                        return Err(DeriveError::ExpectedKeyValue { span: *at });
                    }
                },
                AttributeItem::Property { key, value, at } => {
                    if same_text(key.as_str(), "crate") {
                        let literal = value.as_str();
                        let length = literal.unicode_len();
                        if length >= 2 && (literal.get_char(0) == '"' || literal.get_char(
                            length - 1,
                        ) == '"') {
                            let name = String::from_str(literal.substring_char(1, length - 1));
                            return Ok(Some(CrateNameAttribute { name }));
                        } else {
                            return Err(
                                DeriveError::ExpectedString { found: value.clone(), span: *at },
                            );
                        }
                    }
                },
                AttributeItem::Unknown => {},
            }
            index += 1;
        }
        Ok(None)
    }

    /// Reads what one attribute says of the codec's crate: nothing where it
    /// is no `#[bincode(..)]`, and otherwise what
    /// [`CrateNameAttribute::from_items`] finds in its list.
    pub fn parse(group: &Group) -> (res: Result<Option<CrateNameAttribute>, DeriveError>)
        ensures
            names_crate(res, parsed_crate_name(tagged_attribute(*group, "bincode"@))),
    {
        match parse_tagged(group, "bincode") {
            Err(error) => Err(DeriveError::Attribute(error)),
            Ok(None) => Ok(None),
            Ok(Some(items)) => CrateNameAttribute::from_items(&items),
        }
    }

    /// Finds the codec's crate from the attributes on the type. Where none
    /// names a crate it is the codec's own name. An attribute that is refused
    /// fails the whole type.
    pub fn of_type(attributes: &Vec<Group>) -> (res: Result<CrateNameAttribute, DeriveError>)
        ensures
            match crate_name_of_type(attributes@, attributes@.len()) {
                Ok(None) => res matches Ok(attribute) && attribute@ == "bincode"@,
                Ok(Some(name)) => res matches Ok(attribute) && attribute@ == name,
                Err(fault) => res matches Err(error) && error@ == fault,
            },
    {
        let mut index: usize = 0;
        while index < attributes.len()
            invariant
                index <= attributes@.len(),
                crate_name_of_type(attributes@, index as nat) == Ok::<Option<Seq<char>>, Fault>(
                    None,
                ),
            decreases attributes@.len() - index,
        {
            match CrateNameAttribute::parse(&attributes[index]) {
                Ok(None) => {},
                Ok(Some(attribute)) => {
                    proof {
                        lemma_crate_name_stays(attributes@, (index + 1) as nat, attributes@.len());
                    }
                    return Ok(attribute);
                },
                Err(error) => {
                    proof {
                        lemma_crate_name_stays(attributes@, (index + 1) as nat, attributes@.len());
                    }
                    return Err(error);
                },
            }
            index += 1;
        }
        Ok(CrateNameAttribute::default())
    }
}

} // verus!
