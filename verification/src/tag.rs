//! The tag allocator: which tag expression each variant of a union gets.
//!
//! A variant that fixes its tag keeps it. Any other variant counts on from the
//! last fixed tag before it, or, where none came before, from zero: its tag is
//! then its position.

use vstd::prelude::*;
use crate::shape::{variant_views, Variant, VariantView};
use crate::tokens::{Spacing, Token};

verus! {

/// The tag expression assigned to one variant.
#[derive(Clone, Copy, Debug, PartialEq, Eq, Structural)]
pub enum TagAssignment {
    /// A single literal: a fixed tag, or the position of a variant that no
    /// fixed tag precedes.
    Literal(u32),
    /// The sum `base + offset`, written out and left to the compiler: the
    /// variant comes `offset` places after the one that fixed `base`.
    Computed { base: u32, offset: u32 },
}

impl TagAssignment {
    /// The number that the expression evaluates to.
    pub open spec fn value(self) -> int {
        match self {
            TagAssignment::Literal(tag) => tag as int,
            TagAssignment::Computed { base, offset } => base + offset,
        }
    }

    /// The tokens of the expression.
    pub open spec fn tokens(self) -> Seq<Token> {
        match self {
            TagAssignment::Literal(tag) => seq![Token::U32(tag)],
            TagAssignment::Computed { base, offset } => seq![
                Token::U32(base),
                Token::Punct('+', Spacing::Alone),
                Token::U32(offset),
            ],
        }
    }

    /// Evaluates the expression. A sum that does not fit the 32 bits of a
    /// tag has no value.
    pub fn evaluate(&self) -> (value: Option<u32>)
        ensures
            match value {
                Some(tag) => tag == self.value(),
                None => self.value() > u32::MAX,
            },
    {
        match self {
            TagAssignment::Literal(tag) => Some(*tag),
            TagAssignment::Computed { base, offset } => base.checked_add(*offset),
        }
    }

    /// Whether the expression is one literal, which a `match` arm can take as
    /// its pattern. A sum needs a guard instead.
    pub fn is_literal(&self) -> (literal: bool)
        ensures
            literal == (self is Literal),
    {
        match self {
            TagAssignment::Literal(_) => true,
            TagAssignment::Computed { .. } => false,
        }
    }
}

/// The position of the last variant at or before `index` that fixes its tag.
pub open spec fn last_fixed(variants: Seq<VariantView>, index: int) -> Option<int>
    decreases index + 1,
{
    if index < 0 || index >= variants.len() {
        None
    } else if variants[index].fixed_tag is Some {
        Some(index)
    } else {
        last_fixed(variants, index - 1)
    }
}

/// The tag expression of the variant at `index`.
pub open spec fn assigned_tag(variants: Seq<VariantView>, index: int) -> TagAssignment {
    match last_fixed(variants, index) {
        None => TagAssignment::Literal(index as u32),
        Some(origin) => if origin == index {
            TagAssignment::Literal(variants[origin].fixed_tag.unwrap())
        } else {
            TagAssignment::Computed {
                base: variants[origin].fixed_tag.unwrap(),
                offset: (index - origin) as u32,
            }
        },
    }
}

/// The tag expressions of all variants, in declaration order.
pub open spec fn assigned_tags(variants: Seq<VariantView>) -> Seq<TagAssignment> {
    Seq::new(variants.len(), |index: int| assigned_tag(variants, index))
}

/// Whether any variant fixes its tag.
pub open spec fn any_fixed(variants: Seq<VariantView>) -> bool {
    exists|index: int| 0 <= index < variants.len() && (#[trigger] variants[index]).fixed_tag is Some
}

/// The tags that the decoder of a union accepts, as its failure on any other
/// tag reports them.
#[derive(Clone, Debug, PartialEq, Eq)]
pub enum AllowedVariants {
    /// Every tag from `min` to `max`.
    Range { min: u32, max: u32 },
    /// The listed tag expressions, in declaration order of their variants.
    Allowed(Vec<TagAssignment>),
}

/// The accepted tags, as contracts speak of them.
pub enum AllowedView {
    Range { min: u32, max: u32 },
    Allowed(Seq<TagAssignment>),
}

impl View for AllowedVariants {
    type V = AllowedView;

    open spec fn view(&self) -> AllowedView {
        match self {
            AllowedVariants::Range { min, max } => AllowedView::Range { min: *min, max: *max },
            AllowedVariants::Allowed(tags) => AllowedView::Allowed(tags@),
        }
    }
}

/// The accepted tags of a union that has a variant. Where no variant fixes
/// its tag, they are the positions, from zero to the last. Where one does,
/// they are the assigned tag expressions of all variants, fixed or not.
pub open spec fn allowed_variants(variants: Seq<VariantView>) -> AllowedView {
    if any_fixed(variants) {
        AllowedView::Allowed(assigned_tags(variants))
    } else {
        AllowedView::Range { min: 0, max: (variants.len() - 1) as u32 }
    }
}

/// `last_fixed` finds the nearest fixed tag at or before `index`: no variant
/// between it and `index` fixes a tag, and where it finds none, no variant up
/// to `index` does.
pub proof fn last_fixed_is_nearest(variants: Seq<VariantView>, index: int)
    requires
        0 <= index < variants.len(),
    ensures
        match last_fixed(variants, index) {
            Some(origin) => {
                &&& 0 <= origin <= index
                &&& variants[origin].fixed_tag is Some
                &&& forall|between: int|
                    origin < between <= index ==> (#[trigger] variants[between]).fixed_tag is None
            },
            None => forall|before: int|
                0 <= before <= index ==> (#[trigger] variants[before]).fixed_tag is None,
        },
    decreases index,
{
    if variants[index].fixed_tag is None {
        if index > 0 {
            last_fixed_is_nearest(variants, index - 1);
        } else {
            assert(last_fixed(variants, index - 1) is None);
        }
        assert(last_fixed(variants, index) == last_fixed(variants, index - 1));
    }
}

/// A variant that fixes no tag counts on from the variant before it, and the
/// first variant starts at zero.
pub proof fn tag_counts_on(variants: Seq<VariantView>, index: int)
    requires
        0 <= index < variants.len() <= u32::MAX,
    ensures
        variants[index].fixed_tag is Some ==> assigned_tag(variants, index).value()
            == variants[index].fixed_tag.unwrap(),
        variants[index].fixed_tag is None && index == 0 ==> assigned_tag(variants, index).value()
            == 0,
        variants[index].fixed_tag is None && index > 0 ==> assigned_tag(variants, index).value()
            == assigned_tag(variants, index - 1).value() + 1,
{
    last_fixed_is_nearest(variants, index);
    if index > 0 {
        last_fixed_is_nearest(variants, index - 1);
    }
}

/// Where no variant fixes a tag, every tag is the variant's position.
pub proof fn tags_without_fixed_are_positions(variants: Seq<VariantView>, index: int)
    requires
        0 <= index < variants.len() <= u32::MAX,
        !any_fixed(variants),
    ensures
        assigned_tag(variants, index) == TagAssignment::Literal(index as u32),
{
    last_fixed_is_nearest(variants, index);
}

/// Walks the variants of a union in declaration order and hands out each
/// with its tag expression.
pub struct EnumVariantIterator<'a> {
    variants: &'a Vec<Variant>,
    idx: usize,
    last_val: Option<(u32, u32)>,
}

impl<'a> EnumVariantIterator<'a> {
    /// The variants that are walked.
    pub closed spec fn variants(&self) -> Seq<Variant> {
        self.variants@
    }

    /// How many variants have been handed out.
    pub closed spec fn position(&self) -> nat {
        self.idx as nat
    }

    #[verifier::type_invariant]
    spec fn inv(&self) -> bool {
        &&& self.idx <= self.variants@.len() <= u32::MAX
        &&& self.last_val == match last_fixed(variant_views(self.variants@), self.idx - 1) {
            None => None::<(u32, u32)>,
            Some(origin) => Some(
                (
                    variant_views(self.variants@)[origin].fixed_tag.unwrap(),
                    (self.idx - 1 - origin) as u32,
                ),
            ),
        }
    }

    /// Starts before the first variant. A tag is 32 bits wide, so a union has
    /// no more variants than `u32::MAX`.
    pub fn new(variants: &'a Vec<Variant>) -> (iter: Self)
        requires
            variants@.len() <= u32::MAX,
        ensures
            iter.variants() == variants@,
            iter.position() == 0,
    {
        EnumVariantIterator { variants, idx: 0, last_val: None }
    }

    /// Hands out the next variant with its tag expression, or `None` after
    /// the last one.
    pub fn next(&mut self) -> (item: Option<(TagAssignment, &'a Variant)>)
        ensures
            final(self).variants() == old(self).variants(),
            old(self).position() < old(self).variants().len() ==> {
                &&& final(self).position() == old(self).position() + 1
                &&& item matches Some((tag, variant))
                &&& tag == assigned_tag(
                    variant_views(old(self).variants()),
                    old(self).position() as int,
                )
                &&& *variant == old(self).variants()[old(self).position() as int]
            },
            old(self).position() >= old(self).variants().len() ==> {
                &&& final(self).position() == old(self).position()
                &&& item is None
            },
    {
        proof {
            use_type_invariant(&*self);
        }
        let idx = self.idx;
        let variants = self.variants;
        if idx >= variants.len() {
            return None;
        }
        let variant = &variants[idx];
        let ghost views = variant_views(variants@);
        proof {
            assert(views[idx as int] == variant@);
            if idx > 0 {
                last_fixed_is_nearest(views, idx - 1);
            } else {
                assert(last_fixed(views, idx - 1) is None);
            }
            assert(variant.fixed_tag is None ==> last_fixed(views, idx as int) == last_fixed(
                views,
                idx - 1,
            ));
        }
        let (tag, last_val) = match variant.fixed_tag {
            Some(fixed) => (TagAssignment::Literal(fixed), Some((fixed, 0u32))),
            None => match self.last_val {
                Some((base, offset)) => {
                    let offset: u32 = offset + 1;
                    (TagAssignment::Computed { base, offset }, Some((base, offset)))
                },
                None => (TagAssignment::Literal(idx as u32), None),
            },
        };
        *self = EnumVariantIterator { variants, idx: idx + 1, last_val };
        Some((tag, variant))
    }
}

/// The tag expression of the variant at `index`, or `None` past the last
/// variant.
pub fn tag_of(variants: &Vec<Variant>, index: usize) -> (tag: Option<TagAssignment>)
    requires
        variants@.len() <= u32::MAX,
    ensures
        index < variants@.len() ==> tag == Some(assigned_tag(variant_views(variants@), index as int)),
        index >= variants@.len() ==> tag is None,
{
    let mut iter = EnumVariantIterator::new(variants);
    let mut position: usize = 0;
    loop
        invariant
            iter.variants() == variants@,
            position == iter.position(),
            position <= variants@.len(),
            position <= index,
        ensures
            position == variants@.len() <= index,
        decreases variants@.len() - position,
    {
        match iter.next() {
            None => {
                break ;
            },
            Some((tag, _)) => {
                if position == index {
                    return Some(tag);
                }
                position += 1;
            },
        }
    }
    None
}

/// The tags that the decoder of a union accepts, or `None` for a union
/// without variants, whose decoder accepts none.
pub fn allowed(variants: &Vec<Variant>) -> (allowed: Option<AllowedVariants>)
    requires
        variants@.len() <= u32::MAX,
    ensures
        variants@.len() == 0 ==> allowed is None,
        variants@.len() > 0 ==> allowed is Some && allowed.unwrap()@ == allowed_variants(
            variant_views(variants@),
        ),
{
    let ghost views = variant_views(variants@);
    let count = variants.len();
    if count == 0 {
        return None;
    }
    let mut fixed = false;
    let mut index: usize = 0;
    while index < count
        invariant
            index <= count == views.len(),
            views == variant_views(variants@),
            fixed <==> exists|i: int| 0 <= i < index && (#[trigger] views[i]).fixed_tag is Some,
        decreases count - index,
    {
        if variants[index].fixed_tag.is_some() {
            assert(views[index as int].fixed_tag is Some);
            fixed = true;
        }
        index += 1;
    }
    if !fixed {
        return Some(AllowedVariants::Range { min: 0, max: (count - 1) as u32 });
    }
    let mut tags: Vec<TagAssignment> = Vec::new();
    let mut iter = EnumVariantIterator::new(variants);
    loop
        invariant
            views == variant_views(variants@),
            iter.variants() == variants@,
            iter.position() <= views.len(),
            tags@.len() == iter.position(),
            forall|i: int| 0 <= i < tags@.len() ==> tags@[i] == assigned_tag(views, i),
        ensures
            iter.position() == views.len(),
        decreases views.len() - iter.position(),
    {
        match iter.next() {
            None => {
                break ;
            },
            Some((tag, _)) => {
                tags.push(tag);
            },
        }
    }
    assert(tags@ =~= assigned_tags(views));
    Some(AllowedVariants::Allowed(tags))
}

} // verus!
