use bincode_derive::shape::{Fields, Variant};
use bincode_derive::tag::{allowed, tag_of, AllowedVariants, EnumVariantIterator, TagAssignment};

fn variant(name: &str, fixed_tag: Option<u32>) -> Variant {
    Variant { name: name.to_string(), fields: Fields::Unit, fixed_tag }
}

fn mixed() -> Vec<Variant> {
    vec![
        variant("A", None),
        variant("B", Some(5)),
        variant("C", None),
        variant("D", Some(2)),
        variant("E", None),
    ]
}

fn tags(variants: &Vec<Variant>) -> Vec<TagAssignment> {
    let mut iter = EnumVariantIterator::new(variants);
    let mut tags = Vec::new();
    while let Some((tag, _)) = iter.next() {
        tags.push(tag);
    }
    tags
}

#[test]
fn tags_count_on_from_the_last_fixed_tag() {
    assert_eq!(
        tags(&mixed()),
        vec![
            TagAssignment::Literal(0),
            TagAssignment::Literal(5),
            TagAssignment::Computed { base: 5, offset: 1 },
            TagAssignment::Literal(2),
            TagAssignment::Computed { base: 2, offset: 1 },
        ]
    );
}

#[test]
fn tags_evaluate_to_the_assigned_numbers() {
    let values: Vec<Option<u32>> = tags(&mixed()).iter().map(|tag| tag.evaluate()).collect();
    assert_eq!(values, vec![Some(0), Some(5), Some(6), Some(2), Some(3)]);
}

#[test]
fn tags_without_fixed_are_positions() {
    let variants = vec![variant("A", None), variant("B", None), variant("C", None)];
    assert_eq!(
        tags(&variants),
        vec![TagAssignment::Literal(0), TagAssignment::Literal(1), TagAssignment::Literal(2)]
    );
}

#[test]
fn tags_after_a_fixed_tag_keep_counting() {
    let variants = vec![variant("A", Some(7)), variant("B", None), variant("C", None), variant("D", None)];
    assert_eq!(
        tags(&variants),
        vec![
            TagAssignment::Literal(7),
            TagAssignment::Computed { base: 7, offset: 1 },
            TagAssignment::Computed { base: 7, offset: 2 },
            TagAssignment::Computed { base: 7, offset: 3 },
        ]
    );
}

#[test]
fn tags_may_collide() {
    let variants = vec![variant("A", None), variant("B", None), variant("C", Some(1))];
    let values: Vec<Option<u32>> = tags(&variants).iter().map(|tag| tag.evaluate()).collect();
    assert_eq!(values, vec![Some(0), Some(1), Some(1)]);
}

#[test]
fn iterator_hands_out_each_variant_once() {
    let variants = mixed();
    let mut iter = EnumVariantIterator::new(&variants);
    let mut names = Vec::new();
    while let Some((_, variant)) = iter.next() {
        names.push(variant.name.clone());
    }
    assert_eq!(names, vec!["A", "B", "C", "D", "E"]);
    assert!(iter.next().is_none());
    assert!(iter.next().is_none());
}

#[test]
fn iterator_over_no_variants_is_empty() {
    let variants: Vec<Variant> = Vec::new();
    let mut iter = EnumVariantIterator::new(&variants);
    assert!(iter.next().is_none());
}

#[test]
fn tag_of_a_position() {
    let variants = mixed();
    assert_eq!(tag_of(&variants, 0), Some(TagAssignment::Literal(0)));
    assert_eq!(tag_of(&variants, 2), Some(TagAssignment::Computed { base: 5, offset: 1 }));
    assert_eq!(tag_of(&variants, 4), Some(TagAssignment::Computed { base: 2, offset: 1 }));
    assert_eq!(tag_of(&variants, 5), None);
}

#[test]
fn a_sum_past_the_width_of_a_tag_has_no_value() {
    let tag = TagAssignment::Computed { base: u32::MAX, offset: 1 };
    assert_eq!(tag.evaluate(), None);
    assert_eq!(TagAssignment::Computed { base: u32::MAX - 1, offset: 1 }.evaluate(), Some(u32::MAX));
}

#[test]
fn only_a_literal_is_a_pattern() {
    assert!(TagAssignment::Literal(3).is_literal());
    assert!(!TagAssignment::Computed { base: 3, offset: 1 }.is_literal());
}

#[test]
fn allowed_is_a_range_without_fixed_tags() {
    let variants = vec![variant("A", None), variant("B", None), variant("C", None)];
    assert_eq!(allowed(&variants), Some(AllowedVariants::Range { min: 0, max: 2 }));
}

#[test]
fn allowed_lists_every_tag_where_one_is_fixed() {
    let variants = vec![variant("A", None), variant("B", Some(5)), variant("C", None)];
    assert_eq!(
        allowed(&variants),
        Some(AllowedVariants::Allowed(vec![
            TagAssignment::Literal(0),
            TagAssignment::Literal(5),
            TagAssignment::Computed { base: 5, offset: 1 },
        ]))
    );
}

#[test]
fn allowed_of_one_variant() {
    assert_eq!(allowed(&vec![variant("A", None)]), Some(AllowedVariants::Range { min: 0, max: 0 }));
}

#[test]
fn allowed_of_no_variants_is_nothing() {
    assert_eq!(allowed(&Vec::new()), None);
}
