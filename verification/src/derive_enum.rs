//! The codec of a union: the tag of the variant, then the fields of that
//! variant in declaration order, with nothing before, between or after them.

use vstd::prelude::*;
use vstd::string::StringExecFns;
use virtue::generate::{Generator, StreamBuilder};
use crate::attribute::{absolute_path, CrateNameAttribute};
use crate::derive_struct::decoder_procedure;
use crate::emission::{
    decode_value, decode_value_code, encode_binding, encode_binding_code, DecodeMode,
};
use crate::error::DeriveError;
use crate::procedure::{
    borrow_decode_procedure, decode_procedure, encode_procedure, target, target_name, written,
    Procedure,
};
use crate::shape::{variant_views, FieldView, FieldsKind, Identity, Variant, VariantView};
use crate::tag::{
    allowed, allowed_variants, assigned_tag, AllowedVariants, AllowedView, EnumVariantIterator,
    TagAssignment,
};
use crate::text::{decimal, decimal_string};
use crate::tokens::{
    group, ident_str, joint_puncts, lexed, lexes, lit_str, lit_u32, lit_usize, new_stream, punct,
    puncts, push_parsed, stream_tokens, Delimiter, Spacing, Token,
};

verus! {

/// A union and the crate of the codec that it is encoded with.
pub struct DeriveEnum {
    pub variants: Vec<Variant>,
    pub crate_name: CrateNameAttribute,
}

impl DeriveEnum {
    /// The variants, as contracts speak of them.
    pub open spec fn views(&self) -> Seq<VariantView> {
        variant_views(self.variants@)
    }
}

/// The brackets of a list of fields, in a pattern.
pub open spec fn pattern_delimiter(kind: FieldsKind) -> Delimiter {
    match kind {
        FieldsKind::Struct => Delimiter::Brace,
        _ => Delimiter::Parenthesis,
    }
}

/// The function that encodes a tag.
pub open spec fn encode_tag_function(root: Seq<char>) -> Seq<char> {
    "<u32 as "@ + root + "::Encode>::encode"@
}

/// The statement that decodes the tag. Both decoders read it the same way: a
/// tag borrows nothing.
pub open spec fn decode_tag_statement(root: Seq<char>) -> Seq<char> {
    "let variant_index = <u32 as "@ + root + "::Decode>::decode(decoder)?;"@
}

/// What the decoder of a union without variants returns: there is no tag
/// that could be valid, so it fails before it reads one.
pub open spec fn empty_enum_failure(root: Seq<char>) -> Seq<char> {
    "core::result::Result::Err("@ + root
        + "::error::DecodeError::EmptyEnum { type_name: core::any::type_name::<Self>() })"@
}

/// The descriptor of a range of accepted tags.
pub open spec fn allowed_range(root: Seq<char>, min: u32, max: u32) -> Seq<char> {
    root + "::error::AllowedEnumVariants::Range { min: "@ + decimal(min as nat) + ", max: "@
        + decimal(max as nat) + " }"@
}

/// The first `count` of a list of tag expressions, with commas between them.
pub open spec fn tag_list(tags: Seq<TagAssignment>, count: nat) -> Seq<Token>
    decreases count,
{
    if count == 0 {
        Seq::empty()
    } else {
        tag_list(tags, (count - 1) as nat) + (if count > 1 {
            seq![Token::Punct(',', Spacing::Alone)]
        } else {
            Seq::empty()
        }) + tags[count - 1].tokens()
    }
}

/// The descriptor of the accepted tags: a range, or a borrowed list.
pub open spec fn allowed_tokens(root: Seq<char>, allowed: AllowedView) -> Seq<Token> {
    match allowed {
        AllowedView::Range { min, max } => lexed(allowed_range(root, min, max)),
        AllowedView::Allowed(tags) => lexed(
            absolute_path(root, "error::AllowedEnumVariants::Allowed"@),
        ) + seq![
            Token::Group(
                Delimiter::Parenthesis,
                seq![
                    Token::Punct('&', Spacing::Alone),
                    Token::Group(Delimiter::Bracket, tag_list(tags, tags.len())),
                ],
            ),
        ],
    }
}

/// Whether the lexer accepts every piece of the descriptor.
pub open spec fn allowed_lexes(root: Seq<char>, allowed: AllowedView) -> bool {
    match allowed {
        AllowedView::Range { min, max } => lexes(allowed_range(root, min, max)),
        AllowedView::Allowed(_) => lexes(
            absolute_path(root, "error::AllowedEnumVariants::Allowed"@),
        ),
    }
}

/// The last arm of the decoder's `match`, which takes every tag that no
/// variant has: it fails with the tag that was found, the name of the type
/// and the tags that are accepted.
pub open spec fn invalid_variant_case(
    root: Seq<char>,
    target: Seq<char>,
    allowed: AllowedView,
) -> Seq<Token> {
    seq![Token::Ident("variant"@)] + joint_puncts("=>"@) + seq![
        Token::Ident("Err"@),
        Token::Group(
            Delimiter::Parenthesis,
            lexed(absolute_path(root, "error::DecodeError::UnexpectedVariant"@)) + seq![
                Token::Group(
                    Delimiter::Brace,
                    seq![
                        Token::Ident("found"@),
                        Token::Punct(':', Spacing::Alone),
                        Token::Ident("variant"@),
                        Token::Punct(',', Spacing::Alone),
                        Token::Ident("type_name"@),
                        Token::Punct(':', Spacing::Alone),
                        Token::Str(target),
                        Token::Punct(',', Spacing::Alone),
                        Token::Ident("allowed"@),
                        Token::Punct(':', Spacing::Alone),
                    ] + allowed_tokens(root, allowed),
                ),
            ],
        ),
    ]
}

/// Whether the lexer accepts every piece of the last arm.
pub open spec fn invalid_variant_lexes(root: Seq<char>, allowed: AllowedView) -> bool {
    &&& lexes(absolute_path(root, "error::DecodeError::UnexpectedVariant"@))
    &&& allowed_lexes(root, allowed)
}

/// What an arm of the decoder's `match` takes for a tag expression: the
/// literal itself, or any tag that equals the sum, since only a literal can
/// be a pattern.
pub open spec fn tag_pattern(tag: TagAssignment) -> Seq<Token> {
    match tag {
        TagAssignment::Literal(_) => tag.tokens(),
        TagAssignment::Computed { .. } => lexed("x if x == "@) + tag.tokens(),
    }
}

/// How a field is named where a variant is built: by its position, or by its
/// name.
pub open spec fn field_key(identity: Identity) -> Seq<Token> {
    match identity {
        Identity::Positional(index) => seq![Token::Usize(index as usize)],
        Identity::Named(name) => lexed(name),
    }
}

/// The first `count` fields of a variant, each decoded into its place.
pub open spec fn decode_fields(
    root: Seq<char>,
    fields: Seq<FieldView>,
    mode: DecodeMode,
    count: nat,
) -> Seq<Token>
    decreases count,
{
    if count == 0 {
        Seq::empty()
    } else {
        decode_fields(root, fields, mode, (count - 1) as nat) + field_key(
            fields[count - 1].identity,
        ) + seq![Token::Punct(':', Spacing::Alone)] + lexed(
            decode_value(root, fields[count - 1].adapter, mode),
        )
    }
}

/// The arm of the decoder's `match` for one variant: on its tag, the fields
/// are decoded in declaration order, each giving up at once where it fails,
/// and the variant is built from them.
pub open spec fn decode_arm(
    root: Seq<char>,
    variant: VariantView,
    tag: TagAssignment,
    mode: DecodeMode,
) -> Seq<Token> {
    tag_pattern(tag) + joint_puncts("=>"@) + seq![
        Token::Ident("Ok"@),
        Token::Group(
            Delimiter::Parenthesis,
            seq![Token::Ident("Self"@)] + joint_puncts("::"@) + lexed(variant.name) + seq![
                Token::Group(
                    Delimiter::Brace,
                    decode_fields(root, variant.fields.fields, mode, variant.fields.fields.len()),
                ),
            ],
        ),
        Token::Punct(',', Spacing::Alone),
    ]
}

/// Whether the lexer accepts the key and the value of a field.
pub open spec fn decode_field_lexes(root: Seq<char>, field: FieldView, mode: DecodeMode) -> bool {
    &&& field.identity matches Identity::Named(name) ==> lexes(name)
    &&& lexes(decode_value(root, field.adapter, mode))
}

/// Whether the lexer accepts every piece of the arm of a variant.
pub open spec fn decode_arm_lexes(
    root: Seq<char>,
    variant: VariantView,
    tag: TagAssignment,
    mode: DecodeMode,
) -> bool {
    &&& tag is Computed ==> lexes("x if x == "@)
    &&& lexes(variant.name)
    &&& forall|i: int|
        0 <= i < variant.fields.fields.len() ==> decode_field_lexes(
            root,
            #[trigger] variant.fields.fields[i],
            mode,
        )
}

/// The arms of the first `count` variants, each on its assigned tag.
pub open spec fn decode_arms(
    root: Seq<char>,
    variants: Seq<VariantView>,
    mode: DecodeMode,
    count: nat,
) -> Seq<Token>
    decreases count,
{
    if count == 0 {
        Seq::empty()
    } else {
        decode_arms(root, variants, mode, (count - 1) as nat) + decode_arm(
            root,
            variants[count - 1],
            assigned_tag(variants, count - 1),
            mode,
        )
    }
}

/// The body of a union's decoder. It decodes the tag and matches on it: an
/// arm for each variant in declaration order, and a last arm that fails on
/// any other tag. The decoder of a union without variants reads nothing and
/// fails.
pub open spec fn enum_decode_body(
    root: Seq<char>,
    target: Seq<char>,
    variants: Seq<VariantView>,
    mode: DecodeMode,
) -> Seq<Token> {
    if variants.len() == 0 {
        lexed(empty_enum_failure(root))
    } else {
        lexed(decode_tag_statement(root)) + lexed("match variant_index"@) + seq![
            Token::Group(
                Delimiter::Brace,
                decode_arms(root, variants, mode, variants.len()) + invalid_variant_case(
                    root,
                    target,
                    allowed_variants(variants),
                ),
            ),
        ]
    }
}

/// Whether the lexer accepts every piece of the body of a union's decoder.
pub open spec fn enum_decode_lexes(
    root: Seq<char>,
    variants: Seq<VariantView>,
    mode: DecodeMode,
) -> bool {
    if variants.len() == 0 {
        lexes(empty_enum_failure(root))
    } else {
        &&& lexes(decode_tag_statement(root))
        &&& lexes("match variant_index"@)
        &&& forall|i: int|
            0 <= i < variants.len() ==> decode_arm_lexes(
                root,
                #[trigger] variants[i],
                assigned_tag(variants, i),
                mode,
            )
        &&& invalid_variant_lexes(root, allowed_variants(variants))
    }
}

/// The variables that the pattern of a variant binds its first `count`
/// fields to, with commas between them.
pub open spec fn pattern_bindings(fields: Seq<FieldView>, count: nat) -> Seq<Token>
    decreases count,
{
    if count == 0 {
        Seq::empty()
    } else {
        pattern_bindings(fields, (count - 1) as nat) + (if count > 1 {
            seq![Token::Punct(',', Spacing::Alone)]
        } else {
            Seq::empty()
        }) + lexed(fields[count - 1].identity.binding())
    }
}

/// The statements that encode the first `count` fields of a variant.
pub open spec fn binding_statements(root: Seq<char>, fields: Seq<FieldView>, count: nat) -> Seq<
    Token,
>
    decreases count,
{
    if count == 0 {
        Seq::empty()
    } else {
        binding_statements(root, fields, (count - 1) as nat) + lexed(
            encode_binding(root, fields[count - 1].identity.binding(), fields[count - 1].adapter),
        )
    }
}

/// The pattern of a variant: `Self::Name`, and the bindings of the fields in
/// their brackets where the variant lists fields.
pub open spec fn variant_pattern(variant: VariantView) -> Seq<Token> {
    seq![Token::Ident("Self"@)] + joint_puncts("::"@) + lexed(variant.name) + (if variant.fields.kind
        == FieldsKind::Unit {
        Seq::empty()
    } else {
        seq![
            Token::Group(
                pattern_delimiter(variant.fields.kind),
                pattern_bindings(variant.fields.fields, variant.fields.fields.len()),
            ),
        ]
    })
}

/// What the encoder does for a variant: it encodes the tag, then the fields
/// in declaration order, each giving up at once where it fails.
pub open spec fn encode_arm_body(root: Seq<char>, variant: VariantView, tag: TagAssignment) -> Seq<
    Token,
> {
    lexed(encode_tag_function(root)) + seq![
        Token::Group(
            Delimiter::Parenthesis,
            seq![
                Token::Punct('&', Spacing::Alone),
                Token::Group(Delimiter::Parenthesis, tag.tokens()),
                Token::Punct(',', Spacing::Alone),
            ] + lexed("encoder"@),
        ),
        Token::Punct('?', Spacing::Alone),
        Token::Punct(';', Spacing::Alone),
    ] + binding_statements(root, variant.fields.fields, variant.fields.fields.len()) + lexed(
        "Ok(())"@,
    )
}

/// The arm of the encoder's `match` for one variant.
pub open spec fn encode_arm(root: Seq<char>, variant: VariantView, tag: TagAssignment) -> Seq<
    Token,
> {
    variant_pattern(variant) + joint_puncts("=>"@) + seq![
        Token::Group(Delimiter::Brace, encode_arm_body(root, variant, tag)),
        Token::Punct(',', Spacing::Alone),
    ]
}

/// Whether the lexer accepts every piece of the arm of a variant.
pub open spec fn encode_arm_lexes(root: Seq<char>, variant: VariantView) -> bool {
    &&& lexes(variant.name)
    &&& forall|i: int|
        0 <= i < variant.fields.fields.len() ==> lexes(
            (#[trigger] variant.fields.fields[i]).identity.binding(),
        )
    &&& lexes(encode_tag_function(root))
    &&& lexes("encoder"@)
    &&& forall|i: int|
        0 <= i < variant.fields.fields.len() ==> lexes(
            encode_binding(
                root,
                (#[trigger] variant.fields.fields[i]).identity.binding(),
                variant.fields.fields[i].adapter,
            ),
        )
    &&& lexes("Ok(())"@)
}

/// The arms of the first `count` variants, each under its assigned tag.
pub open spec fn encode_arms(root: Seq<char>, variants: Seq<VariantView>, count: nat) -> Seq<
    Token,
>
    decreases count,
{
    if count == 0 {
        Seq::empty()
    } else {
        encode_arms(root, variants, (count - 1) as nat) + encode_arm(
            root,
            variants[count - 1],
            assigned_tag(variants, count - 1),
        )
    }
}

/// The body of a union's `encode`: one `match` on the value with an arm for
/// each variant. A union without variants has no value, so its one arm is
/// code that is never reached.
pub open spec fn enum_encode_body(root: Seq<char>, variants: Seq<VariantView>) -> Seq<Token> {
    seq![
        Token::Ident("match"@),
        Token::Ident("self"@),
        Token::Group(
            Delimiter::Brace,
            (if variants.len() == 0 {
                lexed("_ => core::unreachable!()"@)
            } else {
                Seq::empty()
            }) + encode_arms(root, variants, variants.len()),
        ),
    ]
}

/// Whether the lexer accepts every piece of the body of a union's `encode`.
pub open spec fn enum_encode_lexes(root: Seq<char>, variants: Seq<VariantView>) -> bool {
    &&& variants.len() == 0 ==> lexes("_ => core::unreachable!()"@)
    &&& forall|i: int| 0 <= i < variants.len() ==> encode_arm_lexes(root, #[trigger] variants[i])
}

/// Writes the tokens of a tag expression.
fn push_tag(builder: &mut StreamBuilder, tag: TagAssignment)
    ensures
        stream_tokens(*final(builder)) == stream_tokens(*old(builder)) + tag.tokens(),
{
    match tag {
        TagAssignment::Literal(literal) => {
            lit_u32(builder, literal);
        },
        TagAssignment::Computed { base, offset } => {
            lit_u32(builder, base);
            punct(builder, '+');
            lit_u32(builder, offset);
        },
    }
    assert(stream_tokens(*builder) =~= stream_tokens(*old(builder)) + tag.tokens());
}

impl DeriveEnum {
    /// Starts a walk over the variants and their tags.
    fn iter_fields(&self) -> (iter: EnumVariantIterator<'_>)
        requires
            self.variants@.len() <= u32::MAX,
        ensures
            iter.variants() == self.variants@,
            iter.position() == 0,
    {
        EnumVariantIterator::new(&self.variants)
    }

    /// The arm of the encoder of a union without variants: the code in it is
    /// never reached.
    fn encode_empty_enum_case(&self, builder: &mut StreamBuilder) -> (res: Result<
        (),
        virtue::Error,
    >)
        ensures
            res is Ok <==> lexes("_ => core::unreachable!()"@),
            res is Ok ==> stream_tokens(*final(builder)) == stream_tokens(*old(builder)) + lexed(
                "_ => core::unreachable!()"@,
            ),
    {
        push_parsed(builder, "_ => core::unreachable!()")
    }

    /// Writes the pattern of a variant.
    fn encode_pattern(&self, arms: &mut StreamBuilder, variant: &Variant) -> (res: Result<
        (),
        virtue::Error,
    >)
        ensures
            res is Ok <==> lexes(variant@.name) && forall|i: int|
                0 <= i < variant@.fields.fields.len() ==> lexes(
                    (#[trigger] variant@.fields.fields[i]).identity.binding(),
                ),
            res is Ok ==> stream_tokens(*final(arms)) == stream_tokens(*old(arms))
                + variant_pattern(variant@),
    {
        proof {
            reveal_strlit("Self");
            reveal_strlit("::");
        }
        ident_str(arms, "Self");
        puncts(arms, "::");
        match push_parsed(arms, variant.name.as_str()) {
            Ok(()) => {},
            Err(error) => {
                return Err(error);
            },
        }
        let ghost fields = variant@.fields.fields;
        let count = variant.fields.len();
        let mut bindings = new_stream();
        let mut index: usize = 0;
        while index < count
            invariant
                index <= count == fields.len(),
                fields == variant@.fields.fields,
                forall|i: int| 0 <= i < index ==> lexes((#[trigger] fields[i]).identity.binding()),
                stream_tokens(bindings) == pattern_bindings(fields, index as nat),
            decreases count - index,
        {
            if index != 0 {
                punct(&mut bindings, ',');
            }
            let binding = variant.fields.binding(index).unwrap();
            match push_parsed(&mut bindings, binding.as_str()) {
                Ok(()) => {},
                Err(error) => {
                    return Err(error);
                },
            }
            assert(stream_tokens(bindings) =~= pattern_bindings(fields, (index + 1) as nat));
            index += 1;
        }
        match variant.fields.kind() {
            FieldsKind::Unit => {},
            FieldsKind::Tuple => {
                group(arms, Delimiter::Parenthesis, bindings);
            },
            FieldsKind::Struct => {
                group(arms, Delimiter::Brace, bindings);
            },
        }
        assert(stream_tokens(*arms) =~= stream_tokens(*old(arms)) + variant_pattern(variant@));
        Ok(())
    }

    /// Writes what the encoder does for a variant.
    fn encode_variant(&self, body: &mut StreamBuilder, tag: TagAssignment, variant: &Variant) -> (res:
        Result<(), virtue::Error>)
        ensures
            res is Ok <==> {
                &&& lexes(encode_tag_function(self.crate_name@))
                &&& lexes("encoder"@)
                &&& forall|i: int|
                    0 <= i < variant@.fields.fields.len() ==> lexes(
                        encode_binding(
                            self.crate_name@,
                            (#[trigger] variant@.fields.fields[i]).identity.binding(),
                            variant@.fields.fields[i].adapter,
                        ),
                    )
                &&& lexes("Ok(())"@)
            },
            res is Ok ==> stream_tokens(*final(body)) == stream_tokens(*old(body))
                + encode_arm_body(self.crate_name@, variant@, tag),
    {
        let ghost root = self.crate_name@;
        let ghost fields = variant@.fields.fields;
        let mut function = String::from_str("<u32 as ");
        function.append(self.crate_name.name.as_str());
        function.append("::Encode>::encode");
        match push_parsed(body, function.as_str()) {
            Ok(()) => {},
            Err(error) => {
                return Err(error);
            },
        }
        let mut number = new_stream();
        push_tag(&mut number, tag);
        assert(stream_tokens(number) =~= tag.tokens());
        let mut arguments = new_stream();
        punct(&mut arguments, '&');
        group(&mut arguments, Delimiter::Parenthesis, number);
        punct(&mut arguments, ',');
        match push_parsed(&mut arguments, "encoder") {
            Ok(()) => {},
            Err(error) => {
                return Err(error);
            },
        }
        assert(stream_tokens(arguments) =~= seq![
            Token::Punct('&', Spacing::Alone),
            Token::Group(Delimiter::Parenthesis, tag.tokens()),
            Token::Punct(',', Spacing::Alone),
        ] + lexed("encoder"@));
        group(body, Delimiter::Parenthesis, arguments);
        punct(body, '?');
        punct(body, ';');
        let ghost before = stream_tokens(*body);
        assert(before =~= stream_tokens(*old(body)) + lexed(encode_tag_function(root)) + seq![
            Token::Group(
                Delimiter::Parenthesis,
                seq![
                    Token::Punct('&', Spacing::Alone),
                    Token::Group(Delimiter::Parenthesis, tag.tokens()),
                    Token::Punct(',', Spacing::Alone),
                ] + lexed("encoder"@),
            ),
            Token::Punct('?', Spacing::Alone),
            Token::Punct(';', Spacing::Alone),
        ]);
        let count = variant.fields.len();
        let mut index: usize = 0;
        while index < count
            invariant
                index <= count == fields.len(),
                root == self.crate_name@,
                fields == variant@.fields.fields,
                forall|i: int|
                    0 <= i < index ==> lexes(
                        encode_binding(
                            root,
                            (#[trigger] fields[i]).identity.binding(),
                            fields[i].adapter,
                        ),
                    ),
                stream_tokens(*body) == before + binding_statements(root, fields, index as nat),
            decreases count - index,
        {
            let binding = variant.fields.binding(index).unwrap();
            let adapter = variant.fields.adapter(index).unwrap();
            let code = encode_binding_code(
                self.crate_name.name.as_str(),
                binding.as_str(),
                adapter,
            );
            match push_parsed(body, code.as_str()) {
                Ok(()) => {},
                Err(error) => {
                    return Err(error);
                },
            }
            index += 1;
        }
        match push_parsed(body, "Ok(())") {
            Ok(()) => {},
            Err(error) => {
                return Err(error);
            },
        }
        assert(stream_tokens(*body) =~= stream_tokens(*old(body)) + encode_arm_body(
            root,
            variant@,
            tag,
        ));
        Ok(())
    }

    /// Writes the arm of the encoder's `match` for one variant.
    fn encode_variant_arm(&self, arms: &mut StreamBuilder, tag: TagAssignment, variant: &Variant) -> (res:
        Result<(), virtue::Error>)
        ensures
            res is Ok <==> encode_arm_lexes(self.crate_name@, variant@),
            res is Ok ==> stream_tokens(*final(arms)) == stream_tokens(*old(arms)) + encode_arm(
                self.crate_name@,
                variant@,
                tag,
            ),
    {
        match self.encode_pattern(arms, variant) {
            Ok(()) => {},
            Err(error) => {
                return Err(error);
            },
        }
        proof {
            reveal_strlit("=>");
        }
        puncts(arms, "=>");
        let mut body = new_stream();
        match self.encode_variant(&mut body, tag, variant) {
            Ok(()) => {},
            Err(error) => {
                return Err(error);
            },
        }
        group(arms, Delimiter::Brace, body);
        punct(arms, ',');
        assert(stream_tokens(*arms) =~= stream_tokens(*old(arms)) + encode_arm(
            self.crate_name@,
            variant@,
            tag,
        ));
        Ok(())
    }

    /// Writes the body of `encode`.
    fn encode_body(&self, body: &mut StreamBuilder) -> (res: Result<(), virtue::Error>)
        requires
            self.variants@.len() <= u32::MAX,
        ensures
            res is Ok <==> enum_encode_lexes(self.crate_name@, self.views()),
            res is Ok ==> stream_tokens(*final(body)) == stream_tokens(*old(body))
                + enum_encode_body(self.crate_name@, self.views()),
    {
        let ghost root = self.crate_name@;
        let ghost views = self.views();
        proof {
            reveal_strlit("match");
            reveal_strlit("self");
        }
        ident_str(body, "match");
        ident_str(body, "self");
        let mut arms = new_stream();
        if self.variants.len() == 0 {
            match self.encode_empty_enum_case(&mut arms) {
                Ok(()) => {},
                Err(error) => {
                    return Err(error);
                },
            }
        }
        let ghost start = stream_tokens(arms);
        let mut iter = self.iter_fields();
        loop
            invariant
                root == self.crate_name@,
                views == self.views(),
                iter.variants() == self.variants@,
                iter.position() <= views.len(),
                forall|i: int| 0 <= i < iter.position() ==> encode_arm_lexes(root, #[trigger] views[i]),
                stream_tokens(arms) == start + encode_arms(root, views, iter.position()),
            ensures
                iter.position() == views.len(),
            decreases views.len() - iter.position(),
        {
            match iter.next() {
                None => {
                    break ;
                },
                Some((tag, variant)) => {
                    match self.encode_variant_arm(&mut arms, tag, variant) {
                        Ok(()) => {},
                        Err(error) => {
                            assert(!encode_arm_lexes(root, views[iter.position() - 1]));
                            return Err(error);
                        },
                    }
                },
            }
        }
        group(body, Delimiter::Brace, arms);
        assert(stream_tokens(*body) =~= stream_tokens(*old(body)) + enum_encode_body(root, views));
        Ok(())
    }

    /// Writes `encode` for the union into the generator: an `impl` block of
    /// the codec's `Encode` whose procedure matches on the value and, for the
    /// variant it finds, encodes the assigned tag and then the fields in
    /// declaration order. It fails where the lexer rejects a piece of the
    /// code, which the crate's name, a variant's or a field's name can bring
    /// about, and then writes nothing.
    pub fn generate_encode(self, generator: &mut Generator) -> (res: Result<(), DeriveError>)
        requires
            self.variants@.len() <= u32::MAX,
        ensures
            written(
                *old(generator),
                *final(generator),
                res,
                encode_procedure(self.crate_name@),
                enum_encode_lexes(self.crate_name@, self.views()),
                enum_encode_body(self.crate_name@, self.views()),
            ),
    {
        let procedure = Procedure::encode(&self.crate_name);
        let mut body = new_stream();
        match self.encode_body(&mut body) {
            Ok(()) => {},
            Err(error) => {
                return Err(DeriveError::Generate(error));
            },
        }
        procedure.write(generator, body)
    }
}

/// Writes a list of tag expressions with commas between them.
fn push_tag_list(builder: &mut StreamBuilder, tags: &Vec<TagAssignment>)
    ensures
        stream_tokens(*final(builder)) == stream_tokens(*old(builder)) + tag_list(
            tags@,
            tags@.len(),
        ),
{
    let mut index: usize = 0;
    while index < tags.len()
        invariant
            index <= tags@.len(),
            stream_tokens(*builder) == stream_tokens(*old(builder)) + tag_list(tags@, index as nat),
        decreases tags@.len() - index,
    {
        if index != 0 {
            punct(builder, ',');
        }
        push_tag(builder, tags[index]);
        assert(stream_tokens(*builder) =~= stream_tokens(*old(builder)) + tag_list(
            tags@,
            (index + 1) as nat,
        ));
        index += 1;
    }
}

/// Writes the descriptor of a range of accepted tags.
pub fn allowed_range_code(root: &str, min: u32, max: u32) -> (code: String)
    ensures
        code@ == allowed_range(root@, min, max),
{
    let mut code = String::from_str(root);
    code.append("::error::AllowedEnumVariants::Range { min: ");
    code.append(decimal_string(min as usize).as_str());
    code.append(", max: ");
    code.append(decimal_string(max as usize).as_str());
    code.append(" }");
    code
}

impl DeriveEnum {
    /// The tags that the decoder accepts, or `None` for a union without
    /// variants, whose decoder accepts none.
    pub fn allowed_variants(&self) -> (allowed: Option<AllowedVariants>)
        requires
            self.variants@.len() <= u32::MAX,
        ensures
            self.variants@.len() == 0 ==> allowed is None,
            self.variants@.len() > 0 ==> allowed is Some && allowed.unwrap()@ == allowed_variants(
                self.views(),
            ),
    {
        allowed(&self.variants)
    }

    /// Writes the last arm of the decoder's `match` for a union that has a
    /// variant: the failure on a tag that no variant has.
    fn invalid_variant_case(&self, enum_name: &str, result: &mut StreamBuilder) -> (res: Result<
        (),
        virtue::Error,
    >)
        requires
            0 < self.variants@.len() <= u32::MAX,
        ensures
            res is Ok <==> invalid_variant_lexes(
                self.crate_name@,
                allowed_variants(self.views()),
            ),
            res is Ok ==> stream_tokens(*final(result)) == stream_tokens(*old(result))
                + invalid_variant_case(
                self.crate_name@,
                enum_name@,
                allowed_variants(self.views()),
            ),
    {
        let ghost root = self.crate_name@;
        let ghost allowed_view = allowed_variants(self.views());
        proof {
            reveal_strlit("variant");
            reveal_strlit("=>");
            reveal_strlit("Err");
            reveal_strlit("found");
            reveal_strlit("type_name");
            reveal_strlit("allowed");
        }
        let mut inner = new_stream();
        ident_str(&mut inner, "found");
        punct(&mut inner, ':');
        ident_str(&mut inner, "variant");
        punct(&mut inner, ',');
        ident_str(&mut inner, "type_name");
        punct(&mut inner, ':');
        lit_str(&mut inner, enum_name);
        punct(&mut inner, ',');
        ident_str(&mut inner, "allowed");
        punct(&mut inner, ':');
        let ghost head = stream_tokens(inner);
        assert(head =~= seq![
            Token::Ident("found"@),
            Token::Punct(':', Spacing::Alone),
            Token::Ident("variant"@),
            Token::Punct(',', Spacing::Alone),
            Token::Ident("type_name"@),
            Token::Punct(':', Spacing::Alone),
            Token::Str(enum_name@),
            Token::Punct(',', Spacing::Alone),
            Token::Ident("allowed"@),
            Token::Punct(':', Spacing::Alone),
        ]);
        match self.allowed_variants().unwrap() {
            AllowedVariants::Allowed(tags) => {
                let path = self.crate_name.ty("error::AllowedEnumVariants::Allowed");
                match push_parsed(&mut inner, path.as_str()) {
                    Ok(()) => {},
                    Err(error) => {
                        return Err(error);
                    },
                }
                let mut list = new_stream();
                push_tag_list(&mut list, &tags);
                assert(stream_tokens(list) =~= tag_list(tags@, tags@.len()));
                let mut borrowed = new_stream();
                punct(&mut borrowed, '&');
                group(&mut borrowed, Delimiter::Bracket, list);
                assert(stream_tokens(borrowed) =~= seq![
                    Token::Punct('&', Spacing::Alone),
                    Token::Group(Delimiter::Bracket, tag_list(tags@, tags@.len())),
                ]);
                group(&mut inner, Delimiter::Parenthesis, borrowed);
            },
            AllowedVariants::Range { min, max } => {
                let code = allowed_range_code(self.crate_name.name.as_str(), min, max);
                match push_parsed(&mut inner, code.as_str()) {
                    Ok(()) => {},
                    Err(error) => {
                        return Err(error);
                    },
                }
            },
        }
        assert(stream_tokens(inner) =~= head + allowed_tokens(root, allowed_view));
        let mut failure = new_stream();
        let path = self.crate_name.ty("error::DecodeError::UnexpectedVariant");
        match push_parsed(&mut failure, path.as_str()) {
            Ok(()) => {},
            Err(error) => {
                return Err(error);
            },
        }
        group(&mut failure, Delimiter::Brace, inner);
        assert(stream_tokens(failure) =~= lexed(
            absolute_path(root, "error::DecodeError::UnexpectedVariant"@),
        ) + seq![Token::Group(Delimiter::Brace, head + allowed_tokens(root, allowed_view))]);
        ident_str(result, "variant");
        puncts(result, "=>");
        ident_str(result, "Err");
        group(result, Delimiter::Parenthesis, failure);
        assert(stream_tokens(*result) =~= stream_tokens(*old(result)) + invalid_variant_case(
            root,
            enum_name@,
            allowed_view,
        ));
        Ok(())
    }

    /// Writes the fields of a variant, each decoded into its place.
    fn decode_variant_fields(&self, fields: &mut StreamBuilder, variant: &Variant, mode: DecodeMode) -> (res:
        Result<(), virtue::Error>)
        ensures
            res is Ok <==> forall|i: int|
                0 <= i < variant@.fields.fields.len() ==> decode_field_lexes(
                    self.crate_name@,
                    #[trigger] variant@.fields.fields[i],
                    mode,
                ),
            res is Ok ==> stream_tokens(*final(fields)) == stream_tokens(*old(fields))
                + decode_fields(
                self.crate_name@,
                variant@.fields.fields,
                mode,
                variant@.fields.fields.len(),
            ),
    {
        let ghost root = self.crate_name@;
        let ghost views = variant@.fields.fields;
        let is_tuple = match variant.fields.kind() {
            FieldsKind::Tuple => true,
            _ => false,
        };
        let count = variant.fields.len();
        let mut index: usize = 0;
        while index < count
            invariant
                index <= count == views.len(),
                root == self.crate_name@,
                views == variant@.fields.fields,
                is_tuple <==> variant@.fields.kind == FieldsKind::Tuple,
                forall|i: int| 0 <= i < index ==> decode_field_lexes(root, #[trigger] views[i], mode),
                stream_tokens(*fields) == stream_tokens(*old(fields)) + decode_fields(
                    root,
                    views,
                    mode,
                    index as nat,
                ),
            decreases count - index,
        {
            let ghost before = stream_tokens(*fields);
            if is_tuple {
                lit_usize(fields, index);
            } else {
                let name = variant.fields.member(index).unwrap();
                match push_parsed(fields, name.as_str()) {
                    Ok(()) => {},
                    Err(error) => {
                        return Err(error);
                    },
                }
            }
            assert(stream_tokens(*fields) =~= before + field_key(views[index as int].identity));
            punct(fields, ':');
            let adapter = variant.fields.adapter(index).unwrap();
            let code = decode_value_code(self.crate_name.name.as_str(), adapter, mode);
            match push_parsed(fields, code.as_str()) {
                Ok(()) => {},
                Err(error) => {
                    return Err(error);
                },
            }
            assert(stream_tokens(*fields) =~= stream_tokens(*old(fields)) + decode_fields(
                root,
                views,
                mode,
                (index + 1) as nat,
            ));
            index += 1;
        }
        Ok(())
    }

    /// Writes the arm of the decoder's `match` for one variant.
    fn decode_variant_arm(
        &self,
        arms: &mut StreamBuilder,
        tag: TagAssignment,
        variant: &Variant,
        mode: DecodeMode,
    ) -> (res: Result<(), virtue::Error>)
        ensures
            res is Ok <==> decode_arm_lexes(self.crate_name@, variant@, tag, mode),
            res is Ok ==> stream_tokens(*final(arms)) == stream_tokens(*old(arms)) + decode_arm(
                self.crate_name@,
                variant@,
                tag,
                mode,
            ),
    {
        let ghost root = self.crate_name@;
        proof {
            reveal_strlit("=>");
            reveal_strlit("::");
            reveal_strlit("Ok");
            reveal_strlit("Self");
        }
        if !tag.is_literal() {
            match push_parsed(arms, "x if x == ") {
                Ok(()) => {},
                Err(error) => {
                    return Err(error);
                },
            }
        }
        push_tag(arms, tag);
        assert(stream_tokens(*arms) =~= stream_tokens(*old(arms)) + tag_pattern(tag));
        puncts(arms, "=>");
        ident_str(arms, "Ok");
        let mut value = new_stream();
        ident_str(&mut value, "Self");
        puncts(&mut value, "::");
        match push_parsed(&mut value, variant.name.as_str()) {
            Ok(()) => {},
            Err(error) => {
                return Err(error);
            },
        }
        let mut fields = new_stream();
        match self.decode_variant_fields(&mut fields, variant, mode) {
            Ok(()) => {},
            Err(error) => {
                return Err(error);
            },
        }
        assert(stream_tokens(fields) =~= decode_fields(
            root,
            variant@.fields.fields,
            mode,
            variant@.fields.fields.len(),
        ));
        group(&mut value, Delimiter::Brace, fields);
        assert(stream_tokens(value) =~= seq![Token::Ident("Self"@)] + joint_puncts("::"@) + lexed(
            variant@.name,
        ) + seq![
            Token::Group(
                Delimiter::Brace,
                decode_fields(root, variant@.fields.fields, mode, variant@.fields.fields.len()),
            ),
        ]);
        group(arms, Delimiter::Parenthesis, value);
        punct(arms, ',');
        assert(stream_tokens(*arms) =~= stream_tokens(*old(arms)) + decode_arm(
            root,
            variant@,
            tag,
            mode,
        ));
        Ok(())
    }

    /// Writes the body of the decoder of the given mode.
    fn decode_body(&self, body: &mut StreamBuilder, enum_name: &str, mode: DecodeMode) -> (res:
        Result<(), virtue::Error>)
        requires
            self.variants@.len() <= u32::MAX,
        ensures
            res is Ok <==> enum_decode_lexes(self.crate_name@, self.views(), mode),
            res is Ok ==> stream_tokens(*final(body)) == stream_tokens(*old(body))
                + enum_decode_body(self.crate_name@, enum_name@, self.views(), mode),
    {
        let ghost root = self.crate_name@;
        let ghost views = self.views();
        if self.variants.len() == 0 {
            let mut failure = String::from_str("core::result::Result::Err(");
            failure.append(self.crate_name.name.as_str());
            failure.append(
                "::error::DecodeError::EmptyEnum { type_name: core::any::type_name::<Self>() })",
            );
            return push_parsed(body, failure.as_str());
        }
        let mut statement = String::from_str("let variant_index = <u32 as ");
        statement.append(self.crate_name.name.as_str());
        statement.append("::Decode>::decode(decoder)?;");
        match push_parsed(body, statement.as_str()) {
            Ok(()) => {},
            Err(error) => {
                return Err(error);
            },
        }
        match push_parsed(body, "match variant_index") {
            Ok(()) => {},
            Err(error) => {
                return Err(error);
            },
        }
        let mut arms = new_stream();
        let mut iter = self.iter_fields();
        loop
            invariant
                root == self.crate_name@,
                views == self.views(),
                iter.variants() == self.variants@,
                iter.position() <= views.len(),
                forall|i: int|
                    0 <= i < iter.position() ==> decode_arm_lexes(
                        root,
                        #[trigger] views[i],
                        assigned_tag(views, i),
                        mode,
                    ),
                stream_tokens(arms) == decode_arms(root, views, mode, iter.position()),
            ensures
                iter.position() == views.len(),
            decreases views.len() - iter.position(),
        {
            match iter.next() {
                None => {
                    break ;
                },
                Some((tag, variant)) => {
                    match self.decode_variant_arm(&mut arms, tag, variant, mode) {
                        Ok(()) => {},
                        Err(error) => {
                            assert(!decode_arm_lexes(
                                root,
                                views[iter.position() - 1],
                                assigned_tag(views, iter.position() - 1),
                                mode,
                            ));
                            return Err(error);
                        },
                    }
                },
            }
        }
        match self.invalid_variant_case(enum_name, &mut arms) {
            Ok(()) => {},
            Err(error) => {
                return Err(error);
            },
        }
        group(body, Delimiter::Brace, arms);
        assert(stream_tokens(*body) =~= stream_tokens(*old(body)) + enum_decode_body(
            root,
            enum_name@,
            views,
            mode,
        ));
        Ok(())
    }

    /// Writes the decoder of the given mode into the generator.
    fn generate_decoder(&self, generator: &mut Generator, mode: DecodeMode) -> (res: Result<
        (),
        DeriveError,
    >)
        requires
            self.variants@.len() <= u32::MAX,
        ensures
            written(
                *old(generator),
                *final(generator),
                res,
                decoder_procedure(self.crate_name@, mode),
                enum_decode_lexes(self.crate_name@, self.views(), mode),
                enum_decode_body(self.crate_name@, target_name(*old(generator)), self.views(), mode),
            ),
    {
        let enum_name = target(generator);
        let procedure = match mode {
            DecodeMode::Owning => Procedure::decode(&self.crate_name),
            DecodeMode::Borrowing => Procedure::borrow_decode(&self.crate_name),
        };
        let mut body = new_stream();
        match self.decode_body(&mut body, enum_name.as_str(), mode) {
            Ok(()) => {},
            Err(error) => {
                return Err(DeriveError::Generate(error));
            },
        }
        procedure.write(generator, body)
    }

    /// Writes `decode` for the union into the generator: an `impl` block of
    /// the codec's `Decode` whose procedure decodes a tag, finds the variant
    /// that was assigned it, decodes the fields of that variant in
    /// declaration order and builds it. On a tag that no variant has the
    /// procedure fails, and says which tag it found, for which type, and which
    /// tags it accepts. For a union without variants it fails at once. The
    /// synthesis itself fails where the lexer rejects a piece of the code, and
    /// then writes nothing.
    pub fn generate_decode(&self, generator: &mut Generator) -> (res: Result<(), DeriveError>)
        requires
            self.variants@.len() <= u32::MAX,
        ensures
            written(
                *old(generator),
                *final(generator),
                res,
                decode_procedure(self.crate_name@),
                enum_decode_lexes(self.crate_name@, self.views(), DecodeMode::Owning),
                enum_decode_body(
                    self.crate_name@,
                    target_name(*old(generator)),
                    self.views(),
                    DecodeMode::Owning,
                ),
            ),
    {
        self.generate_decoder(generator, DecodeMode::Owning)
    }

    /// Writes `borrow_decode` for the union into the generator. The code is
    /// that of `decode` but for the names of the trait, of its function and of
    /// the adapter; the tag is read in the same way. The synthesis fails where
    /// the lexer rejects a piece of the code, and then writes nothing.
    pub fn generate_borrow_decode(self, generator: &mut Generator) -> (res: Result<
        (),
        DeriveError,
    >)
        requires
            self.variants@.len() <= u32::MAX,
        ensures
            written(
                *old(generator),
                *final(generator),
                res,
                borrow_decode_procedure(self.crate_name@),
                enum_decode_lexes(self.crate_name@, self.views(), DecodeMode::Borrowing),
                enum_decode_body(
                    self.crate_name@,
                    target_name(*old(generator)),
                    self.views(),
                    DecodeMode::Borrowing,
                ),
            ),
    {
        self.generate_decoder(generator, DecodeMode::Borrowing)
    }
}

} // verus!
