//! Limits, error types and the check that an [`Embed`] respects them.

use vstd::prelude::*;

use crate::decimal::{decimal_text, push_decimal};
use crate::embed::{Embed, EmbedField};

verus! {

/// The maximum embed author name length in codepoints.
pub const AUTHOR_NAME_LENGTH: usize = 256;

/// The maximum embed description length in codepoints.
pub const DESCRIPTION_LENGTH: usize = 4096;

/// The maximum combined embed length in codepoints.
pub const EMBED_TOTAL_LENGTH: usize = 6000;

/// The maximum number of fields in an embed.
pub const FIELD_COUNT: usize = 25;

/// The maximum length of an embed field name in codepoints.
pub const FIELD_NAME_LENGTH: usize = 256;

/// The maximum length of an embed field value in codepoints.
pub const FIELD_VALUE_LENGTH: usize = 1024;

/// The maximum embed footer length in codepoints.
pub const FOOTER_TEXT_LENGTH: usize = 2048;

/// The maximum embed title length in codepoints.
pub const TITLE_LENGTH: usize = 256;

/// Type of [`EmbedValidationError`] that occurred.
#[derive(Clone, Copy, Debug, PartialEq, Eq)]
#[non_exhaustive]
pub enum EmbedValidationErrorType {
    /// The embed author's name is larger than [`AUTHOR_NAME_LENGTH`].
    AuthorNameTooLarge {
        /// The number of codepoints that were provided.
        chars: usize,
    },
    /// The embed description is larger than [`DESCRIPTION_LENGTH`].
    DescriptionTooLarge {
        /// The number of codepoints that were provided.
        chars: usize,
    },
    /// The combined content of the author name, description, footer, field
    /// names and values, and title is larger than [`EMBED_TOTAL_LENGTH`].
    EmbedTooLarge {
        /// The number of codepoints that were provided.
        chars: usize,
    },
    /// A field's name is larger than [`FIELD_NAME_LENGTH`].
    FieldNameTooLarge {
        /// The number of codepoints that were provided.
        chars: usize,
    },
    /// A field's value is larger than [`FIELD_VALUE_LENGTH`].
    FieldValueTooLarge {
        /// The number of codepoints that were provided.
        chars: usize,
    },
    /// The footer text is larger than [`FOOTER_TEXT_LENGTH`].
    FooterTextTooLarge {
        /// The number of codepoints that were provided.
        chars: usize,
    },
    /// The title is larger than [`TITLE_LENGTH`].
    TitleTooLarge {
        /// The number of codepoints that were provided.
        chars: usize,
    },
    /// There are more than [`FIELD_COUNT`] fields in the embed.
    TooManyFields {
        /// The number of fields that were provided.
        amount: usize,
    },
}

/// Underlying cause of a validation error; embed errors never carry one.
#[derive(Debug)]
pub struct ErrorSource;

/// An embed is not valid.
#[derive(Debug)]
pub struct EmbedValidationError {
    kind: EmbedValidationErrorType,
}

impl View for EmbedValidationError {
    type V = EmbedValidationErrorType;

    closed spec fn view(&self) -> EmbedValidationErrorType {
        self.kind
    }
}

impl EmbedValidationError {
    /// An error of the given type.
    pub fn new(kind: EmbedValidationErrorType) -> (res: Self)
        ensures
            res@ == kind,
    {
        EmbedValidationError { kind }
    }

    /// Immutable reference to the type of error that occurred.
    pub fn kind(&self) -> (res: &EmbedValidationErrorType)
        ensures
            *res == self@,
    {
        &self.kind
    }

    /// Human-readable description of the error.
    pub fn message(&self) -> (res: String)
        ensures
            res@ == error_message(self@),
    {
        match self.kind {
            EmbedValidationErrorType::AuthorNameTooLarge { chars } => limit_text(
                "the author name is ",
                chars,
                " characters long, but the max is ",
                AUTHOR_NAME_LENGTH,
            ),
            EmbedValidationErrorType::DescriptionTooLarge { chars } => limit_text(
                "the description is ",
                chars,
                " characters long, but the max is ",
                DESCRIPTION_LENGTH,
            ),
            EmbedValidationErrorType::EmbedTooLarge { chars } => limit_text(
                "the combined total length of the embed is ",
                chars,
                " characters long, but the max is ",
                EMBED_TOTAL_LENGTH,
            ),
            EmbedValidationErrorType::FieldNameTooLarge { chars } => limit_text(
                "a field name is ",
                chars,
                " characters long, but the max is ",
                FIELD_NAME_LENGTH,
            ),
            EmbedValidationErrorType::FieldValueTooLarge { chars } => limit_text(
                "a field value is ",
                chars,
                " characters long, but the max is ",
                FIELD_VALUE_LENGTH,
            ),
            EmbedValidationErrorType::FooterTextTooLarge { chars } => limit_text(
                "the footer's text is ",
                chars,
                " characters long, but the max is ",
                FOOTER_TEXT_LENGTH,
            ),
            EmbedValidationErrorType::TitleTooLarge { chars } => limit_text(
                "the title's length is ",
                chars,
                " characters long, but the max is ",
                TITLE_LENGTH,
            ),
            EmbedValidationErrorType::TooManyFields { amount } => limit_text(
                "there are ",
                amount,
                " fields, but the maximum amount is ",
                FIELD_COUNT,
            ),
        }
    }

    /// Consume the error, returning the source error if there is any.
    pub fn into_source(self) -> (res: Option<ErrorSource>)
        ensures
            res is None,
    {
        None
    }

    /// Consume the error, returning the owned error type and the source error.
    pub fn into_parts(self) -> (res: (EmbedValidationErrorType, Option<ErrorSource>))
        ensures
            res.0 == self@,
            res.1 is None,
    {
        (self.kind, None)
    }
}

/// Human-readable description of an error type: what was too large, its size
/// and the limit.
pub open spec fn error_message(kind: EmbedValidationErrorType) -> Seq<char> {
    match kind {
        EmbedValidationErrorType::AuthorNameTooLarge { chars } => "the author name is "@
            + decimal_text(chars as nat) + " characters long, but the max is "@ + decimal_text(
            AUTHOR_NAME_LENGTH as nat,
        ),
        EmbedValidationErrorType::DescriptionTooLarge { chars } => "the description is "@
            + decimal_text(chars as nat) + " characters long, but the max is "@ + decimal_text(
            DESCRIPTION_LENGTH as nat,
        ),
        EmbedValidationErrorType::EmbedTooLarge { chars } =>
            "the combined total length of the embed is "@ + decimal_text(chars as nat)
            + " characters long, but the max is "@ + decimal_text(EMBED_TOTAL_LENGTH as nat),
        EmbedValidationErrorType::FieldNameTooLarge { chars } => "a field name is "@
            + decimal_text(chars as nat) + " characters long, but the max is "@ + decimal_text(
            FIELD_NAME_LENGTH as nat,
        ),
        EmbedValidationErrorType::FieldValueTooLarge { chars } => "a field value is "@
            + decimal_text(chars as nat) + " characters long, but the max is "@ + decimal_text(
            FIELD_VALUE_LENGTH as nat,
        ),
        EmbedValidationErrorType::FooterTextTooLarge { chars } => "the footer's text is "@
            + decimal_text(chars as nat) + " characters long, but the max is "@ + decimal_text(
            FOOTER_TEXT_LENGTH as nat,
        ),
        EmbedValidationErrorType::TitleTooLarge { chars } => "the title's length is "@
            + decimal_text(chars as nat) + " characters long, but the max is "@ + decimal_text(
            TITLE_LENGTH as nat,
        ),
        EmbedValidationErrorType::TooManyFields { amount } => "there are "@ + decimal_text(
            amount as nat,
        ) + " fields, but the maximum amount is "@ + decimal_text(FIELD_COUNT as nat),
    }
}

/// `prefix`, the decimal text of `count`, `middle`, the decimal text of `max`.
fn limit_text(prefix: &str, count: usize, middle: &str, max: usize) -> (res: String)
    ensures
        res@ == prefix@ + decimal_text(count as nat) + middle@ + decimal_text(max as nat),
{
    let mut out = String::from_str(prefix);
    push_decimal(&mut out, count);
    out.append(middle);
    push_decimal(&mut out, max);
    out
}

/// Number of codepoints of an optional text; an absent text counts as empty.
pub open spec fn optional_length(text: Option<String>) -> nat {
    match text {
        Some(s) => s@.len(),
        None => 0,
    }
}

/// Number of codepoints of the embed author's name, zero without an author.
pub open spec fn author_length(embed: Embed) -> nat {
    match embed.author {
        Some(author) => author.name@.len(),
        None => 0,
    }
}

/// Number of codepoints of the embed footer's text, zero without a footer.
pub open spec fn footer_length(embed: Embed) -> nat {
    match embed.footer {
        Some(footer) => footer.text@.len(),
        None => 0,
    }
}

/// Combined number of codepoints of the names and values of the fields.
pub open spec fn fields_length(fields: Seq<EmbedField>) -> nat
    decreases fields.len(),
{
    if fields.len() == 0 {
        0
    } else {
        fields_length(fields.drop_last()) + fields.last().name@.len()
            + fields.last().value@.len()
    }
}

/// Combined number of codepoints of the author name, description, footer,
/// field names and values, and title.
pub open spec fn embed_total_length(embed: Embed) -> nat {
    author_length(embed) + optional_length(embed.description) + footer_length(embed)
        + fields_length(embed.fields@) + optional_length(embed.title)
}

/// The limit that a single field breaks, the name checked before the value.
pub open spec fn field_error(field: EmbedField) -> Option<EmbedValidationErrorType> {
    if field.name@.len() > FIELD_NAME_LENGTH {
        Some(EmbedValidationErrorType::FieldNameTooLarge { chars: field.name@.len() as usize })
    } else if field.value@.len() > FIELD_VALUE_LENGTH {
        Some(EmbedValidationErrorType::FieldValueTooLarge { chars: field.value@.len() as usize })
    } else {
        None
    }
}

/// The limit broken by the first field, in order, that breaks one.
pub open spec fn first_field_error(fields: Seq<EmbedField>) -> Option<EmbedValidationErrorType>
    decreases fields.len(),
{
    if fields.len() == 0 {
        None
    } else {
        match field_error(fields[0]) {
            Some(kind) => Some(kind),
            None => first_field_error(fields.drop_first()),
        }
    }
}

/// Outcome of validating an embed: the first broken limit, checked in the
/// order field count, author name, description, footer text, each field
/// (name, then value), title, and finally the combined length.
pub open spec fn embed_outcome(embed: Embed) -> Result<(), EmbedValidationErrorType> {
    if embed.fields@.len() > FIELD_COUNT {
        Err(EmbedValidationErrorType::TooManyFields { amount: embed.fields@.len() as usize })
    } else if author_length(embed) > AUTHOR_NAME_LENGTH {
        Err(EmbedValidationErrorType::AuthorNameTooLarge { chars: author_length(embed) as usize })
    } else if optional_length(embed.description) > DESCRIPTION_LENGTH {
        Err(
            EmbedValidationErrorType::DescriptionTooLarge {
                chars: optional_length(embed.description) as usize,
            },
        )
    } else if footer_length(embed) > FOOTER_TEXT_LENGTH {
        Err(EmbedValidationErrorType::FooterTextTooLarge { chars: footer_length(embed) as usize })
    } else if first_field_error(embed.fields@) is Some {
        Err(first_field_error(embed.fields@)->0)
    } else if optional_length(embed.title) > TITLE_LENGTH {
        Err(EmbedValidationErrorType::TitleTooLarge { chars: optional_length(embed.title) as usize })
    } else if embed_total_length(embed) > EMBED_TOTAL_LENGTH {
        Err(EmbedValidationErrorType::EmbedTooLarge { chars: embed_total_length(embed) as usize })
    } else {
        Ok(())
    }
}

/// The count carried by an error type is beyond the limit it names.
pub open spec fn exceeds_limit(kind: EmbedValidationErrorType) -> bool {
    match kind {
        EmbedValidationErrorType::AuthorNameTooLarge { chars } => chars > AUTHOR_NAME_LENGTH,
        EmbedValidationErrorType::DescriptionTooLarge { chars } => chars > DESCRIPTION_LENGTH,
        EmbedValidationErrorType::EmbedTooLarge { chars } => chars > EMBED_TOTAL_LENGTH,
        EmbedValidationErrorType::FieldNameTooLarge { chars } => chars > FIELD_NAME_LENGTH,
        EmbedValidationErrorType::FieldValueTooLarge { chars } => chars > FIELD_VALUE_LENGTH,
        EmbedValidationErrorType::FooterTextTooLarge { chars } => chars > FOOTER_TEXT_LENGTH,
        EmbedValidationErrorType::TitleTooLarge { chars } => chars > TITLE_LENGTH,
        EmbedValidationErrorType::TooManyFields { amount } => amount > FIELD_COUNT,
    }
}

proof fn lemma_no_field_error(fields: Seq<EmbedField>)
    requires
        first_field_error(fields) is None,
    ensures
        forall|i: int| 0 <= i < fields.len() ==> #[trigger] field_error(fields[i]) is None,
    decreases fields.len(),
{
    if fields.len() > 0 {
        lemma_no_field_error(fields.drop_first());
        assert forall|i: int| 0 <= i < fields.len() implies #[trigger] field_error(
            fields[i],
        ) is None by {
            if i > 0 {
                assert(fields[i] == fields.drop_first()[i - 1]);
            }
        }
    }
}

/// An embed that passes validation respects every limit: at most
/// [`FIELD_COUNT`] fields, an author name, description, footer text and title
/// within their limits, every field name and value within theirs, and a
/// combined length of at most [`EMBED_TOTAL_LENGTH`].
pub proof fn lemma_valid_embed_within_limits(e: Embed)
    requires
        embed_outcome(e) is Ok,
    ensures
        e.fields@.len() <= FIELD_COUNT,
        author_length(e) <= AUTHOR_NAME_LENGTH,
        optional_length(e.description) <= DESCRIPTION_LENGTH,
        footer_length(e) <= FOOTER_TEXT_LENGTH,
        optional_length(e.title) <= TITLE_LENGTH,
        forall|i: int|
            0 <= i < e.fields@.len() ==> (#[trigger] e.fields@[i]).name@.len() <= FIELD_NAME_LENGTH
                && e.fields@[i].value@.len() <= FIELD_VALUE_LENGTH,
        embed_total_length(e) <= EMBED_TOTAL_LENGTH,
{
    lemma_no_field_error(e.fields@);
    assert forall|i: int| 0 <= i < e.fields@.len() implies (#[trigger] e.fields@[i]).name@.len()
        <= FIELD_NAME_LENGTH && e.fields@[i].value@.len() <= FIELD_VALUE_LENGTH by {
        assert(field_error(e.fields@[i]) is None);
    }
}

/// A field within its own limits: name at most 256 codepoints, value at most
/// 1024.
pub open spec fn field_within_limits(field: EmbedField) -> bool {
    field.name@.len() <= 256 && field.value@.len() <= 1024
}

/// Codepoints of all field names and values, added up field by field.
pub open spec fn field_text_sum(fields: Seq<EmbedField>) -> nat {
    fields.fold_left(0nat, |acc: nat, f: EmbedField| acc + f.name@.len() + f.value@.len())
}

/// Every part of the embed is within its own limit: at most 25 fields, an
/// author name of at most 256 codepoints, a description of at most 4096, a
/// footer text of at most 2048, every field within its limits, and a title
/// of at most 256.
pub open spec fn parts_within_limits(e: Embed) -> bool {
    &&& e.fields@.len() <= 25
    &&& (e.author matches Some(a) ==> a.name@.len() <= 256)
    &&& (e.description matches Some(d) ==> d@.len() <= 4096)
    &&& (e.footer matches Some(f) ==> f.text@.len() <= 2048)
    &&& (forall|i: int| 0 <= i < e.fields@.len() ==> field_within_limits(#[trigger] e.fields@[i]))
    &&& (e.title matches Some(t) ==> t@.len() <= 256)
}

/// Combined number of codepoints of the author name, description, footer text,
/// field names and values, and title, each absent part counting zero.
pub open spec fn combined_text_length(e: Embed) -> nat {
    (match e.author {
        Some(a) => a.name@.len(),
        None => 0nat,
    }) + (match e.description {
        Some(d) => d@.len(),
        None => 0nat,
    }) + (match e.footer {
        Some(f) => f.text@.len(),
        None => 0nat,
    }) + field_text_sum(e.fields@) + (match e.title {
        Some(t) => t@.len(),
        None => 0nat,
    })
}

proof fn lemma_fields_length_is_sum(fields: Seq<EmbedField>)
    ensures
        fields_length(fields) == field_text_sum(fields),
    decreases fields.len(),
{
    if fields.len() > 0 {
        lemma_fields_length_is_sum(fields.drop_last());
    }
}

proof fn lemma_first_field_error_explicit(fields: Seq<EmbedField>)
    ensures
        first_field_error(fields) is None <==> forall|i: int|
            0 <= i < fields.len() ==> field_within_limits(#[trigger] fields[i]),
        first_field_error(fields) matches Some(k) ==> exists|i: int|
            0 <= i < fields.len() && (forall|j: int| 0 <= j < i ==> field_within_limits(
                #[trigger] fields[j],
            )) && ((fields[i].name@.len() > 256 && k == EmbedValidationErrorType::FieldNameTooLarge {
                chars: fields[i].name@.len() as usize,
            }) || (fields[i].name@.len() <= 256 && fields[i].value@.len() > 1024 && k
                == EmbedValidationErrorType::FieldValueTooLarge {
                chars: fields[i].value@.len() as usize,
            })),
    decreases fields.len(),
{
    if fields.len() > 0 {
        let rest = fields.drop_first();
        lemma_first_field_error_explicit(rest);
        assert forall|i: int| 0 <= i < rest.len() implies rest[i] == fields[i + 1] by {}
        if field_error(fields[0]) is None {
            assert((forall|i: int| 0 <= i < fields.len() ==> field_within_limits(
                #[trigger] fields[i],
            )) <==> (forall|i: int| 0 <= i < rest.len() ==> field_within_limits(
                #[trigger] rest[i],
            ))) by {
                if forall|i: int| 0 <= i < rest.len() ==> field_within_limits(#[trigger] rest[i]) {
                    assert forall|i: int| 0 <= i < fields.len() implies field_within_limits(
                        #[trigger] fields[i],
                    ) by {
                        if i > 0 {
                            assert(fields[i] == rest[i - 1]);
                        }
                    }
                }
            }
            if first_field_error(rest) is Some {
                let k = first_field_error(rest)->0;
                let i = choose|i: int|
                    0 <= i < rest.len() && (forall|j: int| 0 <= j < i ==> field_within_limits(
                        #[trigger] rest[j],
                    )) && ((rest[i].name@.len() > 256 && k
                        == EmbedValidationErrorType::FieldNameTooLarge {
                        chars: rest[i].name@.len() as usize,
                    }) || (rest[i].name@.len() <= 256 && rest[i].value@.len() > 1024 && k
                        == EmbedValidationErrorType::FieldValueTooLarge {
                        chars: rest[i].value@.len() as usize,
                    }));
                assert forall|j: int| 0 <= j < i + 1 implies field_within_limits(
                    #[trigger] fields[j],
                ) by {
                    if j > 0 {
                        assert(fields[j] == rest[j - 1]);
                    }
                }
                assert(fields[i + 1] == rest[i]);
            }
        } else {
            assert(!field_within_limits(fields[0]));
            assert forall|j: int| 0 <= j < 0 implies field_within_limits(#[trigger] fields[j]) by {}
        }
    }
}

/// An embed is accepted exactly when every part is within its own limit and
/// the author name, description, footer text, field names and values, and
/// title together hold at most 6000 codepoints.
pub proof fn lemma_embed_accepted_iff_within_limits(e: Embed)
    ensures
        embed_outcome(e) is Ok <==> parts_within_limits(e) && combined_text_length(e) <= 6000,
{
    lemma_fields_length_is_sum(e.fields@);
    lemma_first_field_error_explicit(e.fields@);
}

/// An embed whose parts are each within their limits but whose combined text
/// exceeds 6000 codepoints is refused as too large, reporting that combined
/// length.
pub proof fn lemma_embed_too_large_reports_combined_length(e: Embed)
    requires
        parts_within_limits(e),
        combined_text_length(e) > 6000,
    ensures
        embed_outcome(e) == Err::<(), EmbedValidationErrorType>(
            EmbedValidationErrorType::EmbedTooLarge { chars: combined_text_length(e) as usize },
        ),
{
    lemma_fields_length_is_sum(e.fields@);
    lemma_first_field_error_explicit(e.fields@);
}

/// Each refusal names the limit that is broken and carries the offending
/// count, and every limit checked before it holds: the field count first,
/// then the author name, description, footer text, the fields in order (name
/// before value), the title, and the combined length last.
pub proof fn lemma_embed_refusal_reports_first_broken_limit(e: Embed)
    ensures
        embed_outcome(e) matches Err(k) ==> match k {
            EmbedValidationErrorType::TooManyFields { amount } => e.fields@.len() > 25 && amount
                == e.fields@.len() as usize,
            EmbedValidationErrorType::AuthorNameTooLarge { chars } => e.fields@.len() <= 25 && (
            e.author matches Some(a) && a.name@.len() > 256 && chars == a.name@.len() as usize),
            EmbedValidationErrorType::DescriptionTooLarge { chars } => e.fields@.len() <= 25 && (
            e.author matches Some(a) ==> a.name@.len() <= 256) && (e.description matches Some(d)
                && d@.len() > 4096 && chars == d@.len() as usize),
            EmbedValidationErrorType::FooterTextTooLarge { chars } => e.fields@.len() <= 25 && (
            e.author matches Some(a) ==> a.name@.len() <= 256) && (e.description matches Some(d)
                ==> d@.len() <= 4096) && (e.footer matches Some(f) && f.text@.len() > 2048 && chars
                == f.text@.len() as usize),
            EmbedValidationErrorType::FieldNameTooLarge { chars } => exists|i: int|
                0 <= i < e.fields@.len() && (forall|j: int|
                    0 <= j < i ==> field_within_limits(#[trigger] e.fields@[j]))
                    && e.fields@[i].name@.len() > 256 && chars == e.fields@[i].name@.len() as usize,
            EmbedValidationErrorType::FieldValueTooLarge { chars } => exists|i: int|
                0 <= i < e.fields@.len() && (forall|j: int|
                    0 <= j < i ==> field_within_limits(#[trigger] e.fields@[j]))
                    && e.fields@[i].name@.len() <= 256 && e.fields@[i].value@.len() > 1024 && chars
                    == e.fields@[i].value@.len() as usize,
            EmbedValidationErrorType::TitleTooLarge { chars } => e.title matches Some(t) && t@.len()
                > 256 && chars == t@.len() as usize && (forall|i: int|
                0 <= i < e.fields@.len() ==> field_within_limits(#[trigger] e.fields@[i])),
            EmbedValidationErrorType::EmbedTooLarge { chars } => parts_within_limits(e)
                && combined_text_length(e) > 6000 && chars == combined_text_length(e) as usize,
        },
{
    lemma_fields_length_is_sum(e.fields@);
    lemma_first_field_error_explicit(e.fields@);
}

/// Number of codepoints of a string.
fn char_count(s: &String) -> (res: usize)
    ensures
        res == s@.len(),
{
    s.as_str().unicode_len()
}

proof fn lemma_first_field_error_step(fields: Seq<EmbedField>, i: int)
    requires
        0 <= i < fields.len(),
    ensures
        first_field_error(fields.skip(i)) == match field_error(fields[i]) {
            Some(kind) => Some(kind),
            None => first_field_error(fields.skip(i + 1)),
        },
{
    assert(fields.skip(i).drop_first() =~= fields.skip(i + 1));
}

proof fn lemma_fields_length_step(fields: Seq<EmbedField>, i: int)
    requires
        0 <= i < fields.len(),
    ensures
        fields_length(fields.take(i + 1)) == fields_length(fields.take(i)) + fields[i].name@.len()
            + fields[i].value@.len(),
{
    assert(fields.take(i + 1).drop_last() =~= fields.take(i));
}

/// Ensure an embed is correct.
///
/// The result is `Ok` exactly when the embed breaks none of the limits, and
/// otherwise an error whose type names the first broken limit in the order of
/// [`embed_outcome`], carrying the offending codepoint or field count.
pub fn embed(value: &Embed) -> (res: Result<(), EmbedValidationError>)
    ensures
        res is Ok <==> embed_outcome(*value) is Ok,
        res matches Err(e) ==> embed_outcome(*value) == Err::<(), EmbedValidationErrorType>(e@),
        res matches Err(e) ==> exceeds_limit(e@),
{
    let mut total: usize = 0;

    if value.fields.len() > FIELD_COUNT {
        return Err(
            EmbedValidationError {
                kind: EmbedValidationErrorType::TooManyFields { amount: value.fields.len() },
            },
        );
    }
    if let Some(author) = &value.author {
        let chars = char_count(&author.name);
        if chars > AUTHOR_NAME_LENGTH {
            return Err(
                EmbedValidationError { kind: EmbedValidationErrorType::AuthorNameTooLarge { chars } },
            );
        }
        total = total + chars;
    }
    if let Some(description) = &value.description {
        let chars = char_count(description);
        if chars > DESCRIPTION_LENGTH {
            return Err(
                EmbedValidationError { kind: EmbedValidationErrorType::DescriptionTooLarge { chars } },
            );
        }
        total = total + chars;
    }
    if let Some(footer) = &value.footer {
        let chars = char_count(&footer.text);
        if chars > FOOTER_TEXT_LENGTH {
            return Err(
                EmbedValidationError { kind: EmbedValidationErrorType::FooterTextTooLarge { chars } },
            );
        }
        total = total + chars;
    }
    let ghost head = total;
    assert(head == author_length(*value) + optional_length(value.description) + footer_length(
        *value,
    ));
    assert(value.fields@.take(0) =~= Seq::<EmbedField>::empty());
    assert(value.fields@.skip(0) =~= value.fields@);

    let n = value.fields.len();
    let mut i: usize = 0;
    while i < n
        invariant
            n == value.fields@.len(),
            n <= FIELD_COUNT,
            i <= n,
            author_length(*value) <= AUTHOR_NAME_LENGTH,
            optional_length(value.description) <= DESCRIPTION_LENGTH,
            footer_length(*value) <= FOOTER_TEXT_LENGTH,
            head == author_length(*value) + optional_length(value.description) + footer_length(
                *value,
            ),
            total == head + fields_length(value.fields@.take(i as int)),
            // each accepted field holds at most 256 + 1024 codepoints
            fields_length(value.fields@.take(i as int)) <= i * 1280,
            first_field_error(value.fields@) == first_field_error(value.fields@.skip(i as int)),
        decreases n - i,
    {
        let field = &value.fields[i];
        proof {
            lemma_first_field_error_step(value.fields@, i as int);
            lemma_fields_length_step(value.fields@, i as int);
        }
        let name_chars = char_count(&field.name);
        if name_chars > FIELD_NAME_LENGTH {
            return Err(
                EmbedValidationError {
                    kind: EmbedValidationErrorType::FieldNameTooLarge { chars: name_chars },
                },
            );
        }
        let value_chars = char_count(&field.value);
        if value_chars > FIELD_VALUE_LENGTH {
            return Err(
                EmbedValidationError {
                    kind: EmbedValidationErrorType::FieldValueTooLarge { chars: value_chars },
                },
            );
        }
        total = total + name_chars + value_chars;
        i = i + 1;
    }
    assert(value.fields@.take(n as int) =~= value.fields@);
    assert(value.fields@.skip(n as int) =~= Seq::<EmbedField>::empty());

    if let Some(title) = &value.title {
        let chars = char_count(title);
        if chars > TITLE_LENGTH {
            return Err(
                EmbedValidationError { kind: EmbedValidationErrorType::TitleTooLarge { chars } },
            );
        }
        total = total + chars;
    }
    if total > EMBED_TOTAL_LENGTH {
        return Err(
            EmbedValidationError { kind: EmbedValidationErrorType::EmbedTooLarge { chars: total } },
        );
    }
    Ok(())
}

} // verus!
