//! Limits on application command names and descriptions, and the checks that
//! a value respects them.

use vstd::prelude::*;

verus! {

/// Minimum length of a command name, in codepoints.
pub const NAME_LENGTH_MIN: usize = 1;

/// Maximum length of a command name, in codepoints.
pub const NAME_LENGTH_MAX: usize = 32;

/// Minimum length of a command description, in codepoints.
pub const DESCRIPTION_LENGTH_MIN: usize = 1;

/// Maximum length of a command description, in codepoints.
pub const DESCRIPTION_LENGTH_MAX: usize = 100;

/// Type of [`CommandValidationError`] that occurred.
#[derive(Clone, Copy, Debug, PartialEq, Eq, Structural)]
#[non_exhaustive]
pub enum CommandValidationErrorType {
    /// The name is not between [`NAME_LENGTH_MIN`] and [`NAME_LENGTH_MAX`]
    /// codepoints long.
    NameLengthInvalid,
    /// A character of a chat input command's name is not allowed.
    NameCharacterInvalid {
        /// The first character that is not allowed.
        character: char,
    },
    /// The description is not between [`DESCRIPTION_LENGTH_MIN`] and
    /// [`DESCRIPTION_LENGTH_MAX`] codepoints long.
    DescriptionInvalid,
}

/// A command setting is not valid.
#[derive(Debug)]
pub struct CommandValidationError {
    kind: CommandValidationErrorType,
}

impl View for CommandValidationError {
    type V = CommandValidationErrorType;

    closed spec fn view(&self) -> CommandValidationErrorType {
        self.kind
    }
}

impl CommandValidationError {
    /// Immutable reference to the type of error that occurred.
    pub fn kind(&self) -> (res: &CommandValidationErrorType)
        ensures
            *res == self@,
    {
        &self.kind
    }

    /// Consume the error, returning the owned error type.
    pub fn into_kind(self) -> (res: CommandValidationErrorType)
        ensures
            res == self@,
    {
        self.kind
    }
}

/// Whether the character is alphabetic or numeric in Unicode, as
/// `char::is_alphanumeric` answers.
pub uninterp spec fn unicode_alphanumeric(c: char) -> bool;

/// First character of the Unicode lowercase mapping of a character, as the
/// first item of `char::to_lowercase` gives it (every mapping has one).
pub uninterp spec fn unicode_lowercase_first(c: char) -> Option<char>;

/// Calls `char::is_alphanumeric`; the result is the name
/// `unicode_alphanumeric` of the character, which the Unicode tables define
/// and no clause here states.
#[verifier::external_body]
fn is_alphanumeric(c: char) -> (res: bool)
    ensures
        res == unicode_alphanumeric(c),
{
    c.is_alphanumeric()
}

/// Calls `char::to_lowercase` and takes the first character of the mapping;
/// the result is the name `unicode_lowercase_first` of the character, which
/// the Unicode tables define and no clause here states.
#[verifier::external_body]
fn lowercase_first(c: char) -> (res: Option<char>)
    ensures
        res == unicode_lowercase_first(c),
{
    c.to_lowercase().next()
}

/// A character allowed in a chat input command's name: alphanumeric, `-` or
/// `_`, and its own lowercase form.
pub open spec fn name_char_allowed(c: char) -> bool {
    &&& (unicode_alphanumeric(c) || c == '-' || c == '_')
    &&& unicode_lowercase_first(c) == Some(c)
}

/// The first character of a text that is not allowed in a chat input
/// command's name, if any.
pub open spec fn first_disallowed_char(text: Seq<char>) -> Option<char>
    decreases text.len(),
{
    if text.len() == 0 {
        None
    } else if !name_char_allowed(text[0]) {
        Some(text[0])
    } else {
        first_disallowed_char(text.drop_first())
    }
}

/// The characters of a chat input command's name pass exactly when each one is
/// alphanumeric, `-` or `_`, and is its own lowercase form; otherwise the
/// character reported is the first one that is not, every character before it
/// being so.
pub proof fn lemma_name_characters(text: Seq<char>)
    ensures
        first_disallowed_char(text) is None <==> forall|i: int|
            0 <= i < text.len() ==> {
                &&& (unicode_alphanumeric(#[trigger] text[i]) || text[i] == '-' || text[i] == '_')
                &&& unicode_lowercase_first(text[i]) == Some(text[i])
            },
        first_disallowed_char(text) matches Some(c) ==> exists|i: int|
            {
                &&& 0 <= i < text.len()
                &&& #[trigger] text[i] == c
                &&& !((unicode_alphanumeric(c) || c == '-' || c == '_')
                    && unicode_lowercase_first(c) == Some(c))
                &&& forall|j: int|
                    0 <= j < i ==> {
                        &&& (unicode_alphanumeric(#[trigger] text[j]) || text[j] == '-' || text[j]
                            == '_')
                        &&& unicode_lowercase_first(text[j]) == Some(text[j])
                    }
            },
    decreases text.len(),
{
    if text.len() > 0 {
        let rest = text.drop_first();
        lemma_name_characters(rest);
        assert forall|i: int| 0 < i < text.len() implies text[i] == #[trigger] rest[i - 1] by {}
        if name_char_allowed(text[0]) {
            if first_disallowed_char(rest) is None {
                assert forall|i: int| 0 <= i < text.len() implies {
                    &&& (unicode_alphanumeric(#[trigger] text[i]) || text[i] == '-' || text[i]
                        == '_')
                    &&& unicode_lowercase_first(text[i]) == Some(text[i])
                } by {
                    if i > 0 {
                        assert(rest[i - 1] == text[i]);
                    }
                }
            } else {
                let c = first_disallowed_char(rest)->0;
                let k = choose|k: int|
                    {
                        &&& 0 <= k < rest.len()
                        &&& #[trigger] rest[k] == c
                        &&& !((unicode_alphanumeric(c) || c == '-' || c == '_')
                            && unicode_lowercase_first(c) == Some(c))
                        &&& forall|j: int|
                            0 <= j < k ==> {
                                &&& (unicode_alphanumeric(#[trigger] rest[j]) || rest[j] == '-'
                                    || rest[j] == '_')
                                &&& unicode_lowercase_first(rest[j]) == Some(rest[j])
                            }
                    };
                assert(text[k + 1] == c);
                assert forall|j: int| 0 <= j < k + 1 implies {
                    &&& (unicode_alphanumeric(#[trigger] text[j]) || text[j] == '-' || text[j]
                        == '_')
                    &&& unicode_lowercase_first(text[j]) == Some(text[j])
                } by {
                    if j > 0 {
                        assert(rest[j - 1] == text[j]);
                    }
                }
                assert(!((unicode_alphanumeric(text[k + 1]) || text[k + 1] == '-' || text[k + 1]
                    == '_') && unicode_lowercase_first(text[k + 1]) == Some(text[k + 1])));
            }
        } else {
            assert(text[0] == first_disallowed_char(text)->0);
        }
    }
}

/// Ensure a command's name is between [`NAME_LENGTH_MIN`] and
/// [`NAME_LENGTH_MAX`] codepoints long.
pub fn name(value: &str) -> (res: Result<(), CommandValidationError>)
    ensures
        res is Ok <==> NAME_LENGTH_MIN <= value@.len() <= NAME_LENGTH_MAX,
        res matches Err(e) ==> e@ == CommandValidationErrorType::NameLengthInvalid,
{
    let len = value.unicode_len();
    if NAME_LENGTH_MIN <= len && len <= NAME_LENGTH_MAX {
        Ok(())
    } else {
        Err(CommandValidationError { kind: CommandValidationErrorType::NameLengthInvalid })
    }
}

/// Ensure a chat input command's name has a valid length and only allowed
/// characters; the length is checked first, then the characters in order.
pub fn chat_input_name(value: &str) -> (res: Result<(), CommandValidationError>)
    ensures
        res is Ok <==> NAME_LENGTH_MIN <= value@.len() <= NAME_LENGTH_MAX && first_disallowed_char(
            value@,
        ) is None,
        res matches Err(e) ==> e@ == if !(NAME_LENGTH_MIN <= value@.len() <= NAME_LENGTH_MAX) {
            CommandValidationErrorType::NameLengthInvalid
        } else {
            CommandValidationErrorType::NameCharacterInvalid {
                character: first_disallowed_char(value@)->0,
            }
        },
{
    match name(value) {
        Ok(()) => {},
        Err(e) => {
            return Err(e);
        },
    }
    let n = value.unicode_len();
    let mut i: usize = 0;
    assert(value@.skip(0) =~= value@);
    while i < n
        invariant
            n == value@.len(),
            NAME_LENGTH_MIN <= n <= NAME_LENGTH_MAX,
            i <= n,
            first_disallowed_char(value@) == first_disallowed_char(value@.skip(i as int)),
        decreases n - i,
    {
        let c = value.get_char(i);
        assert(value@.skip(i as int)[0] == c);
        assert(value@.skip(i as int).drop_first() =~= value@.skip(i + 1));
        let allowed = (is_alphanumeric(c) || c == '-' || c == '_') && lowercase_first(c) == Some(
            c,
        );
        if !allowed {
            return Err(
                CommandValidationError {
                    kind: CommandValidationErrorType::NameCharacterInvalid { character: c },
                },
            );
        }
        i = i + 1;
    }
    assert(value@.skip(n as int) =~= Seq::<char>::empty());
    Ok(())
}

/// Ensure a command's description is between [`DESCRIPTION_LENGTH_MIN`] and
/// [`DESCRIPTION_LENGTH_MAX`] codepoints long.
pub fn description(value: &str) -> (res: Result<(), CommandValidationError>)
    ensures
        res is Ok <==> DESCRIPTION_LENGTH_MIN <= value@.len() <= DESCRIPTION_LENGTH_MAX,
        res matches Err(e) ==> e@ == CommandValidationErrorType::DescriptionInvalid,
{
    let len = value.unicode_len();
    if DESCRIPTION_LENGTH_MIN <= len && len <= DESCRIPTION_LENGTH_MAX {
        Ok(())
    } else {
        Err(CommandValidationError { kind: CommandValidationErrorType::DescriptionInvalid })
    }
}

} // verus!
