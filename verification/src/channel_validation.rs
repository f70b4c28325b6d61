//! Limits on channel settings, and the checks that a value respects them.

use vstd::prelude::*;

verus! {

/// Minimum length of a channel name, in UTF-16 code units.
pub const CHANNEL_NAME_LENGTH_MIN: usize = 1;

/// Maximum length of a channel name, in UTF-16 code units.
pub const CHANNEL_NAME_LENGTH_MAX: usize = 100;

/// Maximum number of seconds a user must wait between two messages.
pub const CHANNEL_RATE_LIMIT_PER_USER_MAX: u64 = 21600;

/// Maximum length of a channel topic, in UTF-16 code units.
pub const CHANNEL_TOPIC_LENGTH_MAX: usize = 1024;

/// Type of [`ChannelValidationError`] that occurred.
#[derive(Clone, Copy, Debug, PartialEq, Eq, Structural)]
#[non_exhaustive]
pub enum ChannelValidationErrorType {
    /// The name is shorter than [`CHANNEL_NAME_LENGTH_MIN`] or longer than
    /// [`CHANNEL_NAME_LENGTH_MAX`].
    NameInvalid,
    /// The rate limit is above [`CHANNEL_RATE_LIMIT_PER_USER_MAX`].
    RateLimitPerUserInvalid {
        /// The provided rate limit.
        rate_limit_per_user: u64,
    },
    /// The topic is longer than [`CHANNEL_TOPIC_LENGTH_MAX`].
    TopicInvalid,
}

/// A channel setting is not valid.
#[derive(Debug)]
pub struct ChannelValidationError {
    kind: ChannelValidationErrorType,
}

impl View for ChannelValidationError {
    type V = ChannelValidationErrorType;

    closed spec fn view(&self) -> ChannelValidationErrorType {
        self.kind
    }
}

impl ChannelValidationError {
    /// Immutable reference to the type of error that occurred.
    pub fn kind(&self) -> (res: &ChannelValidationErrorType)
        ensures
            *res == self@,
    {
        &self.kind
    }

    /// Consume the error, returning the owned error type.
    pub fn into_kind(self) -> (res: ChannelValidationErrorType)
        ensures
            res == self@,
    {
        self.kind
    }
}

/// Number of UTF-16 code units that encode a character: two for characters
/// beyond the Basic Multilingual Plane, one for the others.
pub open spec fn utf16_units(c: char) -> nat {
    if c as u32 > 0xFFFF {
        2
    } else {
        1
    }
}

/// Number of UTF-16 code units that encode a text.
pub open spec fn utf16_length(text: Seq<char>) -> nat
    decreases text.len(),
{
    if text.len() == 0 {
        0
    } else {
        utf16_length(text.drop_last()) + utf16_units(text.last())
    }
}

proof fn lemma_utf16_length_prefix(text: Seq<char>, i: int, j: int)
    requires
        0 <= i <= j <= text.len(),
    ensures
        utf16_length(text.take(i)) <= utf16_length(text.take(j)),
    decreases j - i,
{
    if i < j {
        lemma_utf16_length_prefix(text, i, j - 1);
        assert(text.take(j).drop_last() =~= text.take(j - 1));
    }
}

/// Whether a text is encoded in at most `max` UTF-16 code units.
fn utf16_length_within(value: &str, max: usize) -> (res: bool)
    requires
        max <= 0xFFFF,
    ensures
        res == (utf16_length(value@) <= max),
{
    let n = value.unicode_len();
    let mut count: usize = 0;
    let mut i: usize = 0;
    while i < n
        invariant
            n == value@.len(),
            max <= 0xFFFF,
            i <= n,
            count == utf16_length(value@.take(i as int)),
            count <= max,
        decreases n - i,
    {
        let c = value.get_char(i);
        proof {
            assert(value@.take(i + 1).drop_last() =~= value@.take(i as int));
        }
        if (c as u32) > 0xFFFF {
            count = count + 2;
        } else {
            count = count + 1;
        }
        i = i + 1;
        if count > max {
            proof {
                lemma_utf16_length_prefix(value@, i as int, n as int);
                assert(value@.take(n as int) =~= value@);
            }
            return false;
        }
    }
    assert(value@.take(n as int) =~= value@);
    true
}

proof fn lemma_utf16_length_empty(text: Seq<char>)
    ensures
        (utf16_length(text) == 0) == (text.len() == 0),
{
    if text.len() > 0 {
        assert(utf16_length(text) >= utf16_units(text.last()));
    }
}

/// A text whose characters all lie at or below U+FFFF (the Basic Multilingual
/// Plane) takes one UTF-16 code unit per character.
pub proof fn lemma_utf16_length_of_bmp_text(text: Seq<char>)
    requires
        forall|i: int| 0 <= i < text.len() ==> (#[trigger] text[i] as u32) <= 0xFFFFu32,
    ensures
        utf16_length(text) == text.len(),
    decreases text.len(),
{
    if text.len() > 0 {
        let rest = text.drop_last();
        assert forall|i: int| 0 <= i < rest.len() implies (#[trigger] rest[i] as u32) <= 0xFFFFu32 by {
            assert(rest[i] == text[i]);
        }
        lemma_utf16_length_of_bmp_text(rest);
        assert((text[text.len() - 1] as u32) <= 0xFFFFu32);
    }
}

/// The UTF-16 length of a text is its number of characters plus one for each
/// character above U+FFFF, which UTF-16 encodes as a surrogate pair.
pub proof fn lemma_utf16_length_counts_pairs(text: Seq<char>)
    ensures
        utf16_length(text) == text.len() + text.filter(|c: char| (c as u32) > 0xFFFFu32).len(),
    decreases text.len(),
{
    reveal(Seq::filter);
    if text.len() > 0 {
        lemma_utf16_length_counts_pairs(text.drop_last());
    }
}

/// The UTF-16 length of two texts written one after the other is the sum of
/// their lengths.
pub proof fn lemma_utf16_length_concat(a: Seq<char>, b: Seq<char>)
    ensures
        utf16_length(a + b) == utf16_length(a) + utf16_length(b),
    decreases b.len(),
{
    if b.len() > 0 {
        assert((a + b).drop_last() =~= a + b.drop_last());
        lemma_utf16_length_concat(a, b.drop_last());
    } else {
        assert(a + b =~= a);
    }
}

/// For a text made only of characters at or below U+FFFF, the topic limit is
/// 1024 characters and the name limits are 1 to 100 characters.
pub proof fn lemma_bmp_channel_limits(text: Seq<char>)
    requires
        forall|i: int| 0 <= i < text.len() ==> (#[trigger] text[i] as u32) <= 0xFFFFu32,
    ensures
        (utf16_length(text) <= CHANNEL_TOPIC_LENGTH_MAX) <==> text.len() <= 1024,
        (CHANNEL_NAME_LENGTH_MIN <= utf16_length(text) <= CHANNEL_NAME_LENGTH_MAX) <==> (1
            <= text.len() <= 100),
{
    lemma_utf16_length_of_bmp_text(text);
}

/// Ensure a channel's name is between [`CHANNEL_NAME_LENGTH_MIN`] and
/// [`CHANNEL_NAME_LENGTH_MAX`] UTF-16 code units long.
pub fn name(value: &str) -> (res: Result<(), ChannelValidationError>)
    ensures
        res is Ok <==> CHANNEL_NAME_LENGTH_MIN <= utf16_length(value@) <= CHANNEL_NAME_LENGTH_MAX,
        res matches Err(e) ==> e@ == ChannelValidationErrorType::NameInvalid,
{
    proof {
        lemma_utf16_length_empty(value@);
    }
    if value.unicode_len() >= 1 && utf16_length_within(value, CHANNEL_NAME_LENGTH_MAX) {
        Ok(())
    } else {
        Err(ChannelValidationError { kind: ChannelValidationErrorType::NameInvalid })
    }
}

/// Ensure a channel's rate limit per user is at most
/// [`CHANNEL_RATE_LIMIT_PER_USER_MAX`] seconds.
pub fn rate_limit_per_user(value: u64) -> (res: Result<(), ChannelValidationError>)
    ensures
        res is Ok <==> value <= CHANNEL_RATE_LIMIT_PER_USER_MAX,
        res matches Err(e) ==> e@ == (ChannelValidationErrorType::RateLimitPerUserInvalid {
            rate_limit_per_user: value,
        }),
{
    if value <= CHANNEL_RATE_LIMIT_PER_USER_MAX {
        Ok(())
    } else {
        Err(
            ChannelValidationError {
                kind: ChannelValidationErrorType::RateLimitPerUserInvalid {
                    rate_limit_per_user: value,
                },
            },
        )
    }
}

/// Ensure a channel's topic is at most [`CHANNEL_TOPIC_LENGTH_MAX`] UTF-16 code
/// units long.
pub fn topic(value: &str) -> (res: Result<(), ChannelValidationError>)
    ensures
        res is Ok <==> utf16_length(value@) <= CHANNEL_TOPIC_LENGTH_MAX,
        res matches Err(e) ==> e@ == ChannelValidationErrorType::TopicInvalid,
{
    if utf16_length_within(value, CHANNEL_TOPIC_LENGTH_MAX) {
        Ok(())
    } else {
        Err(ChannelValidationError { kind: ChannelValidationErrorType::TopicInvalid })
    }
}

} // verus!
