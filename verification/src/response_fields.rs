//! Reading an [`InteractionResponse`] from its `type` and `data` fields, and
//! writing it as the fields that a reader accepts.

use vstd::prelude::*;

use crate::callback::{
    autocomplete_from, callback_data_from, modal_from, response_kind, Autocomplete, CallbackData,
    CallbackDataHolder, InteractionResponse, ModalData, ResponseDataError, ResponseType,
};

verus! {

/// Name of a known field of an interaction response.
#[derive(Clone, Copy, Debug, PartialEq, Eq, Hash, Structural)]
pub enum ResponseField {
    /// `data`.
    Data,
    /// `type`.
    Type,
}

/// Name of a field as it appears on the wire.
pub open spec fn response_field_name(field: ResponseField) -> Seq<char> {
    match field {
        ResponseField::Data => "data"@,
        ResponseField::Type => "type"@,
    }
}

impl ResponseField {
    /// Name of the field as it appears on the wire.
    pub fn name(self) -> (res: &'static str)
        ensures
            res@ == response_field_name(self),
    {
        match self {
            ResponseField::Data => "data",
            ResponseField::Type => "type",
        }
    }
}

/// One entry of a response's map of fields: a known field with its value, or a
/// field of another name, whose value is skipped.
#[derive(Debug, PartialEq, Eq)]
pub enum ResponseEntry {
    /// The `data` object.
    Data(CallbackDataHolder),
    /// The response type.
    Type(ResponseType),
    /// A field that is not one of the above.
    Unknown,
}

/// Why a map of fields is not an interaction response.
#[derive(Debug, PartialEq, Eq)]
pub enum ResponseReadError {
    /// A field occurs more than once.
    DuplicateField { field: ResponseField },
    /// The `type` field is absent.
    MissingField { field: ResponseField },
    /// The type needs data that is absent (`data` is `None`) or that does not
    /// fit it (`data` says why).
    UnknownCombination { kind: ResponseType, data: Option<ResponseDataError> },
}

/// The fields of a response read so far.
#[derive(Debug, PartialEq, Eq)]
pub struct ResponsePartial {
    pub data: Option<CallbackDataHolder>,
    pub kind: Option<ResponseType>,
}

/// Reading one more entry: a field seen before is an error, an unknown field
/// changes nothing.
pub open spec fn response_step(st: ResponsePartial, entry: ResponseEntry) -> Result<
    ResponsePartial,
    ResponseReadError,
> {
    match entry {
        ResponseEntry::Data(holder) => if st.data is Some {
            Err(ResponseReadError::DuplicateField { field: ResponseField::Data })
        } else {
            Ok(ResponsePartial { data: Some(holder), kind: st.kind })
        },
        ResponseEntry::Type(kind) => if st.kind is Some {
            Err(ResponseReadError::DuplicateField { field: ResponseField::Type })
        } else {
            Ok(ResponsePartial { data: st.data, kind: Some(kind) })
        },
        ResponseEntry::Unknown => Ok(st),
    }
}

/// Reading the remaining entries, in order, from a state; the first error ends
/// the reading.
pub open spec fn response_read_from(st: ResponsePartial, entries: Seq<ResponseEntry>) -> Result<
    ResponsePartial,
    ResponseReadError,
>
    decreases entries.len(),
{
    if entries.len() == 0 {
        Ok(st)
    } else {
        match response_step(st, entries[0]) {
            Err(e) => Err(e),
            Ok(next) => response_read_from(next, entries.drop_first()),
        }
    }
}

/// Reading all entries from the empty state.
pub open spec fn response_read(entries: Seq<ResponseEntry>) -> Result<
    ResponsePartial,
    ResponseReadError,
> {
    response_read_from(ResponsePartial { data: None, kind: None }, entries)
}

/// `res` is the response made of the fields read: the type is required; types
/// without data ignore any data; the others need data that fits the type.
pub open spec fn response_finish(
    st: ResponsePartial,
    res: Result<InteractionResponse, ResponseReadError>,
) -> bool {
    match st.kind {
        None => res == Err::<InteractionResponse, ResponseReadError>(
            ResponseReadError::MissingField { field: ResponseField::Type },
        ),
        Some(kind) => match st.data {
            None => match kind {
                ResponseType::Pong => res == Ok::<InteractionResponse, ResponseReadError>(
                    InteractionResponse::Pong,
                ),
                ResponseType::DeferredUpdateMessage => res == Ok::<
                    InteractionResponse,
                    ResponseReadError,
                >(InteractionResponse::DeferredUpdateMessage),
                _ => res == Err::<InteractionResponse, ResponseReadError>(
                    ResponseReadError::UnknownCombination { kind, data: None },
                ),
            },
            Some(holder) => match kind {
                ResponseType::Pong => res == Ok::<InteractionResponse, ResponseReadError>(
                    InteractionResponse::Pong,
                ),
                ResponseType::DeferredUpdateMessage => res == Ok::<
                    InteractionResponse,
                    ResponseReadError,
                >(InteractionResponse::DeferredUpdateMessage),
                ResponseType::ChannelMessageWithSource => res matches Ok(
                    InteractionResponse::ChannelMessageWithSource(data),
                ) && callback_data_from(holder, data),
                ResponseType::DeferredChannelMessageWithSource => res matches Ok(
                    InteractionResponse::DeferredChannelMessageWithSource(data),
                ) && callback_data_from(holder, data),
                ResponseType::UpdateMessage => res matches Ok(
                    InteractionResponse::UpdateMessage(data),
                ) && callback_data_from(holder, data),
                ResponseType::ApplicationCommandAutocompleteResult => res == match autocomplete_from(
                    holder,
                ) {
                    Ok(a) => Ok(InteractionResponse::Autocomplete(a)),
                    Err(e) => Err(ResponseReadError::UnknownCombination { kind, data: Some(e) }),
                },
                ResponseType::Modal => res == match modal_from(holder) {
                    Ok(m) => Ok(InteractionResponse::Modal(m)),
                    Err(e) => Err(ResponseReadError::UnknownCombination { kind, data: Some(e) }),
                },
            },
        },
    }
}

/// `res` is the outcome of reading a response from a map's entries.
pub open spec fn response_outcome(
    entries: Seq<ResponseEntry>,
    res: Result<InteractionResponse, ResponseReadError>,
) -> bool {
    match response_read(entries) {
        Err(e) => res == Err::<InteractionResponse, ResponseReadError>(e),
        Ok(st) => response_finish(st, res),
    }
}

proof fn lemma_read_step(st: ResponsePartial, entries: Seq<ResponseEntry>, i: int)
    requires
        0 <= i < entries.len(),
    ensures
        response_read_from(st, entries.skip(i)) == match response_step(st, entries[i]) {
            Err(e) => Err(e),
            Ok(next) => response_read_from(next, entries.skip(i + 1)),
        },
{
    assert(entries.skip(i).drop_first() =~= entries.skip(i + 1));
}

/// The `data` object written for callback data: its message fields, the embed
/// list left out when it is empty.
pub open spec fn holder_of_callback_data(data: CallbackData) -> CallbackDataHolder {
    CallbackDataHolder {
        allowed_mentions: data.allowed_mentions,
        components: data.components,
        content: data.content,
        embeds: if data.embeds@.len() == 0 {
            None
        } else {
            Some(data.embeds)
        },
        flags: data.flags,
        tts: data.tts,
        choices: None,
        custom_id: None,
        title: None,
    }
}

/// The `data` object written for autocomplete data: its choices.
pub open spec fn holder_of_autocomplete(data: Autocomplete) -> CallbackDataHolder {
    CallbackDataHolder {
        allowed_mentions: None,
        components: None,
        content: None,
        embeds: None,
        flags: None,
        tts: None,
        choices: Some(data.choices),
        custom_id: None,
        title: None,
    }
}

/// The `data` object written for modal data: its custom id, title and
/// components.
pub open spec fn holder_of_modal(data: ModalData) -> CallbackDataHolder {
    CallbackDataHolder {
        allowed_mentions: None,
        components: Some(data.components),
        content: None,
        embeds: None,
        flags: None,
        tts: None,
        choices: None,
        custom_id: Some(data.custom_id),
        title: Some(data.title),
    }
}

/// Entries written for a response: its type, then its data where it has any.
pub open spec fn response_entries(response: InteractionResponse) -> Seq<ResponseEntry> {
    match response {
        InteractionResponse::Pong => seq![ResponseEntry::Type(ResponseType::Pong)],
        InteractionResponse::DeferredUpdateMessage => seq![
            ResponseEntry::Type(ResponseType::DeferredUpdateMessage),
        ],
        InteractionResponse::ChannelMessageWithSource(data) => seq![
            ResponseEntry::Type(ResponseType::ChannelMessageWithSource),
            ResponseEntry::Data(holder_of_callback_data(data)),
        ],
        InteractionResponse::DeferredChannelMessageWithSource(data) => seq![
            ResponseEntry::Type(ResponseType::DeferredChannelMessageWithSource),
            ResponseEntry::Data(holder_of_callback_data(data)),
        ],
        InteractionResponse::UpdateMessage(data) => seq![
            ResponseEntry::Type(ResponseType::UpdateMessage),
            ResponseEntry::Data(holder_of_callback_data(data)),
        ],
        InteractionResponse::Autocomplete(data) => seq![
            ResponseEntry::Type(ResponseType::ApplicationCommandAutocompleteResult),
            ResponseEntry::Data(holder_of_autocomplete(data)),
        ],
        InteractionResponse::Modal(data) => seq![
            ResponseEntry::Type(ResponseType::Modal),
            ResponseEntry::Data(holder_of_modal(data)),
        ],
    }
}

/// Two callback data hold the same values; embed lists are compared by their
/// elements.
pub open spec fn same_callback_data(a: CallbackData, b: CallbackData) -> bool {
    &&& a.allowed_mentions == b.allowed_mentions
    &&& a.components == b.components
    &&& a.content == b.content
    &&& a.embeds@ == b.embeds@
    &&& a.flags == b.flags
    &&& a.tts == b.tts
}

/// Two responses are the same variant holding the same values.
pub open spec fn same_response(a: InteractionResponse, b: InteractionResponse) -> bool {
    match (a, b) {
        (InteractionResponse::Pong, InteractionResponse::Pong) => true,
        (InteractionResponse::DeferredUpdateMessage, InteractionResponse::DeferredUpdateMessage) =>
            true,
        (
            InteractionResponse::ChannelMessageWithSource(x),
            InteractionResponse::ChannelMessageWithSource(y),
        ) => same_callback_data(x, y),
        (
            InteractionResponse::DeferredChannelMessageWithSource(x),
            InteractionResponse::DeferredChannelMessageWithSource(y),
        ) => same_callback_data(x, y),
        (InteractionResponse::UpdateMessage(x), InteractionResponse::UpdateMessage(y)) =>
            same_callback_data(x, y),
        (InteractionResponse::Autocomplete(x), InteractionResponse::Autocomplete(y)) => x == y,
        (InteractionResponse::Modal(x), InteractionResponse::Modal(y)) => x == y,
        _ => false,
    }
}

proof fn lemma_read_written(response: InteractionResponse)
    ensures
        response_read(response_entries(response)) == Ok::<ResponsePartial, ResponseReadError>(
            ResponsePartial {
                data: match response {
                    InteractionResponse::Pong => None,
                    InteractionResponse::DeferredUpdateMessage => None,
                    InteractionResponse::ChannelMessageWithSource(d) => Some(
                        holder_of_callback_data(d),
                    ),
                    InteractionResponse::DeferredChannelMessageWithSource(d) => Some(
                        holder_of_callback_data(d),
                    ),
                    InteractionResponse::UpdateMessage(d) => Some(holder_of_callback_data(d)),
                    InteractionResponse::Autocomplete(d) => Some(holder_of_autocomplete(d)),
                    InteractionResponse::Modal(d) => Some(holder_of_modal(d)),
                },
                kind: Some(response_kind(response)),
            },
        ),
{
    let s = response_entries(response);
    let empty = ResponsePartial { data: None, kind: None };
    assert(s.skip(0) =~= s);
    lemma_read_step(empty, s, 0);
    if s.len() == 2 {
        lemma_read_step(ResponsePartial { data: None, kind: Some(response_kind(response)) }, s, 1);
        assert(s.skip(2) =~= Seq::<ResponseEntry>::empty());
    } else {
        assert(s.skip(1) =~= Seq::<ResponseEntry>::empty());
    }
}

/// Writing a response as entries and reading the entries back succeeds and
/// gives the same response (an empty embed list may come back as another
/// empty list).
pub proof fn lemma_response_round_trip(
    response: InteractionResponse,
    res: Result<InteractionResponse, ResponseReadError>,
)
    requires
        response_outcome(response_entries(response), res),
    ensures
        res matches Ok(back) && same_response(back, response),
{
    lemma_read_written(response);
    match (res, response) {
        (Ok(InteractionResponse::ChannelMessageWithSource(x)), InteractionResponse::ChannelMessageWithSource(y)) => {
            assert(x.embeds@ =~= y.embeds@);
        },
        (Ok(InteractionResponse::DeferredChannelMessageWithSource(x)), InteractionResponse::DeferredChannelMessageWithSource(y)) => {
            assert(x.embeds@ =~= y.embeds@);
        },
        (Ok(InteractionResponse::UpdateMessage(x)), InteractionResponse::UpdateMessage(y)) => {
            assert(x.embeds@ =~= y.embeds@);
        },
        _ => {},
    }
}

/// A response read from a map has the type named by the map's `type` field.
pub proof fn lemma_read_kind(entries: Seq<ResponseEntry>, response: InteractionResponse)
    requires
        response_outcome(entries, Ok::<InteractionResponse, ResponseReadError>(response)),
    ensures
        response_read(entries) matches Ok(st) && st.kind == Some(response_kind(response)),
{
}

/// Without a `data` field only the two types that carry no data, `Pong` and
/// `DeferredUpdateMessage`, make a response; every other type is refused as an
/// unknown combination of that type with no data.
pub proof fn lemma_response_without_data(
    st: ResponsePartial,
    res: Result<InteractionResponse, ResponseReadError>,
)
    requires
        st.data is None,
        response_finish(st, res),
    ensures
        res matches Ok(r) ==> (r == InteractionResponse::Pong || r
            == InteractionResponse::DeferredUpdateMessage),
        match st.kind {
            Some(k) => (k != ResponseType::Pong && k != ResponseType::DeferredUpdateMessage)
                ==> res == Err::<InteractionResponse, ResponseReadError>(
                ResponseReadError::UnknownCombination { kind: k, data: None },
            ),
            None => true,
        },
{
}

/// Reading entries none of which is a `data` field leaves the data absent.
proof fn lemma_read_keeps_no_data(st: ResponsePartial, entries: Seq<ResponseEntry>)
    requires
        st.data is None,
        forall|i: int| 0 <= i < entries.len() ==> !(#[trigger] entries[i] is Data),
    ensures
        response_read_from(st, entries) matches Ok(end) ==> end.data is None,
    decreases entries.len(),
{
    if entries.len() > 0 {
        let rest = entries.drop_first();
        assert forall|i: int| 0 <= i < rest.len() implies !(#[trigger] rest[i] is Data) by {
            assert(rest[i] == entries[i + 1]);
        }
        assert(!(entries[0] is Data));
        match response_step(st, entries[0]) {
            Ok(next) => {
                lemma_read_keeps_no_data(next, rest);
            },
            Err(_) => {},
        }
    }
}

/// A map of fields with no `data` field reads as a response only when its type
/// is `Pong` or `DeferredUpdateMessage`; with any other type it is refused as
/// an unknown combination of that type with no data.
pub proof fn lemma_entries_without_data(
    entries: Seq<ResponseEntry>,
    res: Result<InteractionResponse, ResponseReadError>,
)
    requires
        forall|i: int| 0 <= i < entries.len() ==> !(#[trigger] entries[i] is Data),
        response_outcome(entries, res),
    ensures
        res matches Ok(r) ==> (r == InteractionResponse::Pong || r
            == InteractionResponse::DeferredUpdateMessage),
        match response_read(entries) {
            Ok(ResponsePartial { kind: Some(k), .. }) => (k != ResponseType::Pong && k
                != ResponseType::DeferredUpdateMessage) ==> res == Err::<
                InteractionResponse,
                ResponseReadError,
            >(ResponseReadError::UnknownCombination { kind: k, data: None }),
            _ => true,
        },
{
    lemma_read_keeps_no_data(ResponsePartial { data: None, kind: None }, entries);
    if let Ok(st) = response_read(entries) {
        lemma_response_without_data(st, res);
    }
}

impl CallbackDataHolder {
    /// The `data` object written for callback data.
    pub fn from_callback_data(data: CallbackData) -> (res: CallbackDataHolder)
        ensures
            res == holder_of_callback_data(data),
    {
        let embeds = if data.embeds.len() == 0 {
            None
        } else {
            Some(data.embeds)
        };
        CallbackDataHolder {
            allowed_mentions: data.allowed_mentions,
            components: data.components,
            content: data.content,
            embeds,
            flags: data.flags,
            tts: data.tts,
            choices: None,
            custom_id: None,
            title: None,
        }
    }

    /// The `data` object written for autocomplete data.
    pub fn from_autocomplete(data: Autocomplete) -> (res: CallbackDataHolder)
        ensures
            res == holder_of_autocomplete(data),
    {
        CallbackDataHolder {
            allowed_mentions: None,
            components: None,
            content: None,
            embeds: None,
            flags: None,
            tts: None,
            choices: Some(data.choices),
            custom_id: None,
            title: None,
        }
    }

    /// The `data` object written for modal data.
    pub fn from_modal(data: ModalData) -> (res: CallbackDataHolder)
        ensures
            res == holder_of_modal(data),
    {
        CallbackDataHolder {
            allowed_mentions: None,
            components: Some(data.components),
            content: None,
            embeds: None,
            flags: None,
            tts: None,
            choices: None,
            custom_id: Some(data.custom_id),
            title: Some(data.title),
        }
    }
}

impl InteractionResponse {
    /// Number of fields written for the response: one for the types without
    /// data, two for the others.
    pub fn field_count(&self) -> (res: usize)
        ensures
            res == response_entries(*self).len(),
    {
        match self {
            InteractionResponse::Pong | InteractionResponse::DeferredUpdateMessage => 1,
            _ => 2,
        }
    }

    /// The entries written for the response, in order.
    pub fn into_entries(self) -> (res: Vec<ResponseEntry>)
        ensures
            res@ == response_entries(self),
    {
        let ghost original = self;
        let kind = self.kind();
        let mut out: Vec<ResponseEntry> = Vec::new();
        out.push(ResponseEntry::Type(kind));
        match self {
            InteractionResponse::Pong | InteractionResponse::DeferredUpdateMessage => {},
            InteractionResponse::ChannelMessageWithSource(data)
            | InteractionResponse::DeferredChannelMessageWithSource(data)
            | InteractionResponse::UpdateMessage(data) => {
                out.push(ResponseEntry::Data(CallbackDataHolder::from_callback_data(data)));
            },
            InteractionResponse::Autocomplete(data) => {
                out.push(ResponseEntry::Data(CallbackDataHolder::from_autocomplete(data)));
            },
            InteractionResponse::Modal(data) => {
                out.push(ResponseEntry::Data(CallbackDataHolder::from_modal(data)));
            },
        }
        assert(out@ =~= response_entries(original));
        out
    }
}

/// Whether a field has already been read.
pub open spec fn response_has(st: ResponsePartial, field: ResponseField) -> bool {
    match field {
        ResponseField::Data => st.data is Some,
        ResponseField::Type => st.kind is Some,
    }
}

/// The field an entry gives a value for; none for an unknown field.
pub open spec fn response_entry_field(entry: ResponseEntry) -> Option<ResponseField> {
    match entry {
        ResponseEntry::Data(_) => Some(ResponseField::Data),
        ResponseEntry::Type(_) => Some(ResponseField::Type),
        ResponseEntry::Unknown => None,
    }
}

/// Checking an entry's key before its value reports exactly the duplicate that
/// reading the whole entry reports, so a reader may check keys first.
pub proof fn lemma_response_key_check(st: ResponsePartial, entry: ResponseEntry)
    ensures
        response_entry_field(entry) matches Some(field) ==> (response_has(st, field) <==> response_step(st, entry) == Err::<ResponsePartial, ResponseReadError>(
            ResponseReadError::DuplicateField { field },
        )),
{
}

impl ResponsePartial {
    /// Nothing read yet.
    pub fn new() -> (res: ResponsePartial)
        ensures
            res == (ResponsePartial { data: None, kind: None }),
    {
        ResponsePartial { data: None, kind: None }
    }

    /// Check a key before its value is read: a field read before is a
    /// duplicate.
    pub fn check_key(&self, field: ResponseField) -> (res: Result<(), ResponseReadError>)
        ensures
            res is Err <==> response_has(*self, field),
            res matches Err(e) ==> e == (ResponseReadError::DuplicateField { field }),
    {
        let seen = match field {
            ResponseField::Data => self.data.is_some(),
            ResponseField::Type => self.kind.is_some(),
        };
        if seen {
            Err(ResponseReadError::DuplicateField { field })
        } else {
            Ok(())
        }
    }

    /// Read one more entry.
    pub fn add(self, entry: ResponseEntry) -> (res: Result<ResponsePartial, ResponseReadError>)
        ensures
            res == response_step(self, entry),
    {
        match entry {
            ResponseEntry::Data(holder) => {
                if self.data.is_some() {
                    return Err(ResponseReadError::DuplicateField { field: ResponseField::Data });
                }
                Ok(ResponsePartial { data: Some(holder), kind: self.kind })
            },
            ResponseEntry::Type(k) => {
                if self.kind.is_some() {
                    return Err(ResponseReadError::DuplicateField { field: ResponseField::Type });
                }
                Ok(ResponsePartial { data: self.data, kind: Some(k) })
            },
            ResponseEntry::Unknown => Ok(self),
        }
    }

    /// The response made of the fields read, once all entries are read.
    pub fn finish(self) -> (res: Result<InteractionResponse, ResponseReadError>)
        ensures
            response_finish(self, res),
    {
        let kind = match self.kind {
            Some(k) => k,
            None => {
                return Err(ResponseReadError::MissingField { field: ResponseField::Type });
            },
        };
        match kind {
            ResponseType::Pong => Ok(InteractionResponse::Pong),
            ResponseType::DeferredUpdateMessage => Ok(InteractionResponse::DeferredUpdateMessage),
            _ => match self.data {
                None => Err(ResponseReadError::UnknownCombination { kind, data: None }),
                Some(holder) => match holder.to_response(kind) {
                    Ok(response) => Ok(response),
                    Err(e) => Err(ResponseReadError::UnknownCombination { kind, data: Some(e) }),
                },
            },
        }
    }
}

/// Read an interaction response from the entries of a map of fields, in order.
pub fn response_from_entries(entries: Vec<ResponseEntry>) -> (res: Result<
    InteractionResponse,
    ResponseReadError,
>)
    ensures
        response_outcome(entries@, res),
{
    let ghost all = entries@;
    let mut st = ResponsePartial::new();
    let mut rest = entries;
    assert(all.skip(0) =~= all);
    let ghost mut i: int = 0;
    while rest.len() > 0
        invariant
            all == entries@,
            0 <= i <= all.len(),
            rest@ == all.skip(i),
            response_read(all) == response_read_from(st, rest@),
        decreases rest.len(),
    {
        proof {
            lemma_read_step(st, all, i);
        }
        let entry = rest.remove(0);
        proof {
            assert(all.skip(i + 1) =~= rest@);
            i = i + 1;
        }
        st = match st.add(entry) {
            Ok(next) => next,
            Err(e) => {
                return Err(e);
            },
        };
    }
    st.finish()
}

} // verus!
