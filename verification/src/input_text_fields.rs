//! Reading an [`InputText`] field by field, as a map of named fields is read,
//! and writing it back as the fields that a reader accepts.

use vstd::prelude::*;

use crate::component::{ComponentType, InputText, InputTextStyle};

verus! {

/// Name of a known field of an input text.
#[derive(Clone, Copy, Debug, PartialEq, Eq, Hash, Structural)]
pub enum InputTextField {
    /// `type`, the component type.
    Type,
    /// `style`.
    Style,
    /// `custom_id`.
    CustomId,
    /// `label`.
    Label,
    /// `placeholder`.
    Placeholder,
    /// `min_length`.
    MinLength,
    /// `max_length`.
    MaxLength,
}

/// Name of a field as it appears on the wire.
pub open spec fn input_text_field_name(field: InputTextField) -> Seq<char> {
    match field {
        InputTextField::Type => "type"@,
        InputTextField::Style => "style"@,
        InputTextField::CustomId => "custom_id"@,
        InputTextField::Label => "label"@,
        InputTextField::Placeholder => "placeholder"@,
        InputTextField::MinLength => "min_length"@,
        InputTextField::MaxLength => "max_length"@,
    }
}

impl InputTextField {
    /// Name of the field as it appears on the wire.
    pub fn name(self) -> (res: &'static str)
        ensures
            res@ == input_text_field_name(self),
    {
        match self {
            InputTextField::Type => "type",
            InputTextField::Style => "style",
            InputTextField::CustomId => "custom_id",
            InputTextField::Label => "label",
            InputTextField::Placeholder => "placeholder",
            InputTextField::MinLength => "min_length",
            InputTextField::MaxLength => "max_length",
        }
    }
}

/// One entry of an input text's map of fields: a known field with its value,
/// or a field of another name, whose value is skipped.
#[derive(Debug, PartialEq, Eq)]
pub enum InputTextEntry {
    /// The component type.
    Type(ComponentType),
    /// The style.
    Style(InputTextStyle),
    /// The user defined identifier.
    CustomId(String),
    /// The label.
    Label(String),
    /// The placeholder.
    Placeholder(String),
    /// The minimum length.
    MinLength(i32),
    /// The maximum length.
    MaxLength(i32),
    /// A field that is not one of the above.
    Unknown,
}

/// Why a map of fields is not an input text.
#[derive(Clone, Copy, Debug, PartialEq, Eq, Structural)]
pub enum InputTextError {
    /// A field occurs more than once.
    DuplicateField { field: InputTextField },
    /// The component type is not [`ComponentType::InputText`].
    InvalidType { found: ComponentType },
    /// A required field is absent.
    MissingField { field: InputTextField },
}

/// Name under which an error reports its field: the field's wire name, except
/// that a missing component type is reported as `kind`.
pub open spec fn input_text_error_field_name(error: InputTextError) -> Seq<char> {
    match error {
        InputTextError::DuplicateField { field } => input_text_field_name(field),
        InputTextError::InvalidType { found } => "type"@,
        InputTextError::MissingField { field } => if field == InputTextField::Type {
            "kind"@
        } else {
            input_text_field_name(field)
        },
    }
}

impl InputTextError {
    /// Name under which the error reports its field.
    pub fn field_name(self) -> (res: &'static str)
        ensures
            res@ == input_text_error_field_name(self),
    {
        match self {
            InputTextError::DuplicateField { field } => field.name(),
            InputTextError::InvalidType { found } => "type",
            InputTextError::MissingField { field } => match field {
                InputTextField::Type => "kind",
                _ => field.name(),
            },
        }
    }
}

/// The fields of an input text read so far.
#[derive(Debug, PartialEq, Eq)]
pub struct InputTextPartial {
    pub kind: Option<ComponentType>,
    pub custom_id: Option<String>,
    pub label: Option<String>,
    pub style: Option<InputTextStyle>,
    pub placeholder: Option<String>,
    pub min_length: Option<i32>,
    pub max_length: Option<i32>,
}

/// Nothing read yet.
pub open spec fn input_text_partial_empty() -> InputTextPartial {
    InputTextPartial {
        kind: None,
        custom_id: None,
        label: None,
        style: None,
        placeholder: None,
        min_length: None,
        max_length: None,
    }
}

/// Reading one more entry: a field seen before is an error, a component type
/// other than an input text is an error, an unknown field changes nothing.
pub open spec fn input_text_step(st: InputTextPartial, entry: InputTextEntry) -> Result<
    InputTextPartial,
    InputTextError,
> {
    match entry {
        InputTextEntry::Type(kind) => if st.kind is Some {
            Err(InputTextError::DuplicateField { field: InputTextField::Type })
        } else if kind != ComponentType::InputText {
            Err(InputTextError::InvalidType { found: kind })
        } else {
            Ok(InputTextPartial { kind: Some(kind), ..st })
        },
        InputTextEntry::CustomId(v) => if st.custom_id is Some {
            Err(InputTextError::DuplicateField { field: InputTextField::CustomId })
        } else {
            Ok(InputTextPartial { custom_id: Some(v), ..st })
        },
        InputTextEntry::Label(v) => if st.label is Some {
            Err(InputTextError::DuplicateField { field: InputTextField::Label })
        } else {
            Ok(InputTextPartial { label: Some(v), ..st })
        },
        InputTextEntry::Style(v) => if st.style is Some {
            Err(InputTextError::DuplicateField { field: InputTextField::Style })
        } else {
            Ok(InputTextPartial { style: Some(v), ..st })
        },
        InputTextEntry::Placeholder(v) => if st.placeholder is Some {
            Err(InputTextError::DuplicateField { field: InputTextField::Placeholder })
        } else {
            Ok(InputTextPartial { placeholder: Some(v), ..st })
        },
        InputTextEntry::MaxLength(v) => if st.max_length is Some {
            Err(InputTextError::DuplicateField { field: InputTextField::MaxLength })
        } else {
            Ok(InputTextPartial { max_length: Some(v), ..st })
        },
        InputTextEntry::MinLength(v) => if st.min_length is Some {
            Err(InputTextError::DuplicateField { field: InputTextField::MinLength })
        } else {
            Ok(InputTextPartial { min_length: Some(v), ..st })
        },
        InputTextEntry::Unknown => Ok(st),
    }
}

/// Reading the remaining entries, in order, from a state; the first error ends
/// the reading.
pub open spec fn input_text_read(st: InputTextPartial, entries: Seq<InputTextEntry>) -> Result<
    InputTextPartial,
    InputTextError,
>
    decreases entries.len(),
{
    if entries.len() == 0 {
        Ok(st)
    } else {
        match input_text_step(st, entries[0]) {
            Err(e) => Err(e),
            Ok(next) => input_text_read(next, entries.drop_first()),
        }
    }
}

/// The input text made of the fields read, once all entries are read: the
/// component type, custom id, label and style must be present, in that order
/// of checking.
pub open spec fn input_text_finish(st: InputTextPartial) -> Result<InputText, InputTextError> {
    if st.kind is None {
        Err(InputTextError::MissingField { field: InputTextField::Type })
    } else if st.custom_id is None {
        Err(InputTextError::MissingField { field: InputTextField::CustomId })
    } else if st.label is None {
        Err(InputTextError::MissingField { field: InputTextField::Label })
    } else if st.style is None {
        Err(InputTextError::MissingField { field: InputTextField::Style })
    } else {
        Ok(
            InputText {
                custom_id: st.custom_id->0,
                label: st.label->0,
                style: st.style->0,
                placeholder: st.placeholder,
                min_length: st.min_length,
                max_length: st.max_length,
            },
        )
    }
}

/// Outcome of reading an input text from a map's entries.
pub open spec fn input_text_outcome(entries: Seq<InputTextEntry>) -> Result<
    InputText,
    InputTextError,
> {
    match input_text_read(input_text_partial_empty(), entries) {
        Err(e) => Err(e),
        Ok(st) => input_text_finish(st),
    }
}

/// Entries written for an input text: the component type, custom id, label and
/// style, then the placeholder, minimum and maximum length where present.
pub open spec fn input_text_entries(text: InputText) -> Seq<InputTextEntry> {
    seq![
        InputTextEntry::Type(ComponentType::InputText),
        InputTextEntry::CustomId(text.custom_id),
        InputTextEntry::Label(text.label),
        InputTextEntry::Style(text.style),
    ] + match text.placeholder {
        Some(p) => seq![InputTextEntry::Placeholder(p)],
        None => Seq::empty(),
    } + match text.min_length {
        Some(n) => seq![InputTextEntry::MinLength(n)],
        None => Seq::empty(),
    } + match text.max_length {
        Some(n) => seq![InputTextEntry::MaxLength(n)],
        None => Seq::empty(),
    }
}

/// Number of fields written for an input text.
pub open spec fn input_text_field_count(text: InputText) -> nat {
    4 + (if text.placeholder is Some {
        1nat
    } else {
        0
    }) + (if text.min_length is Some {
        1nat
    } else {
        0
    }) + (if text.max_length is Some {
        1nat
    } else {
        0
    })
}

proof fn lemma_read_step(st: InputTextPartial, entries: Seq<InputTextEntry>, i: int)
    requires
        0 <= i < entries.len(),
    ensures
        input_text_read(st, entries.skip(i)) == match input_text_step(st, entries[i]) {
            Err(e) => Err(e),
            Ok(next) => input_text_read(next, entries.skip(i + 1)),
        },
{
    assert(entries.skip(i).drop_first() =~= entries.skip(i + 1));
}

/// Reading the entries after the fixed ones, from a state where the component
/// type, custom id, label and style are set and the optional fields are not.
proof fn lemma_read_optional_tail(t: InputText)
    ensures
        input_text_read(
            InputTextPartial {
                kind: Some(ComponentType::InputText),
                custom_id: Some(t.custom_id),
                label: Some(t.label),
                style: Some(t.style),
                placeholder: None,
                min_length: None,
                max_length: None,
            },
            input_text_entries(t).skip(4),
        ) == Ok::<InputTextPartial, InputTextError>(
            InputTextPartial {
                kind: Some(ComponentType::InputText),
                custom_id: Some(t.custom_id),
                label: Some(t.label),
                style: Some(t.style),
                placeholder: t.placeholder,
                min_length: t.min_length,
                max_length: t.max_length,
            },
        ),
{
    let p: Seq<InputTextEntry> = match t.placeholder {
        Some(v) => seq![InputTextEntry::Placeholder(v)],
        None => Seq::empty(),
    };
    let lo: Seq<InputTextEntry> = match t.min_length {
        Some(n) => seq![InputTextEntry::MinLength(n)],
        None => Seq::empty(),
    };
    let hi: Seq<InputTextEntry> = match t.max_length {
        Some(n) => seq![InputTextEntry::MaxLength(n)],
        None => Seq::empty(),
    };
    let tail = input_text_entries(t).skip(4);
    assert(tail =~= p + lo + hi);
    let s0 = InputTextPartial {
        kind: Some(ComponentType::InputText),
        custom_id: Some(t.custom_id),
        label: Some(t.label),
        style: Some(t.style),
        placeholder: None,
        min_length: None,
        max_length: None,
    };
    let s1 = InputTextPartial { placeholder: t.placeholder, ..s0 };
    let s2 = InputTextPartial { min_length: t.min_length, ..s1 };
    let s3 = InputTextPartial { max_length: t.max_length, ..s2 };
    // each optional entry moves to the next state
    assert(input_text_read(s2, hi) == Ok::<InputTextPartial, InputTextError>(s3)) by {
        if hi.len() > 0 {
            assert(hi.drop_first() =~= Seq::<InputTextEntry>::empty());
            assert(input_text_step(s2, hi[0]) == Ok::<InputTextPartial, InputTextError>(s3));
            assert(input_text_read(s3, hi.drop_first()) == Ok::<InputTextPartial, InputTextError>(
                s3,
            ));
        } else {
            assert(s3 == s2);
        }
    }
    assert(input_text_read(s1, lo + hi) == input_text_read(s2, hi)) by {
        if lo.len() > 0 {
            assert((lo + hi)[0] == lo[0]);
            assert((lo + hi).drop_first() =~= hi);
        } else {
            assert(lo + hi =~= hi);
        }
    }
    assert(input_text_read(s0, p + lo + hi) == input_text_read(s1, lo + hi)) by {
        if p.len() > 0 {
            assert((p + lo + hi)[0] == p[0]);
            assert((p + lo + hi).drop_first() =~= lo + hi);
        } else {
            assert(p + lo + hi =~= lo + hi);
        }
    }
}

/// Writing an input text as entries and reading the entries back gives the
/// same input text, and the entries are as many as the written field count.
pub proof fn lemma_input_text_round_trip(t: InputText)
    ensures
        input_text_outcome(input_text_entries(t)) == Ok::<InputText, InputTextError>(t),
        input_text_entries(t).len() == input_text_field_count(t),
{
    let s = input_text_entries(t);
    let e = input_text_partial_empty();
    let s1 = InputTextPartial { kind: Some(ComponentType::InputText), ..e };
    let s2 = InputTextPartial { custom_id: Some(t.custom_id), ..s1 };
    let s3 = InputTextPartial { label: Some(t.label), ..s2 };
    let s4 = InputTextPartial { style: Some(t.style), ..s3 };
    lemma_read_step(e, s, 0);
    lemma_read_step(s1, s, 1);
    lemma_read_step(s2, s, 2);
    lemma_read_step(s3, s, 3);
    assert(s.skip(0) =~= s);
    lemma_read_optional_tail(t);
}

impl InputText {
    /// Number of fields that writing the input text produces: four, plus one
    /// for each optional field that is present.
    pub fn field_count(&self) -> (res: usize)
        ensures
            res == input_text_field_count(*self),
    {
        let mut count: usize = 4;
        if self.placeholder.is_some() {
            count = count + 1;
        }
        if self.min_length.is_some() {
            count = count + 1;
        }
        if self.max_length.is_some() {
            count = count + 1;
        }
        count
    }

    /// The entries that writing the input text produces, in order.
    pub fn into_entries(self) -> (res: Vec<InputTextEntry>)
        ensures
            res@ == input_text_entries(self),
    {
        let ghost original = self;
        let mut out: Vec<InputTextEntry> = Vec::new();
        out.push(InputTextEntry::Type(ComponentType::InputText));
        out.push(InputTextEntry::CustomId(self.custom_id));
        out.push(InputTextEntry::Label(self.label));
        out.push(InputTextEntry::Style(self.style));
        if let Some(p) = self.placeholder {
            out.push(InputTextEntry::Placeholder(p));
        }
        if let Some(n) = self.min_length {
            out.push(InputTextEntry::MinLength(n));
        }
        if let Some(n) = self.max_length {
            out.push(InputTextEntry::MaxLength(n));
        }
        assert(out@ =~= input_text_entries(original));
        out
    }
}

/// Whether a field has already been read.
pub open spec fn input_text_has(st: InputTextPartial, field: InputTextField) -> bool {
    match field {
        InputTextField::Type => st.kind is Some,
        InputTextField::Style => st.style is Some,
        InputTextField::CustomId => st.custom_id is Some,
        InputTextField::Label => st.label is Some,
        InputTextField::Placeholder => st.placeholder is Some,
        InputTextField::MinLength => st.min_length is Some,
        InputTextField::MaxLength => st.max_length is Some,
    }
}

/// The field an entry gives a value for; none for an unknown field.
pub open spec fn input_text_entry_field(entry: InputTextEntry) -> Option<InputTextField> {
    match entry {
        InputTextEntry::Type(_) => Some(InputTextField::Type),
        InputTextEntry::Style(_) => Some(InputTextField::Style),
        InputTextEntry::CustomId(_) => Some(InputTextField::CustomId),
        InputTextEntry::Label(_) => Some(InputTextField::Label),
        InputTextEntry::Placeholder(_) => Some(InputTextField::Placeholder),
        InputTextEntry::MinLength(_) => Some(InputTextField::MinLength),
        InputTextEntry::MaxLength(_) => Some(InputTextField::MaxLength),
        InputTextEntry::Unknown => None,
    }
}

/// Checking an entry's key before its value reports exactly the duplicate that
/// reading the whole entry reports, so a reader may check keys first.
pub proof fn lemma_input_text_key_check(st: InputTextPartial, entry: InputTextEntry)
    ensures
        input_text_entry_field(entry) matches Some(field) ==> (input_text_has(st, field) <==> input_text_step(st, entry) == Err::<InputTextPartial, InputTextError>(
            InputTextError::DuplicateField { field },
        )),
        entry == InputTextEntry::Unknown ==> input_text_step(st, entry) == Ok::<InputTextPartial, InputTextError>(st),
{
}

impl InputTextPartial {
    /// Nothing read yet.
    pub fn new() -> (res: InputTextPartial)
        ensures
            res == input_text_partial_empty(),
    {
        InputTextPartial {
            kind: None,
            custom_id: None,
            label: None,
            style: None,
            placeholder: None,
            min_length: None,
            max_length: None,
        }
    }

    /// Check a key before its value is read: a field read before is a
    /// duplicate.
    pub fn check_key(&self, field: InputTextField) -> (res: Result<(), InputTextError>)
        ensures
            res is Err <==> input_text_has(*self, field),
            res matches Err(e) ==> e == (InputTextError::DuplicateField { field }),
    {
        let seen = match field {
            InputTextField::Type => self.kind.is_some(),
            InputTextField::Style => self.style.is_some(),
            InputTextField::CustomId => self.custom_id.is_some(),
            InputTextField::Label => self.label.is_some(),
            InputTextField::Placeholder => self.placeholder.is_some(),
            InputTextField::MinLength => self.min_length.is_some(),
            InputTextField::MaxLength => self.max_length.is_some(),
        };
        if seen {
            Err(InputTextError::DuplicateField { field })
        } else {
            Ok(())
        }
    }

    /// Read one more entry.
    pub fn add(self, entry: InputTextEntry) -> (res: Result<InputTextPartial, InputTextError>)
        ensures
            res == input_text_step(self, entry),
    {
        let mut st = self;
        match entry {
            InputTextEntry::Type(kind) => {
                if st.kind.is_some() {
                    return Err(InputTextError::DuplicateField { field: InputTextField::Type });
                }
                if kind != ComponentType::InputText {
                    return Err(InputTextError::InvalidType { found: kind });
                }
                st.kind = Some(kind);
            },
            InputTextEntry::CustomId(v) => {
                if st.custom_id.is_some() {
                    return Err(InputTextError::DuplicateField { field: InputTextField::CustomId });
                }
                st.custom_id = Some(v);
            },
            InputTextEntry::Label(v) => {
                if st.label.is_some() {
                    return Err(InputTextError::DuplicateField { field: InputTextField::Label });
                }
                st.label = Some(v);
            },
            InputTextEntry::Style(v) => {
                if st.style.is_some() {
                    return Err(InputTextError::DuplicateField { field: InputTextField::Style });
                }
                st.style = Some(v);
            },
            InputTextEntry::Placeholder(v) => {
                if st.placeholder.is_some() {
                    return Err(
                        InputTextError::DuplicateField { field: InputTextField::Placeholder },
                    );
                }
                st.placeholder = Some(v);
            },
            InputTextEntry::MaxLength(v) => {
                if st.max_length.is_some() {
                    return Err(InputTextError::DuplicateField { field: InputTextField::MaxLength });
                }
                st.max_length = Some(v);
            },
            InputTextEntry::MinLength(v) => {
                if st.min_length.is_some() {
                    return Err(InputTextError::DuplicateField { field: InputTextField::MinLength });
                }
                st.min_length = Some(v);
            },
            InputTextEntry::Unknown => {},
        }
        Ok(st)
    }

    /// The input text made of the fields read, once all entries are read.
    pub fn finish(self) -> (res: Result<InputText, InputTextError>)
        ensures
            res == input_text_finish(self),
    {
        if self.kind.is_none() {
            return Err(InputTextError::MissingField { field: InputTextField::Type });
        }
        let custom_id = match self.custom_id {
            Some(v) => v,
            None => {
                return Err(InputTextError::MissingField { field: InputTextField::CustomId });
            },
        };
        let label = match self.label {
            Some(v) => v,
            None => {
                return Err(InputTextError::MissingField { field: InputTextField::Label });
            },
        };
        let style = match self.style {
            Some(v) => v,
            None => {
                return Err(InputTextError::MissingField { field: InputTextField::Style });
            },
        };
        Ok(
            InputText {
                custom_id,
                label,
                style,
                placeholder: self.placeholder,
                min_length: self.min_length,
                max_length: self.max_length,
            },
        )
    }
}

/// Read an input text from the entries of a map of fields, in order.
pub fn input_text_from_entries(entries: Vec<InputTextEntry>) -> (res: Result<
    InputText,
    InputTextError,
>)
    ensures
        res == input_text_outcome(entries@),
{
    let ghost all = entries@;
    let mut st = InputTextPartial::new();
    let mut rest = entries;
    assert(all.skip(0) =~= all);
    let ghost mut i: int = 0;
    while rest.len() > 0
        invariant
            all == entries@,
            0 <= i <= all.len(),
            rest@ == all.skip(i),
            input_text_read(input_text_partial_empty(), all) == input_text_read(st, rest@),
        decreases rest.len(),
    {
        proof {
            lemma_read_step(st, all, i);
        }
        let entry = rest.remove(0);
        proof {
            assert(all.skip(i + 1) =~= rest@);
            i = i + 1;
        }
        st = match st.add(entry) {
            Ok(next) => next,
            Err(e) => {
                return Err(e);
            },
        };
    }
    st.finish()
}

} // verus!
