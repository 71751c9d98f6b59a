//! Tagged values and the records that stand for them.

use vstd::prelude::*;
use crate::record::{
    field_kind, kind_of, DecodeError, Field, FieldKind, FieldValue, FieldView, Record,
    DATA_FIELD, TAG_FIELD,
};

verus! {

/// The record that stands for the payload `value` under the tag `tag`: the
/// tag field first, the payload field second.
pub open spec fn encoding<T>(tag: u64, value: T) -> Seq<FieldView<T>> {
    seq![
        FieldView { name: TAG_FIELD@, value: FieldValue::Unsigned(tag) },
        FieldView { name: DATA_FIELD@, value: FieldValue::Payload(value) },
    ]
}

/// What the value found in the tag slot and the value found in the payload
/// slot make together.
pub open spec fn slots<T>(tag: FieldValue<T>, data: FieldValue<T>) -> Result<
    (u64, T),
    DecodeError,
> {
    match (tag, data) {
        (FieldValue::Unsigned(t), FieldValue::Payload(v)) => Ok((t, v)),
        (FieldValue::Unsigned(_), _) => Err(DecodeError::DataType),
        _ => Err(DecodeError::TagType),
    }
}

/// What a record read by name stands for. It is accepted when it holds the
/// two reserved fields and nothing else, in either order, each with a value
/// of its type.
pub open spec fn decoding<T>(fields: Seq<FieldView<T>>) -> Result<(u64, T), DecodeError> {
    if fields.len() != 2 {
        Err(DecodeError::FieldCount)
    } else {
        match (kind_of(fields[0].name), kind_of(fields[1].name)) {
            (Some(FieldKind::Tag), Some(FieldKind::Data)) => slots(
                fields[0].value,
                fields[1].value,
            ),
            (Some(FieldKind::Data), Some(FieldKind::Tag)) => slots(
                fields[1].value,
                fields[0].value,
            ),
            (Some(_), Some(_)) => Err(DecodeError::DuplicateField),
            _ => Err(DecodeError::UnknownField),
        }
    }
}

/// What a record read by position stands for: the tag comes first, the
/// payload second, and nothing follows.
pub open spec fn positional_decoding<T>(values: Seq<FieldValue<T>>) -> Result<
    (u64, T),
    DecodeError,
> {
    if values.len() != 2 {
        Err(DecodeError::FieldCount)
    } else {
        slots(values[0], values[1])
    }
}

/// A payload together with its semantic tag.
pub struct EncodeCborTag<T> {
    tag: u64,
    value: T,
}

impl<T> View for EncodeCborTag<T> {
    type V = (u64, T);

    /// The tag and the payload.
    closed spec fn view(&self) -> (u64, T) {
        (self.tag, self.value)
    }
}

impl<T> EncodeCborTag<T> {
    /// Wraps `value` under `tag`. Every tag number is accepted.
    pub fn new(tag: u64, value: T) -> (wrapper: Self)
        ensures
            wrapper@ == (tag, value),
    {
        EncodeCborTag { tag, value }
    }

    /// Returns the tag.
    pub fn tag(&self) -> (tag: u64)
        ensures
            tag == self@.0,
    {
        self.tag
    }

    /// Returns the payload, consuming the wrapper.
    pub fn value(self) -> (value: T)
        ensures
            value == self@.1,
    {
        self.value
    }

    /// Turns the wrapper into the record that stands for it, handing the
    /// payload over.
    pub fn into_record(self) -> (record: Record<'static, T>)
        ensures
            record@ == encoding(self@.0, self@.1),
    {
        let mut fields = Vec::new();
        fields.push(Field { name: TAG_FIELD, value: FieldValue::Unsigned(self.tag) });
        fields.push(Field { name: DATA_FIELD, value: FieldValue::Payload(self.value) });
        Record { fields }
    }

    /// The record that stands for the wrapper, around a borrowed payload.
    pub fn encode(&self) -> (record: Record<'static, &T>)
        ensures
            record@ == encoding(self@.0, &self@.1),
    {
        EncodeCborTag { tag: self.tag, value: &self.value }.into_record()
    }

    fn from_slots(tag: FieldValue<T>, data: FieldValue<T>) -> (decoded: Result<Self, DecodeError>)
        ensures
            match decoded {
                Ok(wrapper) => slots(tag, data) == Ok::<(u64, T), DecodeError>(wrapper@),
                Err(error) => slots(tag, data) == Err::<(u64, T), DecodeError>(error),
            },
    {
        match tag {
            FieldValue::Unsigned(t) => match data {
                FieldValue::Payload(v) => Ok(EncodeCborTag { tag: t, value: v }),
                _ => Err(DecodeError::DataType),
            },
            _ => Err(DecodeError::TagType),
        }
    }

    /// Reads a wrapper back from a record whose fields are found by name.
    pub fn decode(record: Record<'_, T>) -> (decoded: Result<Self, DecodeError>)
        ensures
            match decoded {
                Ok(wrapper) => decoding(record@) == Ok::<(u64, T), DecodeError>(wrapper@),
                Err(error) => decoding(record@) == Err::<(u64, T), DecodeError>(error),
            },
    {
        let mut fields = record.fields;
        if fields.len() != 2 {
            return Err(DecodeError::FieldCount);
        }
        let second = fields.pop().unwrap();
        let first = fields.pop().unwrap();
        match (field_kind(first.name), field_kind(second.name)) {
            (Some(FieldKind::Tag), Some(FieldKind::Data)) => Self::from_slots(
                first.value,
                second.value,
            ),
            (Some(FieldKind::Data), Some(FieldKind::Tag)) => Self::from_slots(
                second.value,
                first.value,
            ),
            (Some(_), Some(_)) => Err(DecodeError::DuplicateField),
            _ => Err(DecodeError::UnknownField),
        }
    }

    /// Reads a wrapper back from the values of a record whose fields are
    /// found by position.
    pub fn decode_positional(values: Vec<FieldValue<T>>) -> (decoded: Result<Self, DecodeError>)
        ensures
            match decoded {
                Ok(wrapper) => positional_decoding(values@) == Ok::<(u64, T), DecodeError>(
                    wrapper@,
                ),
                Err(error) => positional_decoding(values@) == Err::<(u64, T), DecodeError>(error),
            },
    {
        let mut values = values;
        if values.len() != 2 {
            return Err(DecodeError::FieldCount);
        }
        let second = values.pop().unwrap();
        let first = values.pop().unwrap();
        Self::from_slots(first, second)
    }
}

/// The tagged string made of a tag and a text that were read back, or the
/// error that came instead.
pub open spec fn tagged_string_of(decoded: Result<(u64, String), DecodeError>) -> Result<
    TaggedString,
    DecodeError,
> {
    match decoded {
        Ok((tag, data)) => Ok(TaggedString { tag, data }),
        Err(error) => Err(error),
    }
}

/// A text under a semantic tag.
#[derive(Debug)]
pub struct TaggedString {
    /// Tag
    pub tag: u64,
    /// Text to be tagged
    pub data: String,
}

impl View for TaggedString {
    type V = (u64, Seq<char>);

    /// The tag and the characters of the text.
    open spec fn view(&self) -> (u64, Seq<char>) {
        (self.tag, self.data@)
    }
}

impl Clone for TaggedString {
    /// An independent duplicate with the same tag and the same text.
    fn clone(&self) -> (copy: Self)
        ensures
            copy == *self,
    {
        TaggedString { tag: self.tag, data: self.data.clone() }
    }
}

impl PartialEq for TaggedString {
    fn eq(&self, other: &Self) -> (equal: bool) {
        self.tag == other.tag && self.data == other.data
    }
}

impl vstd::std_specs::cmp::PartialEqSpecImpl for TaggedString {
    open spec fn obeys_eq_spec() -> bool {
        true
    }

    /// Two tagged strings are equal when they have the same tag and the same
    /// characters.
    open spec fn eq_spec(&self, other: &Self) -> bool {
        self@ == other@
    }
}

impl TaggedString {
    /// Returns tag
    pub fn tag(&self) -> (tag: u64)
        ensures
            tag == self.tag,
    {
        self.tag
    }

    /// The record that stands for the tagged string, around its borrowed text.
    pub fn encode(&self) -> (record: Record<'static, &String>)
        ensures
            record@ == encoding(self.tag, &self.data),
    {
        EncodeCborTag::new(self.tag, &self.data).into_record()
    }

    fn from_wrapper(decoded: Result<EncodeCborTag<String>, DecodeError>) -> (tagged: Result<
        TaggedString,
        DecodeError,
    >)
        ensures
            match decoded {
                Ok(wrapper) => tagged == tagged_string_of(Ok(wrapper@)),
                Err(error) => tagged == tagged_string_of(Err(error)),
            },
    {
        match decoded {
            Ok(wrapper) => {
                let tag = wrapper.tag();
                Ok(TaggedString { tag, data: wrapper.value() })
            },
            Err(error) => Err(error),
        }
    }

    /// Reads a tagged string back from a record whose fields are found by
    /// name.
    pub fn decode(record: Record<'_, String>) -> (decoded: Result<TaggedString, DecodeError>)
        ensures
            decoded == tagged_string_of(decoding(record@)),
    {
        Self::from_wrapper(EncodeCborTag::decode(record))
    }

    /// Reads a tagged string back from the values of a record whose fields
    /// are found by position.
    pub fn decode_positional(values: Vec<FieldValue<String>>) -> (decoded: Result<
        TaggedString,
        DecodeError,
    >)
        ensures
            decoded == tagged_string_of(positional_decoding(values@)),
    {
        Self::from_wrapper(EncodeCborTag::decode_positional(values))
    }
}

} // verus!
