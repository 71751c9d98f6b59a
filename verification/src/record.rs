//! Records: what a tagged value looks like to a serializer.
//!
//! A record is a sequence of named fields. Two names are reserved: one for the
//! field that carries the tag number, one for the field that carries the
//! payload. A tag-aware serializer recognises them and writes a genuine tagged
//! item; any other serializer writes the record as it stands.

use vstd::prelude::*;
use crate::text::same_text;

verus! {

/// Name that an encoder gives the record as a whole.
pub const RECORD_NAME: &'static str = "EncodeCborTag";

/// Reserved name of the field that carries the tag number.
pub const TAG_FIELD: &'static str = "__cbor_tag_ser_tag";

/// Reserved name of the field that carries the payload.
pub const DATA_FIELD: &'static str = "__cbor_tag_ser_data";

/// The two reserved names are different texts.
pub proof fn lemma_reserved_names_differ()
    ensures
        TAG_FIELD@ != DATA_FIELD@,
{
    reveal_strlit("__cbor_tag_ser_tag");
    reveal_strlit("__cbor_tag_ser_data");
    assert(TAG_FIELD@.len() == 18);
    assert(DATA_FIELD@.len() == 19);
}

/// Which of the two reserved fields a name stands for.
#[derive(Clone, Copy, Debug, PartialEq, Eq)]
pub enum FieldKind {
    /// The field that carries the tag number.
    Tag,
    /// The field that carries the payload.
    Data,
}

/// The reserved field that `name` stands for, if any.
pub open spec fn kind_of(name: Seq<char>) -> Option<FieldKind> {
    if name == TAG_FIELD@ {
        Some(FieldKind::Tag)
    } else if name == DATA_FIELD@ {
        Some(FieldKind::Data)
    } else {
        None
    }
}

/// Looks a field name up among the reserved names. The match is exact: one
/// character more, less or other gives `None`.
pub fn field_kind(name: &str) -> (kind: Option<FieldKind>)
    ensures
        kind == kind_of(name@),
{
    if same_text(name, TAG_FIELD) {
        Some(FieldKind::Tag)
    } else if same_text(name, DATA_FIELD) {
        Some(FieldKind::Data)
    } else {
        None
    }
}

/// The reserved field that stands at `position` in a record, if any: the tag
/// field comes first, the payload field second.
pub open spec fn kind_at(position: int) -> Option<FieldKind> {
    if position == 0 {
        Some(FieldKind::Tag)
    } else if position == 1 {
        Some(FieldKind::Data)
    } else {
        None
    }
}

/// Tells which reserved field a reader that goes by position finds at
/// `position`.
pub fn field_kind_at(position: usize) -> (kind: Option<FieldKind>)
    ensures
        kind == kind_at(position as int),
{
    if position == 0 {
        Some(FieldKind::Tag)
    } else if position == 1 {
        Some(FieldKind::Data)
    } else {
        None
    }
}

/// What a field of a record holds.
#[derive(Debug, PartialEq, Eq)]
pub enum FieldValue<T> {
    /// An unsigned integer of up to 64 bits.
    Unsigned(u64),
    /// A value of the payload type.
    Payload(T),
    /// A value that is neither of the two.
    Other,
}

/// A named field of a record.
#[derive(Debug, PartialEq, Eq)]
pub struct Field<'a, T> {
    pub name: &'a str,
    pub value: FieldValue<T>,
}

/// The mathematical content of a [`Field`]: the name as a sequence of
/// characters, and the value.
pub struct FieldView<T> {
    pub name: Seq<char>,
    pub value: FieldValue<T>,
}

impl<'a, T> View for Field<'a, T> {
    type V = FieldView<T>;

    open spec fn view(&self) -> FieldView<T> {
        FieldView { name: self.name@, value: self.value }
    }
}

/// A record: named fields in the order in which they are written or were read.
#[derive(Debug, PartialEq, Eq)]
pub struct Record<'a, T> {
    pub fields: Vec<Field<'a, T>>,
}

impl<'a, T> View for Record<'a, T> {
    type V = Seq<FieldView<T>>;

    open spec fn view(&self) -> Seq<FieldView<T>> {
        Seq::new(self.fields@.len(), |i: int| self.fields@[i]@)
    }
}

/// Why a record was not accepted as a tagged value.
#[derive(Clone, Copy, Debug, PartialEq, Eq)]
pub enum DecodeError {
    /// The record does not hold exactly two fields.
    FieldCount,
    /// A field has a name that is not reserved.
    UnknownField,
    /// Both fields have the same reserved name, so the other one is missing.
    DuplicateField,
    /// The tag field does not hold an unsigned integer.
    TagType,
    /// The payload field does not hold a value of the payload type.
    DataType,
}

} // verus!
