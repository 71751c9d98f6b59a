//! What holds of every tagged value and of every record.

use vstd::prelude::*;
use crate::record::{
    kind_at, kind_of, lemma_reserved_names_differ, DecodeError, FieldKind, FieldValue, FieldView,
};
use crate::tag::{decoding, encoding, positional_decoding, tagged_string_of, TaggedString};

verus! {

/// The values of a record's fields, in the order of the fields: what is left
/// of the record in a format that writes no names.
pub open spec fn values_of<T>(fields: Seq<FieldView<T>>) -> Seq<FieldValue<T>> {
    Seq::new(fields.len(), |i: int| fields[i].value)
}

/// The record with its two fields exchanged.
pub open spec fn exchanged<T>(fields: Seq<FieldView<T>>) -> Seq<FieldView<T>>
    recommends
        fields.len() == 2,
{
    seq![fields[1], fields[0]]
}

/// The names of the record are the two reserved names, each once.
pub open spec fn well_named<T>(fields: Seq<FieldView<T>>) -> bool {
    &&& fields.len() == 2
    &&& kind_of(fields[0].name) is Some
    &&& kind_of(fields[1].name) is Some
    &&& kind_of(fields[0].name) != kind_of(fields[1].name)
}

/// The value of the field that has the tag name.
pub open spec fn tag_slot<T>(fields: Seq<FieldView<T>>) -> FieldValue<T>
    recommends
        well_named(fields),
{
    if kind_of(fields[0].name) == Some(FieldKind::Tag) {
        fields[0].value
    } else {
        fields[1].value
    }
}

/// The value of the field that has the payload name.
pub open spec fn data_slot<T>(fields: Seq<FieldView<T>>) -> FieldValue<T>
    recommends
        well_named(fields),
{
    if kind_of(fields[0].name) == Some(FieldKind::Data) {
        fields[0].value
    } else {
        fields[1].value
    }
}

/// Round trip: reading back the record that stands for a tagged value gives
/// the same tag and the same payload, for every tag and every payload.
pub proof fn lemma_round_trip<T>(tag: u64, value: T)
    ensures
        decoding(encoding(tag, value)) == Ok::<(u64, T), DecodeError>((tag, value)),
{
    lemma_reserved_names_differ();
}

/// Round trip of a tagged string: reading back the record that stands for it
/// gives a tagged string with the same tag and the same text, whether the
/// record owns the text or borrows it.
pub proof fn lemma_tagged_string_round_trip(s: TaggedString)
    ensures
        tagged_string_of(decoding(encoding(s.tag, s.data))) == Ok::<TaggedString, DecodeError>(s),
        decoding(encoding(s.tag, &s.data)) == Ok::<(u64, &String), DecodeError>(
            (s.tag, &s.data),
        ),
{
    lemma_round_trip(s.tag, s.data);
    lemma_round_trip(s.tag, &s.data);
}

/// Field order: the record that stands for a tagged value has the tag field
/// first and the payload field second, so that a reader that goes by position
/// gets the tagged value back without reordering.
pub proof fn lemma_field_order<T>(tag: u64, value: T)
    ensures
        encoding(tag, value).len() == 2,
        forall|i: int|
            0 <= i < 2 ==> kind_of(#[trigger] encoding(tag, value)[i].name) == kind_at(i),
        values_of(encoding(tag, value)) == seq![
            FieldValue::Unsigned(tag),
            FieldValue::Payload(value),
        ],
        positional_decoding(values_of(encoding(tag, value))) == Ok::<(u64, T), DecodeError>(
            (tag, value),
        ),
{
    lemma_reserved_names_differ();
}

/// Shape rejection: a record that does not hold exactly two fields, or whose
/// names are not the two reserved names, each once, is never accepted.
pub proof fn lemma_shape_rejection<T>(fields: Seq<FieldView<T>>)
    requires
        !well_named(fields),
    ensures
        decoding(fields) is Err,
{
}

/// Which error a record is refused with: the number of fields is looked at
/// first, then their names, then their values.
pub proof fn lemma_decode_errors<T>(fields: Seq<FieldView<T>>)
    ensures
        decoding(fields) == Err::<(u64, T), DecodeError>(DecodeError::FieldCount) <==> fields.len()
            != 2,
        decoding(fields) == Err::<(u64, T), DecodeError>(DecodeError::UnknownField) <==> fields.len()
            == 2 && (kind_of(fields[0].name) is None || kind_of(fields[1].name) is None),
        decoding(fields) == Err::<(u64, T), DecodeError>(DecodeError::DuplicateField)
            <==> fields.len() == 2 && kind_of(fields[0].name) is Some && kind_of(fields[0].name)
            == kind_of(fields[1].name),
        decoding(fields) == Err::<(u64, T), DecodeError>(DecodeError::TagType) <==> well_named(
            fields,
        ) && !(tag_slot(fields) is Unsigned),
        decoding(fields) == Err::<(u64, T), DecodeError>(DecodeError::DataType) <==> well_named(
            fields,
        ) && tag_slot(fields) is Unsigned && !(data_slot(fields) is Payload),
{
}

/// A list of values that does not hold exactly two values is never accepted
/// by position.
pub proof fn lemma_positional_shape_rejection<T>(values: Seq<FieldValue<T>>)
    requires
        values.len() != 2,
    ensures
        positional_decoding(values) == Err::<(u64, T), DecodeError>(DecodeError::FieldCount),
{
}

/// Nothing is made up: a record is accepted as the tag `tag` and the payload
/// `value` exactly when it is the record that stands for them, or that record
/// with its two fields exchanged.
pub proof fn lemma_accepted_records<T>(fields: Seq<FieldView<T>>, tag: u64, value: T)
    ensures
        decoding(fields) == Ok::<(u64, T), DecodeError>((tag, value)) <==> (fields == encoding(
            tag,
            value,
        ) || fields == exchanged(encoding(tag, value))),
{
    lemma_reserved_names_differ();
    if decoding(fields) == Ok::<(u64, T), DecodeError>((tag, value)) {
        if kind_of(fields[0].name) == Some(FieldKind::Tag) {
            assert(fields =~= encoding(tag, value));
        } else {
            assert(fields =~= exchanged(encoding(tag, value)));
        }
    }
}

/// By position a list of values is accepted as the tag `tag` and the payload
/// `value` exactly when it is the tag followed by the payload.
pub proof fn lemma_accepted_values<T>(values: Seq<FieldValue<T>>, tag: u64, value: T)
    ensures
        positional_decoding(values) == Ok::<(u64, T), DecodeError>((tag, value)) <==> values
            == seq![FieldValue::Unsigned(tag), FieldValue::Payload(value)],
{
    if positional_decoding(values) == Ok::<(u64, T), DecodeError>((tag, value)) {
        assert(values =~= seq![FieldValue::Unsigned(tag), FieldValue::Payload(value)]);
    }
}

} // verus!
