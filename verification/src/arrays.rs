//! The boundary to arrow. A finished column is an immutable arrow array held
//! behind [`ColumnArray`]; a finished record is an arrow `StructArray` held
//! behind [`RecordArray`]. Both are opaque here: what they hold is named by
//! the spec functions below, and the constructors state, over those names,
//! exactly what arrow builds from the plain values handed to them.

use vstd::prelude::*;

use crate::model::BuilderKind;
use crate::model::ColVal;
use crate::model::FieldModel;
use crate::structs::FieldData;

verus! {

/// One immutable column, ready to take its place in a record array. It wraps
/// an `arrow::array::ArrayRef`, a reference-counted trait object that cannot
/// be declared to the verifier, so the whole struct is opaque.
#[verifier::external_body]
pub struct ColumnArray {
    inner: arrow::array::ArrayRef,
}

/// One finished, immutable record array. It wraps arrow's `StructArray`,
/// whose declaration the verifier refuses (its impls lean on arrow's `Array`
/// trait), so the struct is opaque here; the wrapped array itself is public
/// for callers that hand it on to arrow.
#[verifier::external_body]
pub struct RecordArray {
    pub array: arrow::array::StructArray,
}

/// The encoding kind of a finished column.
pub uninterp spec fn column_kind(a: ColumnArray) -> BuilderKind;

/// The fixed byte width of a finished column's type: the width a
/// fixed-width-byte column was built with, and zero for every other kind.
pub uninterp spec fn column_width(a: ColumnArray) -> nat;

/// The values a finished column holds, in order.
pub uninterp spec fn column_values(a: ColumnArray) -> Seq<ColVal>;

/// The fields a finished record array holds, in order: schema metadata,
/// encoded type, and column values of each.
pub uninterp spec fn record_model(a: RecordArray) -> Seq<FieldModel>;

/// Relies on arrow's `StringArray::from_iter_values`: the array holds exactly
/// the given strings, in order, with no nulls. It panics when the total
/// encoded byte length overflows the array's 32-bit offsets; a char encodes
/// to at most four bytes, so inputs near that bound are excluded.
#[verifier::external_body]
pub(crate) fn string_column(values: Vec<String>) -> (r: ColumnArray)
    requires
        crate::model::total_bytes(values@.map(|i: int, v: String| ColVal::Text(v@)))
            <= 0x1fff_ffff,
    ensures
        column_kind(r) == BuilderKind::Text,
        column_width(r) == 0,
        column_values(r) == values@.map(|i: int, v: String| ColVal::Text(v@)),
{
    ColumnArray {
        inner: std::sync::Arc::new(arrow::array::StringArray::from_iter_values(values)),
    }
}

/// Relies on arrow's `BinaryArray::from_iter_values`: the array holds exactly
/// the given byte strings, in order, with no nulls. It panics when the total
/// byte length overflows the array's 32-bit offsets, so that input is
/// excluded.
#[verifier::external_body]
pub(crate) fn binary_column(values: Vec<Vec<u8>>) -> (r: ColumnArray)
    requires
        crate::model::total_bytes(values@.map(|i: int, v: Vec<u8>| ColVal::Bytes(v@)))
            <= 0x7fff_ffff,
    ensures
        column_kind(r) == BuilderKind::Binary,
        column_width(r) == 0,
        column_values(r) == values@.map(|i: int, v: Vec<u8>| ColVal::Bytes(v@)),
{
    ColumnArray {
        inner: std::sync::Arc::new(arrow::array::BinaryArray::from_iter_values(values)),
    }
}

/// Relies on arrow's `UInt8Array::from_iter_values`: the array holds exactly
/// the given bytes, in order, with no nulls.
#[verifier::external_body]
pub(crate) fn uint8_column(values: Vec<u8>) -> (r: ColumnArray)
    ensures
        column_kind(r) == BuilderKind::UInt8,
        column_width(r) == 0,
        column_values(r) == values@.map(|i: int, v: u8| ColVal::Byte(v)),
{
    ColumnArray {
        inner: std::sync::Arc::new(arrow::array::UInt8Array::from_iter_values(values)),
    }
}

/// Relies on arrow's `FixedSizeBinaryArray::try_from_iter`: the array holds
/// exactly the given byte strings, in order, with no nulls. The call fails
/// only on an empty input, on values of unequal lengths, or on a width beyond
/// `i32`; all three are excluded here, so the result is unwrapped.
#[verifier::external_body]
pub(crate) fn fixed_size_binary_column(width: usize, values: Vec<Vec<u8>>) -> (r: ColumnArray)
    requires
        values@.len() > 0,
        forall|j: int| 0 <= j < values@.len() ==> (#[trigger] values@[j])@.len() == width,
        width <= 0x7fff_ffff,
    ensures
        column_kind(r) == BuilderKind::FixedSizeBinary,
        column_width(r) == width,
        column_values(r) == values@.map(|i: int, v: Vec<u8>| ColVal::Bytes(v@)),
{
    ColumnArray {
        inner: std::sync::Arc::new(
            arrow::array::FixedSizeBinaryArray::try_from_iter(values.into_iter()).unwrap(),
        ),
    }
}

/// The model of one finished (metadata, column) pair, as it will appear in
/// the record array.
pub open spec fn part_model(p: (FieldData, ColumnArray)) -> FieldModel {
    FieldModel {
        name: p.0.name@,
        nullable: p.0.nullable,
        kind: column_kind(p.1),
        width: column_width(p.1),
        values: column_values(p.1),
    }
}

/// The models of an ordered list of finished pairs.
pub open spec fn part_models(s: Seq<(FieldData, ColumnArray)>) -> Seq<FieldModel> {
    s.map(|i: int, p: (FieldData, ColumnArray)| part_model(p))
}

/// Relies on arrow's `Field::new`, `Array::data_type` and
/// `StructArray::from`: the record array holds the given (field, column)
/// pairs in order, each output field carrying the slot's name and
/// nullability and the column's own data type. `StructArray::from` panics on
/// an empty list and on columns of unequal lengths, so those inputs are
/// excluded.
#[verifier::external_body]
pub(crate) fn struct_array_from_parts(parts: Vec<(FieldData, ColumnArray)>) -> (r: RecordArray)
    requires
        parts@.len() > 0,
        forall|a: int, b: int|
            0 <= a < parts@.len() && 0 <= b < parts@.len() ==> column_values(
                (#[trigger] parts@[a]).1,
            ).len() == column_values((#[trigger] parts@[b]).1).len(),
    ensures
        record_model(r) == part_models(parts@),
{
    let pairs: Vec<(arrow::datatypes::FieldRef, arrow::array::ArrayRef)> = parts
        .into_iter()
        .map(|(d, c)| {
            let dt = arrow::array::Array::data_type(c.inner.as_ref()).clone();
            let f = arrow::datatypes::Field::new(d.name, dt, d.nullable);
            (std::sync::Arc::new(f) as arrow::datatypes::FieldRef, c.inner)
        })
        .collect();
    RecordArray { array: arrow::array::StructArray::from(pairs) }
}

/// Relies on arrow's `StructArray::new_empty_fields`: a record array with no
/// fields and no rows.
#[verifier::external_body]
pub(crate) fn empty_record() -> (r: RecordArray)
    ensures
        record_model(r) == Seq::<FieldModel>::empty(),
{
    RecordArray { array: arrow::array::StructArray::new_empty_fields(0, None) }
}

} // verus!
