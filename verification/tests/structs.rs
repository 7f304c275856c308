use arrow::array::Array;
use arrow::array::BinaryArray;
use arrow::array::FixedSizeBinaryArray;
use arrow::array::StringArray;
use arrow::array::UInt8Array;

use record_builder::AdaptiveStructBuilder;
use record_builder::AppendRejection;
use record_builder::ArrayOptions;
use record_builder::BinaryArrayBuilder;
use record_builder::BuilderKind;
use record_builder::FieldBuilder;
use record_builder::FieldData;
use record_builder::FixedSizeBinaryArrayBuilder;
use record_builder::StringArrayBuilder;
use record_builder::UInt8ArrayBuilder;

fn default_options() -> ArrayOptions {
    ArrayOptions { dictionary_options: None, nullable: true }
}

fn text_slot(name: &str, nullable: bool) -> (FieldData, FieldBuilder) {
    (
        FieldData { name: name.to_string(), nullable },
        FieldBuilder::Text(StringArrayBuilder::new(default_options())),
    )
}

fn binary_slot(name: &str) -> (FieldData, FieldBuilder) {
    (
        FieldData { name: name.to_string(), nullable: true },
        FieldBuilder::Binary(BinaryArrayBuilder::new(default_options())),
    )
}

fn uint8_slot(name: &str) -> (FieldData, FieldBuilder) {
    (
        FieldData { name: name.to_string(), nullable: true },
        FieldBuilder::UInt8(UInt8ArrayBuilder::new(default_options())),
    )
}

fn fixed_slot(name: &str, width: usize) -> (FieldData, FieldBuilder) {
    (
        FieldData { name: name.to_string(), nullable: true },
        FieldBuilder::FixedSizeBinary(FixedSizeBinaryArrayBuilder::new(default_options(), width)),
    )
}

#[test]
fn test_get_field() {
    let struct_builder = AdaptiveStructBuilder::new(vec![(
        FieldData {
            name: "test".to_string(),
            nullable: false,
        },
        FieldBuilder::Text(StringArrayBuilder::new(ArrayOptions {
            dictionary_options: None,
            nullable: true,
        })),
    )]);
    // check it works for each type of field
    let _ = struct_builder;
}

#[test]
fn test_out_of_range_index_is_absent() {
    let b = AdaptiveStructBuilder::new(vec![text_slot("a", true)]);
    assert!(b.field_builder(1, BuilderKind::Text).is_none());
    assert!(b.field_builder(usize::MAX, BuilderKind::Text).is_none());
    assert!(b.checked_field_builder(1, BuilderKind::FixedSizeBinary).is_none());
    assert!(b.checked_field_builder(usize::MAX, BuilderKind::FixedSizeBinary).is_none());
}

#[test]
fn test_capability_mismatch_is_absent() {
    let b = AdaptiveStructBuilder::new(vec![text_slot("a", true), fixed_slot("f", 4)]);
    // a direct-append slot answers only the direct accessor
    assert!(b.field_builder(0, BuilderKind::Text).is_some());
    assert!(b.checked_field_builder(0, BuilderKind::Text).is_none());
    // a checked-append slot answers only the checked accessor
    assert!(b.checked_field_builder(1, BuilderKind::FixedSizeBinary).is_some());
    assert!(b.field_builder(1, BuilderKind::FixedSizeBinary).is_none());
}

#[test]
fn test_kind_mismatch_is_absent() {
    let b = AdaptiveStructBuilder::new(vec![text_slot("a", true), fixed_slot("f", 4)]);
    // wrong expected kind yields absence even though the capability matches
    assert!(b.field_builder(0, BuilderKind::Binary).is_none());
    assert!(b.field_builder(0, BuilderKind::UInt8).is_none());
    assert!(b.checked_field_builder(1, BuilderKind::Text).is_none());
}

#[test]
fn test_text_scenario_one_field_two_values() {
    let mut b = AdaptiveStructBuilder::new(vec![text_slot("a", true)]);
    let h = b.field_builder(0, BuilderKind::Text).unwrap();
    b.append_str(&h, "x".to_string());
    b.append_str(&h, "y".to_string());
    let r = b.finish();
    assert_eq!(r.array.num_columns(), 1);
    assert_eq!(r.array.len(), 2);
    let fields = r.array.fields();
    assert_eq!(fields.len(), 1);
    assert_eq!(fields[0].name(), "a");
    assert!(fields[0].is_nullable());
    let col = r.array.column(0).as_any().downcast_ref::<StringArray>().unwrap();
    assert_eq!(col.len(), 2);
    assert_eq!(col.value(0), "x");
    assert_eq!(col.value(1), "y");
}

#[test]
fn test_empty_slot_is_omitted() {
    let mut b = AdaptiveStructBuilder::new(vec![text_slot("first", true), text_slot("second", true)]);
    let h = b.field_builder(1, BuilderKind::Text).unwrap();
    b.append_str(&h, "only".to_string());
    let r = b.finish();
    // exactly one output field, the second, and not an all-null column
    assert_eq!(r.array.num_columns(), 1);
    assert_eq!(r.array.fields()[0].name(), "second");
    let col = r.array.column(0).as_any().downcast_ref::<StringArray>().unwrap();
    assert_eq!(col.len(), 1);
    assert_eq!(col.null_count(), 0);
    assert_eq!(col.value(0), "only");
}

#[test]
fn test_non_nullable_empty_slot_is_still_omitted() {
    let mut b = AdaptiveStructBuilder::new(vec![text_slot("keep", true), text_slot("gone", false)]);
    let h = b.field_builder(0, BuilderKind::Text).unwrap();
    b.append_str(&h, "v".to_string());
    let r = b.finish();
    assert_eq!(r.array.num_columns(), 1);
    assert_eq!(r.array.fields()[0].name(), "keep");
}

#[test]
fn test_all_slots_empty_yields_empty_record() {
    let b = AdaptiveStructBuilder::new(vec![text_slot("a", true), uint8_slot("b")]);
    let r = b.finish();
    assert_eq!(r.array.num_columns(), 0);
    assert_eq!(r.array.len(), 0);
}

#[test]
fn test_no_slots_yields_empty_record() {
    let b = AdaptiveStructBuilder::new(vec![]);
    let r = b.finish();
    assert_eq!(r.array.num_columns(), 0);
    assert_eq!(r.array.len(), 0);
}

#[test]
fn test_output_order_matches_construction_order() {
    let mut b = AdaptiveStructBuilder::new(vec![
        text_slot("t", true),
        uint8_slot("skipped"),
        binary_slot("bin"),
    ]);
    let ht = b.field_builder(0, BuilderKind::Text).unwrap();
    let hb = b.field_builder(2, BuilderKind::Binary).unwrap();
    b.append_bytes(&hb, vec![1, 2]);
    b.append_str(&ht, "s".to_string());
    let r = b.finish();
    assert_eq!(r.array.num_columns(), 2);
    assert_eq!(r.array.fields()[0].name(), "t");
    assert_eq!(r.array.fields()[1].name(), "bin");
    let col = r.array.column(1).as_any().downcast_ref::<BinaryArray>().unwrap();
    assert_eq!(col.value(0), &[1, 2]);
}

#[test]
fn test_uint8_values_come_through() {
    let mut b = AdaptiveStructBuilder::new(vec![uint8_slot("u")]);
    let h = b.field_builder(0, BuilderKind::UInt8).unwrap();
    b.append_u8(&h, 7);
    b.append_u8(&h, 0);
    b.append_u8(&h, 255);
    let r = b.finish();
    let col = r.array.column(0).as_any().downcast_ref::<UInt8Array>().unwrap();
    assert_eq!(col.len(), 3);
    assert_eq!(col.value(0), 7);
    assert_eq!(col.value(1), 0);
    assert_eq!(col.value(2), 255);
}

#[test]
fn test_binary_values_come_through() {
    let mut b = AdaptiveStructBuilder::new(vec![binary_slot("b")]);
    let h = b.field_builder(0, BuilderKind::Binary).unwrap();
    b.append_bytes(&h, vec![9, 8, 7]);
    b.append_bytes(&h, vec![]);
    let r = b.finish();
    let col = r.array.column(0).as_any().downcast_ref::<BinaryArray>().unwrap();
    assert_eq!(col.len(), 2);
    assert_eq!(col.value(0), &[9, 8, 7]);
    assert_eq!(col.value(1), &[] as &[u8]);
}

#[test]
fn test_fixed_width_wrong_length_is_rejected() {
    let mut b = AdaptiveStructBuilder::new(vec![fixed_slot("f", 4)]);
    let h = b.checked_field_builder(0, BuilderKind::FixedSizeBinary).unwrap();
    let r = b.checked_append(&h, vec![1, 2, 3]);
    assert_eq!(r, Err(AppendRejection::WrongLength { expected: 4, actual: 3 }));
    // nothing was accumulated, so the finished record omits the field
    let r = b.finish();
    assert_eq!(r.array.num_columns(), 0);
}

#[test]
fn test_fixed_width_matching_length_is_stored() {
    let mut b = AdaptiveStructBuilder::new(vec![fixed_slot("f", 4)]);
    let h = b.checked_field_builder(0, BuilderKind::FixedSizeBinary).unwrap();
    assert_eq!(b.checked_append(&h, vec![1, 2, 3, 4]), Ok(()));
    assert_eq!(b.checked_append(&h, vec![5, 6, 7, 8, 9]), Err(AppendRejection::WrongLength {
        expected: 4,
        actual: 5,
    }));
    assert_eq!(b.checked_append(&h, vec![5, 6, 7, 8]), Ok(()));
    let r = b.finish();
    assert_eq!(r.array.num_columns(), 1);
    let col = r.array.column(0).as_any().downcast_ref::<FixedSizeBinaryArray>().unwrap();
    assert_eq!(col.value_length(), 4);
    assert_eq!(col.len(), 2);
    assert_eq!(col.value(0), &[1, 2, 3, 4]);
    assert_eq!(col.value(1), &[5, 6, 7, 8]);
}

#[test]
fn test_column_length_matches_append_count() {
    let mut b = AdaptiveStructBuilder::new(vec![text_slot("a", true), text_slot("b", true)]);
    let ha = b.field_builder(0, BuilderKind::Text).unwrap();
    let hb = b.field_builder(1, BuilderKind::Text).unwrap();
    for i in 0..5 {
        b.append_str(&ha, format!("a{i}"));
        b.append_str(&hb, format!("b{i}"));
    }
    let r = b.finish();
    assert_eq!(r.array.num_columns(), 2);
    for c in 0..2 {
        let col = r.array.column(c).as_any().downcast_ref::<StringArray>().unwrap();
        assert_eq!(col.len(), 5);
    }
    let col = r.array.column(1).as_any().downcast_ref::<StringArray>().unwrap();
    assert_eq!(col.value(4), "b4");
}
