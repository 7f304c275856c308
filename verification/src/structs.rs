//! The record builder itself: an ordered, fixed-length sequence of field
//! slots, capability-typed accessors that route appends to the right slot,
//! and the one-shot finalize pass that assembles the slots holding data into
//! an immutable record array, omitting the rest.

use vstd::prelude::*;

use crate::arrays::column_kind;
use crate::arrays::column_values;
use crate::arrays::column_width;
use crate::arrays::empty_record;
use crate::arrays::part_model;
use crate::arrays::part_models;
use crate::arrays::record_model;
use crate::arrays::struct_array_from_parts;
use crate::arrays::ColumnArray;
use crate::arrays::RecordArray;
use crate::builders::AppendRejection;
use crate::builders::BinaryArrayBuilder;
use crate::builders::FixedSizeBinaryArrayBuilder;
use crate::builders::StringArrayBuilder;
use crate::builders::UInt8ArrayBuilder;
use crate::model::byte_vals;
use crate::model::bytes_vals;
use crate::model::checked_lookup_hit;
use crate::model::direct_lookup_hit;
use crate::model::fits_offsets;
use crate::model::included;
use crate::model::lemma_included_elem;
use crate::model::lengths_uniform;
use crate::model::text_vals;
use crate::model::BuilderKind;
use crate::model::ColVal;
use crate::model::FieldModel;

verus! {

/// Schema metadata of one field slot: the output field's name and declared
/// nullability. Immutable once the slot is created. Declared nullability is
/// carried into the output field but does not keep an empty slot from being
/// omitted at finalization.
#[derive(Debug)]
pub struct FieldData {
    pub name: String,
    pub nullable: bool,
}

/// One column builder, tagged with its encoding kind: the closed variant set
/// a record builder routes appends over. Adding a kind means extending this
/// enum and both accessors in lockstep.
pub enum FieldBuilder {
    Binary(BinaryArrayBuilder),
    FixedSizeBinary(FixedSizeBinaryArrayBuilder),
    Text(StringArrayBuilder),
    UInt8(UInt8ArrayBuilder),
}

impl FieldBuilder {
    /// The encoding kind this builder accumulates. No operation changes it.
    pub open spec fn kind(self) -> BuilderKind {
        match self {
            FieldBuilder::Binary(_) => BuilderKind::Binary,
            FieldBuilder::FixedSizeBinary(_) => BuilderKind::FixedSizeBinary,
            FieldBuilder::Text(_) => BuilderKind::Text,
            FieldBuilder::UInt8(_) => BuilderKind::UInt8,
        }
    }

    /// The fixed byte width a fixed-width builder validates against; zero for
    /// every other kind.
    pub open spec fn width(self) -> nat {
        match self {
            FieldBuilder::FixedSizeBinary(b) => b.byte_width(),
            _ => 0,
        }
    }

    /// The values accumulated so far, in append order.
    pub open spec fn values(self) -> Seq<ColVal> {
        match self {
            FieldBuilder::Binary(b) => bytes_vals(b@),
            FieldBuilder::FixedSizeBinary(b) => bytes_vals(b@),
            FieldBuilder::Text(b) => text_vals(b@),
            FieldBuilder::UInt8(b) => byte_vals(b@),
        }
    }

    /// The stored kind, computed: the accessors match on it to route a
    /// lookup.
    pub fn kind_of(&self) -> (k: BuilderKind)
        ensures
            k == self.kind(),
    {
        match self {
            FieldBuilder::Binary(_) => BuilderKind::Binary,
            FieldBuilder::FixedSizeBinary(_) => BuilderKind::FixedSizeBinary,
            FieldBuilder::Text(_) => BuilderKind::Text,
            FieldBuilder::UInt8(_) => BuilderKind::UInt8,
        }
    }

    /// Append one text value. Only a text builder takes it; text is a
    /// direct-append kind, so the value is never rejected.
    pub fn append_str(&mut self, value: String)
        requires
            *old(self) is Text,
        ensures
            final(self).kind() == old(self).kind(),
            final(self).width() == old(self).width(),
            final(self).values() == old(self).values().push(ColVal::Text(value@)),
    {
        let ghost v = value@;
        match self {
            FieldBuilder::Text(b) => {
                b.append_value(value);
            },
            _ => {
                proof {
                    assert(false);
                }
            },
        }
        proof {
            assert(self.values() =~= old(self).values().push(ColVal::Text(v)));
        }
    }

    /// Append one byte-string value. Only a variable-width byte builder takes
    /// it; byte strings are a direct-append kind, so the value is never
    /// rejected.
    pub fn append_bytes(&mut self, value: Vec<u8>)
        requires
            *old(self) is Binary,
        ensures
            final(self).kind() == old(self).kind(),
            final(self).width() == old(self).width(),
            final(self).values() == old(self).values().push(ColVal::Bytes(value@)),
    {
        let ghost v = value@;
        match self {
            FieldBuilder::Binary(b) => {
                b.append_value(value);
            },
            _ => {
                proof {
                    assert(false);
                }
            },
        }
        proof {
            assert(self.values() =~= old(self).values().push(ColVal::Bytes(v)));
        }
    }

    /// Append one small unsigned integer. Only an integer builder takes it;
    /// the kind is direct-append, so the value is never rejected.
    pub fn append_u8(&mut self, value: u8)
        requires
            *old(self) is UInt8,
        ensures
            final(self).kind() == old(self).kind(),
            final(self).width() == old(self).width(),
            final(self).values() == old(self).values().push(ColVal::Byte(value)),
    {
        match self {
            FieldBuilder::UInt8(b) => {
                b.append_value(value);
            },
            _ => {
                proof {
                    assert(false);
                }
            },
        }
        proof {
            assert(self.values() =~= old(self).values().push(ColVal::Byte(value)));
        }
    }

    /// Append one byte string through the validating interface. Only a
    /// fixed-width builder takes it; the value is stored exactly when its
    /// length is the builder's width, and otherwise the builder is left
    /// untouched and the rejection names both lengths.
    pub fn checked_append(&mut self, value: Vec<u8>) -> (r: Result<(), AppendRejection>)
        requires
            *old(self) is FixedSizeBinary,
        ensures
            final(self).kind() == old(self).kind(),
            final(self).width() == old(self).width(),
            value@.len() == old(self).width() ==> r is Ok && final(self).values() == old(
                self,
            ).values().push(ColVal::Bytes(value@)),
            value@.len() != old(self).width() ==> final(self).values() == old(self).values() && r
                == Result::<(), AppendRejection>::Err(
                (AppendRejection::WrongLength {
                    expected: old(self).width() as usize,
                    actual: value@.len() as usize,
                }),
            ),
    {
        let ghost v = value@;
        let r: Result<(), AppendRejection> = match self {
            FieldBuilder::FixedSizeBinary(b) => b.checked_append(value),
            _ => {
                proof {
                    assert(false);
                }
                Ok(())
            },
        };
        proof {
            if v.len() == old(self).width() {
                assert(self.values() =~= old(self).values().push(ColVal::Bytes(v)));
            } else {
                assert(self.values() =~= old(self).values());
            }
        }
        r
    }

    /// Finalize this slot's column builder: the accumulated values as one
    /// immutable column of the stored kind, or nothing if no value was ever
    /// appended.
    pub fn finish(self) -> (r: Option<ColumnArray>)
        requires
            fits_offsets(self.kind(), self.values()),
        ensures
            r is None <==> self.values().len() == 0,
            r matches Some(c) ==> column_kind(c) == self.kind() && column_width(c) == self.width()
                && column_values(c) == self.values(),
    {
        match self {
            FieldBuilder::Binary(b) => b.finish(),
            FieldBuilder::FixedSizeBinary(b) => b.finish(),
            FieldBuilder::Text(b) => b.finish(),
            FieldBuilder::UInt8(b) => b.finish(),
        }
    }
}

/// A capability handle for one direct-append slot: `field_builder` returns it
/// only when the slot at `index` stores exactly `kind` and that kind is
/// direct-append. Every append through it is checked against the builder it
/// is used on, so a handle can never reinterpret another slot's storage.
#[derive(Clone, Copy, Debug)]
pub struct FieldHandle {
    pub index: usize,
    pub kind: BuilderKind,
}

/// A capability handle for one checked-append slot, the counterpart of
/// `FieldHandle` for kinds whose append interface validates each value.
#[derive(Clone, Copy, Debug)]
pub struct CheckedFieldHandle {
    pub index: usize,
    pub kind: BuilderKind,
}

/// The model of one slot: its metadata together with its builder's kind,
/// width and accumulated values.
pub open spec fn slot_model(f: (FieldData, FieldBuilder)) -> FieldModel {
    FieldModel {
        name: f.0.name@,
        nullable: f.0.nullable,
        kind: f.1.kind(),
        width: f.1.width(),
        values: f.1.values(),
    }
}

/// The models of an ordered slot list.
pub open spec fn slot_models(s: Seq<(FieldData, FieldBuilder)>) -> Seq<FieldModel> {
    s.map(|i: int, f: (FieldData, FieldBuilder)| slot_model(f))
}

/// The record builder: an ordered, fixed-length sequence of field slots,
/// created once per output batch, mutated only through capability handles,
/// and consumed by exactly one `finish` call.
pub struct AdaptiveStructBuilder {
    fields: Vec<(FieldData, FieldBuilder)>,
}

impl View for AdaptiveStructBuilder {
    type V = Seq<FieldModel>;

    closed spec fn view(&self) -> Seq<FieldModel> {
        slot_models(self.fields@)
    }
}

impl AdaptiveStructBuilder {
    /// A direct handle is valid for this builder when its slot exists, stores
    /// exactly the handle's kind, and that kind is direct-append.
    pub open spec fn valid_direct(self, h: FieldHandle) -> bool {
        direct_lookup_hit(self@, h.index as int, h.kind)
    }

    /// A checked handle is valid for this builder when its slot exists,
    /// stores exactly the handle's kind, and that kind is checked-append.
    pub open spec fn valid_checked(self, h: CheckedFieldHandle) -> bool {
        checked_lookup_hit(self@, h.index as int, h.kind)
    }

    /// Create a record builder over the given ordered (metadata, builder)
    /// slots. Count and order are fixed from here on: no operation inserts or
    /// removes a slot, or changes a slot's kind.
    pub fn new(fields: Vec<(FieldData, FieldBuilder)>) -> (r: Self)
        ensures
            r@ == slot_models(fields@),
    {
        AdaptiveStructBuilder { fields }
    }

    /// Look up the column builder at `i`, expecting a direct-append kind: a
    /// handle exactly when the slot exists, stores `expected`, and `expected`
    /// is direct-append. An out-of-range index, a kind mismatch and a
    /// capability mismatch all yield the same absence, never a fault.
    pub fn field_builder(&self, i: usize, expected: BuilderKind) -> (r: Option<FieldHandle>)
        ensures
            r is Some <==> direct_lookup_hit(self@, i as int, expected),
            r matches Some(h) ==> h == (FieldHandle { index: i, kind: expected }),
    {
        if i < self.fields.len() {
            proof {
                assert(self@[i as int] == slot_model(self.fields@[i as int]));
            }
            let slot = &self.fields[i];
            let k = slot.1.kind_of();
            if k == expected && expected.supports_direct_append() {
                Some(FieldHandle { index: i, kind: expected })
            } else {
                None
            }
        } else {
            None
        }
    }

    /// Look up the column builder at `i`, expecting a checked-append kind:
    /// the counterpart of `field_builder`, answering exactly when `expected`
    /// is stored there and is checked-append.
    pub fn checked_field_builder(&self, i: usize, expected: BuilderKind) -> (r: Option<
        CheckedFieldHandle,
    >)
        ensures
            r is Some <==> checked_lookup_hit(self@, i as int, expected),
            r matches Some(h) ==> h == (CheckedFieldHandle { index: i, kind: expected }),
    {
        if i < self.fields.len() {
            proof {
                assert(self@[i as int] == slot_model(self.fields@[i as int]));
            }
            let slot = &self.fields[i];
            let k = slot.1.kind_of();
            if k == expected && expected.supports_checked_append() {
                Some(CheckedFieldHandle { index: i, kind: expected })
            } else {
                None
            }
        } else {
            None
        }
    }

    /// Append one text value to the slot a direct handle of text kind
    /// certifies: only that slot's values grow, by exactly this value.
    pub fn append_str(&mut self, h: &FieldHandle, value: String)
        requires
            old(self).valid_direct(*h),
            h.kind == BuilderKind::Text,
        ensures
            final(self)@ == old(self)@.update(
                h.index as int,
                (FieldModel {
                    values: old(self)@[h.index as int].values.push(ColVal::Text(value@)),
                    ..old(self)@[h.index as int]
                }),
            ),
    {
        let ghost v = value@;
        proof {
            assert(self@[h.index as int] == slot_model(self.fields@[h.index as int]));
        }
        let b = &mut self.fields[h.index].1;
        b.append_str(value);
        proof {
            assert(self@ =~= old(self)@.update(
                h.index as int,
                (FieldModel {
                    values: old(self)@[h.index as int].values.push(ColVal::Text(v)),
                    ..old(self)@[h.index as int]
                }),
            ));
        }
    }

    /// Append one byte-string value to the slot a direct handle of
    /// variable-width byte kind certifies.
    pub fn append_bytes(&mut self, h: &FieldHandle, value: Vec<u8>)
        requires
            old(self).valid_direct(*h),
            h.kind == BuilderKind::Binary,
        ensures
            final(self)@ == old(self)@.update(
                h.index as int,
                (FieldModel {
                    values: old(self)@[h.index as int].values.push(ColVal::Bytes(value@)),
                    ..old(self)@[h.index as int]
                }),
            ),
    {
        let ghost v = value@;
        proof {
            assert(self@[h.index as int] == slot_model(self.fields@[h.index as int]));
        }
        let b = &mut self.fields[h.index].1;
        b.append_bytes(value);
        proof {
            assert(self@ =~= old(self)@.update(
                h.index as int,
                (FieldModel {
                    values: old(self)@[h.index as int].values.push(ColVal::Bytes(v)),
                    ..old(self)@[h.index as int]
                }),
            ));
        }
    }

    /// Append one small unsigned integer to the slot a direct handle of that
    /// kind certifies.
    pub fn append_u8(&mut self, h: &FieldHandle, value: u8)
        requires
            old(self).valid_direct(*h),
            h.kind == BuilderKind::UInt8,
        ensures
            final(self)@ == old(self)@.update(
                h.index as int,
                (FieldModel {
                    values: old(self)@[h.index as int].values.push(ColVal::Byte(value)),
                    ..old(self)@[h.index as int]
                }),
            ),
    {
        proof {
            assert(self@[h.index as int] == slot_model(self.fields@[h.index as int]));
        }
        let b = &mut self.fields[h.index].1;
        b.append_u8(value);
        proof {
            assert(self@ =~= old(self)@.update(
                h.index as int,
                (FieldModel {
                    values: old(self)@[h.index as int].values.push(ColVal::Byte(value)),
                    ..old(self)@[h.index as int]
                }),
            ));
        }
    }

    /// Append one byte string through the validating interface of the slot a
    /// checked handle certifies: the value is stored exactly when its length
    /// is the slot's fixed width, and otherwise nothing changes and the
    /// rejection names both lengths. The core never drops a rejected value
    /// silently; what to do with it is the caller's choice.
    pub fn checked_append(&mut self, h: &CheckedFieldHandle, value: Vec<u8>) -> (r: Result<
        (),
        AppendRejection,
    >)
        requires
            old(self).valid_checked(*h),
        ensures
            value@.len() == old(self)@[h.index as int].width ==> r is Ok && final(self)@ == old(
                self,
            )@.update(
                h.index as int,
                (FieldModel {
                    values: old(self)@[h.index as int].values.push(ColVal::Bytes(value@)),
                    ..old(self)@[h.index as int]
                }),
            ),
            value@.len() != old(self)@[h.index as int].width ==> final(self)@ == old(self)@ && r
                == Result::<(), AppendRejection>::Err(
                (AppendRejection::WrongLength {
                    expected: old(self)@[h.index as int].width as usize,
                    actual: value@.len() as usize,
                }),
            ),
    {
        let ghost v = value@;
        proof {
            assert(self@[h.index as int] == slot_model(self.fields@[h.index as int]));
        }
        let b = &mut self.fields[h.index].1;
        let r = b.checked_append(value);
        proof {
            if v.len() == old(self)@[h.index as int].width {
                assert(self@ =~= old(self)@.update(
                    h.index as int,
                    (FieldModel {
                        values: old(self)@[h.index as int].values.push(ColVal::Bytes(v)),
                        ..old(self)@[h.index as int]
                    }),
                ));
            } else {
                assert(self@ =~= old(self)@);
            }
        }
        r
    }

    /// Finalize the whole record, consuming the builder: every slot's column
    /// builder is drained in slot order, slots that never received a value
    /// are omitted from both the output schema and the output data, and the
    /// rest appear in construction order with their declared name and
    /// nullability. The two premises are machine limits of the arrow arrays:
    /// variable-width columns address their contents through 32-bit offsets,
    /// and the columns of one record array must agree on their length.
    pub fn finish(self) -> (r: RecordArray)
        requires
            lengths_uniform(self@),
            forall|j: int|
                0 <= j < self@.len() ==> fits_offsets(
                    (#[trigger] self@[j]).kind,
                    self@[j].values,
                ),
        ensures
            record_model(r) == included(self@),
    {
        let ghost m = self@;
        let AdaptiveStructBuilder { fields } = self;
        let mut fields = fields;
        let mut parts: Vec<(FieldData, ColumnArray)> = Vec::new();
        proof {
            assert(part_models(parts@) =~= Seq::<FieldModel>::empty());
        }
        while fields.len() > 0
            invariant
                part_models(parts@) + included(slot_models(fields@)) == included(m),
                forall|j: int|
                    0 <= j < slot_models(fields@).len() ==> fits_offsets(
                        (#[trigger] slot_models(fields@)[j]).kind,
                        slot_models(fields@)[j].values,
                    ),
            decreases fields@.len(),
        {
            let ghost pre = slot_models(fields@);
            let (data, builder) = fields.remove(0);
            proof {
                assert(slot_models(fields@) =~= pre.skip(1));
                assert(pre[0] == slot_model((data, builder)));
            }
            match builder.finish() {
                Option::Some(col) => {
                    let ghost before = part_models(parts@);
                    parts.push((data, col));
                    proof {
                        assert(part_models(parts@) =~= before.push(pre[0]));
                        assert(before.push(pre[0]) + included(pre.skip(1)) =~= before + included(
                            pre,
                        ));
                    }
                },
                Option::None => {},
            }
        }
        proof {
            assert(slot_models(fields@) =~= Seq::<FieldModel>::empty());
            assert(part_models(parts@) =~= part_models(parts@) + included(
                slot_models(fields@),
            ));
            assert(part_models(parts@) == included(m));
        }
        if parts.len() == 0 {
            let r = empty_record();
            proof {
                assert(included(m) =~= Seq::<FieldModel>::empty());
            }
            r
        } else {
            proof {
                assert forall|a: int, b: int|
                    0 <= a < parts@.len() && 0 <= b < parts@.len() implies column_values(
                    (#[trigger] parts@[a]).1,
                ).len() == column_values((#[trigger] parts@[b]).1).len() by {
                    assert(part_models(parts@)[a] == part_model(parts@[a]));
                    assert(part_models(parts@)[b] == part_model(parts@[b]));
                    lemma_included_elem(m, a);
                    lemma_included_elem(m, b);
                }
            }
            struct_array_from_parts(parts)
        }
    }
}

} // verus!
