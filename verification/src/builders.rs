//! The column builders, one per encoding kind. Each accumulates plain values
//! and, on `finish`, either hands them to arrow as one immutable column or
//! reports that it never received data. `Text`, `Binary` and `UInt8` builders
//! append directly; the fixed-width builder validates every value against its
//! byte width and rejects the rest.

use vstd::prelude::*;

use crate::arrays::column_kind;
use crate::arrays::column_values;
use crate::arrays::column_width;
use crate::arrays::ColumnArray;
use crate::model::byte_vals;
use crate::model::bytes_vals;
use crate::model::text_vals;
use crate::model::total_bytes;
use crate::model::BuilderKind;
use crate::model::ColVal;

verus! {

/// Parameters a dictionary-encoded column would be configured with. No kind
/// built here encodes with a dictionary, so the options carry no further
/// detail.
#[derive(Clone, Copy, Debug, PartialEq, Eq, Structural)]
pub struct DictionaryOptions {}

/// How a column builder is configured at construction: whether the column
/// should be dictionary-encoded (never, for the kinds built here) and
/// whether it accepts null entries (no kind built here appends nulls, so the
/// flag has no observable effect).
#[derive(Clone, Copy, Debug, PartialEq, Eq, Structural)]
pub struct ArrayOptions {
    pub dictionary_options: Option<DictionaryOptions>,
    pub nullable: bool,
}

/// Why a checked append refused a value.
#[derive(Clone, Copy, Debug, PartialEq, Eq, Structural)]
pub enum AppendRejection {
    /// The value's byte length is not the width the column was built with.
    WrongLength { expected: usize, actual: usize },
}

/// Accumulates text values for one variable-width text column.
pub struct StringArrayBuilder {
    values: Vec<String>,
}

impl View for StringArrayBuilder {
    type V = Seq<Seq<char>>;

    closed spec fn view(&self) -> Seq<Seq<char>> {
        self.values@.map(|i: int, v: String| v@)
    }
}

impl StringArrayBuilder {
    /// A fresh builder holding no values.
    pub fn new(_options: ArrayOptions) -> (r: Self)
        ensures
            r@ == Seq::<Seq<char>>::empty(),
    {
        let r = StringArrayBuilder { values: Vec::new() };
        proof {
            assert(r@ =~= Seq::<Seq<char>>::empty());
        }
        r
    }

    /// Append one value; text is a direct-append kind, so this never rejects.
    pub fn append_value(&mut self, value: String)
        ensures
            final(self)@ == old(self)@.push(value@),
    {
        self.values.push(value);
        proof {
            assert(self@ =~= old(self)@.push(value@));
        }
    }

    /// Finalize: the accumulated values as one immutable text column, or
    /// nothing if no value was ever appended.
    pub fn finish(self) -> (r: Option<ColumnArray>)
        requires
            total_bytes(text_vals(self@)) <= 0x1fff_ffff,
        ensures
            r is None <==> self@.len() == 0,
            r matches Some(c) ==> column_kind(c) == BuilderKind::Text && column_width(c) == 0
                && column_values(c) == text_vals(self@),
    {
        if self.values.len() == 0 {
            None
        } else {
            proof {
                assert(self.values@.map(|i: int, v: String| ColVal::Text(v@)) =~= text_vals(
                    self@,
                ));
            }
            Some(crate::arrays::string_column(self.values))
        }
    }
}

/// Accumulates byte-string values for one variable-width byte column.
pub struct BinaryArrayBuilder {
    values: Vec<Vec<u8>>,
}

impl View for BinaryArrayBuilder {
    type V = Seq<Seq<u8>>;

    closed spec fn view(&self) -> Seq<Seq<u8>> {
        self.values@.map(|i: int, v: Vec<u8>| v@)
    }
}

impl BinaryArrayBuilder {
    /// A fresh builder holding no values.
    pub fn new(_options: ArrayOptions) -> (r: Self)
        ensures
            r@ == Seq::<Seq<u8>>::empty(),
    {
        let r = BinaryArrayBuilder { values: Vec::new() };
        proof {
            assert(r@ =~= Seq::<Seq<u8>>::empty());
        }
        r
    }

    /// Append one value; byte strings are a direct-append kind, so this never
    /// rejects.
    pub fn append_value(&mut self, value: Vec<u8>)
        ensures
            final(self)@ == old(self)@.push(value@),
    {
        self.values.push(value);
        proof {
            assert(self@ =~= old(self)@.push(value@));
        }
    }

    /// Finalize: the accumulated values as one immutable byte column, or
    /// nothing if no value was ever appended.
    pub fn finish(self) -> (r: Option<ColumnArray>)
        requires
            total_bytes(bytes_vals(self@)) <= 0x7fff_ffff,
        ensures
            r is None <==> self@.len() == 0,
            r matches Some(c) ==> column_kind(c) == BuilderKind::Binary && column_width(c) == 0
                && column_values(c) == bytes_vals(self@),
    {
        if self.values.len() == 0 {
            None
        } else {
            proof {
                assert(self.values@.map(|i: int, v: Vec<u8>| ColVal::Bytes(v@)) =~= bytes_vals(
                    self@,
                ));
            }
            Some(crate::arrays::binary_column(self.values))
        }
    }
}

/// Accumulates small unsigned integers for one primitive column.
pub struct UInt8ArrayBuilder {
    values: Vec<u8>,
}

impl View for UInt8ArrayBuilder {
    type V = Seq<u8>;

    closed spec fn view(&self) -> Seq<u8> {
        self.values@
    }
}

impl UInt8ArrayBuilder {
    /// A fresh builder holding no values.
    pub fn new(_options: ArrayOptions) -> (r: Self)
        ensures
            r@ == Seq::<u8>::empty(),
    {
        UInt8ArrayBuilder { values: Vec::new() }
    }

    /// Append one value; small unsigned integers are a direct-append kind, so
    /// this never rejects.
    pub fn append_value(&mut self, value: u8)
        ensures
            final(self)@ == old(self)@.push(value),
    {
        self.values.push(value);
    }

    /// Finalize: the accumulated values as one immutable integer column, or
    /// nothing if no value was ever appended.
    pub fn finish(self) -> (r: Option<ColumnArray>)
        ensures
            r is None <==> self@.len() == 0,
            r matches Some(c) ==> column_kind(c) == BuilderKind::UInt8 && column_width(c) == 0
                && column_values(c) == byte_vals(self@),
    {
        if self.values.len() == 0 {
            None
        } else {
            Some(crate::arrays::uint8_column(self.values))
        }
    }
}

/// Accumulates byte strings of one fixed width. Appends go through a
/// validating interface that rejects values of any other length, so every
/// stored value has exactly the width the builder was constructed with.
pub struct FixedSizeBinaryArrayBuilder {
    width: usize,
    values: Vec<Vec<u8>>,
}

impl View for FixedSizeBinaryArrayBuilder {
    type V = Seq<Seq<u8>>;

    closed spec fn view(&self) -> Seq<Seq<u8>> {
        self.values@.map(|i: int, v: Vec<u8>| v@)
    }
}

impl FixedSizeBinaryArrayBuilder {
    /// Every stored value has the declared width, and the width fits the
    /// 32-bit length arrow's fixed-width type records.
    #[verifier::type_invariant]
    spec fn wf(self) -> bool {
        self.width <= 0x7fff_ffff && forall|j: int|
            0 <= j < self.values@.len() ==> (#[trigger] self.values@[j])@.len() == self.width
    }

    /// The byte width every appended value is validated against.
    pub closed spec fn byte_width(self) -> nat {
        self.width as nat
    }

    /// A fresh builder holding no values, validating against `byte_width`.
    /// The width must fit the 32-bit length arrow's fixed-width type records.
    pub fn new(_options: ArrayOptions, byte_width: usize) -> (r: Self)
        requires
            byte_width <= 0x7fff_ffff,
        ensures
            r@ == Seq::<Seq<u8>>::empty(),
            r.byte_width() == byte_width,
    {
        let r = FixedSizeBinaryArrayBuilder { width: byte_width, values: Vec::new() };
        proof {
            assert(r@ =~= Seq::<Seq<u8>>::empty());
        }
        r
    }

    /// Append one value through the validating interface: the value is stored
    /// exactly when its length is the declared width, and otherwise the
    /// builder is left untouched and the rejection says which lengths
    /// disagreed.
    pub fn checked_append(&mut self, value: Vec<u8>) -> (r: Result<(), AppendRejection>)
        ensures
            final(self).byte_width() == old(self).byte_width(),
            value@.len() == old(self).byte_width() ==> r is Ok && final(self)@ == old(self)@.push(
                value@,
            ),
            value@.len() != old(self).byte_width() ==> final(self)@ == old(self)@ && r == Result::<
                (),
                AppendRejection,
            >::Err(
                (AppendRejection::WrongLength {
                    expected: old(self).byte_width() as usize,
                    actual: value@.len() as usize,
                }),
            ),
    {
        proof {
            use_type_invariant(&*self);
        }
        if value.len() == self.width {
            let ghost prior = self@;
            let mut vals: Vec<Vec<u8>> = Vec::new();
            std::mem::swap(&mut vals, &mut self.values);
            vals.push(value);
            std::mem::swap(&mut vals, &mut self.values);
            proof {
                assert(self@ =~= prior.push(value@));
            }
            Ok(())
        } else {
            Err(AppendRejection::WrongLength { expected: self.width, actual: value.len() })
        }
    }

    /// Finalize: the accumulated values as one immutable fixed-width byte
    /// column, or nothing if no value was ever appended.
    pub fn finish(self) -> (r: Option<ColumnArray>)
        ensures
            r is None <==> self@.len() == 0,
            r matches Some(c) ==> column_kind(c) == BuilderKind::FixedSizeBinary && column_width(
                c,
            ) == self.byte_width() && column_values(c) == bytes_vals(self@),
    {
        proof {
            use_type_invariant(&self);
        }
        if self.values.len() == 0 {
            None
        } else {
            proof {
                assert(self.values@.map(|i: int, v: Vec<u8>| ColVal::Bytes(v@)) =~= bytes_vals(
                    self@,
                ));
            }
            Some(crate::arrays::fixed_size_binary_column(self.width, self.values))
        }
    }
}

} // verus!
