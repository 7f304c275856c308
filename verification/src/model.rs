//! The mathematical model of the builder: encoding kinds and their append
//! capability, the per-slot model, and the elision function that says which
//! slots survive finalization.

use vstd::prelude::*;

verus! {

/// The closed set of column encoding kinds. Each kind owns exactly one
/// concrete column builder and supports exactly one append capability:
/// `Text`, `Binary` and `UInt8` are direct-append, `FixedSizeBinary` is
/// checked-append.
#[derive(Clone, Copy, Debug, PartialEq, Eq, Structural)]
pub enum BuilderKind {
    Binary,
    FixedSizeBinary,
    Text,
    UInt8,
}

/// One appended value, as the model sees it.
pub enum ColVal {
    Text(Seq<char>),
    Bytes(Seq<u8>),
    Byte(u8),
}

/// The model of one field slot: its schema metadata, its encoding kind, and
/// the values its column builder has accumulated, in append order. `width`
/// is the fixed byte width a `FixedSizeBinary` slot validates against; it is
/// zero for every other kind.
pub struct FieldModel {
    pub name: Seq<char>,
    pub nullable: bool,
    pub kind: BuilderKind,
    pub width: nat,
    pub values: Seq<ColVal>,
}

/// A kind whose append interface can never reject a value.
pub open spec fn direct_append_kind(k: BuilderKind) -> bool {
    match k {
        BuilderKind::Binary => true,
        BuilderKind::FixedSizeBinary => false,
        BuilderKind::Text => true,
        BuilderKind::UInt8 => true,
    }
}

/// A kind whose append interface validates each value and may reject it.
pub open spec fn checked_append_kind(k: BuilderKind) -> bool {
    match k {
        BuilderKind::Binary => false,
        BuilderKind::FixedSizeBinary => true,
        BuilderKind::Text => false,
        BuilderKind::UInt8 => false,
    }
}

impl BuilderKind {
    /// Whether this kind is served by the direct-append accessor.
    pub fn supports_direct_append(self) -> (r: bool)
        ensures
            r == direct_append_kind(self),
    {
        match self {
            BuilderKind::Binary => true,
            BuilderKind::FixedSizeBinary => false,
            BuilderKind::Text => true,
            BuilderKind::UInt8 => true,
        }
    }

    /// Whether this kind is served by the checked-append accessor.
    pub fn supports_checked_append(self) -> (r: bool)
        ensures
            r == checked_append_kind(self),
    {
        match self {
            BuilderKind::Binary => false,
            BuilderKind::FixedSizeBinary => true,
            BuilderKind::Text => false,
            BuilderKind::UInt8 => false,
        }
    }
}

/// The size a value contributes to a variable-width column's offset bound:
/// its length in bytes for byte strings, one for a single byte, and its
/// character count for text (each character encodes to at most four bytes,
/// which the text bound in `fits_offsets` leaves room for).
pub open spec fn col_val_bytes(v: ColVal) -> nat {
    match v {
        ColVal::Text(s) => s.len(),
        ColVal::Bytes(b) => b.len(),
        ColVal::Byte(_) => 1,
    }
}

/// The total storage of a column's values, by `col_val_bytes`.
pub open spec fn total_bytes(vs: Seq<ColVal>) -> nat
    decreases vs.len(),
{
    if vs.len() == 0 {
        0
    } else {
        col_val_bytes(vs[0]) + total_bytes(vs.skip(1))
    }
}

/// The finished arrow arrays address variable-width contents through 32-bit
/// offsets: a text column must stay under that bound even if every character
/// takes four encoded bytes, and a byte column under the bound itself.
pub open spec fn fits_offsets(k: BuilderKind, values: Seq<ColVal>) -> bool {
    match k {
        BuilderKind::Text => total_bytes(values) <= 0x1fff_ffff,
        BuilderKind::Binary => total_bytes(values) <= 0x7fff_ffff,
        BuilderKind::FixedSizeBinary => true,
        BuilderKind::UInt8 => true,
    }
}

/// Text values, as a column's contents.
pub open spec fn text_vals(s: Seq<Seq<char>>) -> Seq<ColVal> {
    s.map(|i: int, v: Seq<char>| ColVal::Text(v))
}

/// Byte-string values, as a column's contents.
pub open spec fn bytes_vals(s: Seq<Seq<u8>>) -> Seq<ColVal> {
    s.map(|i: int, v: Seq<u8>| ColVal::Bytes(v))
}

/// Single-byte values, as a column's contents.
pub open spec fn byte_vals(s: Seq<u8>) -> Seq<ColVal> {
    s.map(|i: int, v: u8| ColVal::Byte(v))
}

/// Appending a value grows a column's total storage by exactly that
/// value's share: callers step this along their appends to discharge the
/// offset bound that finalization asks for.
pub proof fn lemma_total_bytes_push(vs: Seq<ColVal>, v: ColVal)
    ensures
        total_bytes(vs.push(v)) == total_bytes(vs) + col_val_bytes(v),
    decreases vs.len(),
{
    assert(total_bytes(vs.push(v)) == col_val_bytes(vs.push(v)[0]) + total_bytes(
        vs.push(v).skip(1),
    ));
    if vs.len() == 0 {
        assert(vs.push(v)[0] == v);
        assert(vs.push(v).skip(1) =~= Seq::<ColVal>::empty());
        assert(total_bytes(Seq::<ColVal>::empty()) == 0);
    } else {
        assert(vs.push(v)[0] == vs[0]);
        assert(vs.push(v).skip(1) =~= vs.skip(1).push(v));
        lemma_total_bytes_push(vs.skip(1), v);
    }
}

/// The direct-append accessor answers for a slot exactly under these
/// conditions: the index is in range, the stored kind is the expected one,
/// and that kind's capability is direct-append.
pub open spec fn direct_lookup_hit(s: Seq<FieldModel>, i: int, k: BuilderKind) -> bool {
    0 <= i < s.len() && s[i].kind == k && direct_append_kind(k)
}

/// The checked-append accessor answers for a slot exactly under these
/// conditions: the index is in range, the stored kind is the expected one,
/// and that kind's capability is checked-append.
pub open spec fn checked_lookup_hit(s: Seq<FieldModel>, i: int, k: BuilderKind) -> bool {
    0 <= i < s.len() && s[i].kind == k && checked_append_kind(k)
}

/// The two accessors are disjoint: no index and expected kind is answered by
/// both, whatever the slots hold.
pub proof fn lemma_lookups_disjoint(s: Seq<FieldModel>, i: int, k: BuilderKind)
    ensures
        !(direct_lookup_hit(s, i, k) && checked_lookup_hit(s, i, k)),
{
}

/// A slot whose kind is direct-append never answers the checked accessor,
/// whatever kind the caller expects.
pub proof fn lemma_direct_slot_never_checked(s: Seq<FieldModel>, i: int, k: BuilderKind)
    requires
        0 <= i < s.len(),
        direct_append_kind(s[i].kind),
    ensures
        !checked_lookup_hit(s, i, k),
{
}

/// A slot whose kind is checked-append never answers the direct accessor,
/// whatever kind the caller expects.
pub proof fn lemma_checked_slot_never_direct(s: Seq<FieldModel>, i: int, k: BuilderKind)
    requires
        0 <= i < s.len(),
        checked_append_kind(s[i].kind),
    ensures
        !direct_lookup_hit(s, i, k),
{
}

/// A slot expected under any kind other than its own answers neither
/// accessor, whether or not the capability would match.
pub proof fn lemma_kind_mismatch_absent(s: Seq<FieldModel>, i: int, k: BuilderKind)
    requires
        0 <= i < s.len() ==> s[i].kind != k,
    ensures
        !direct_lookup_hit(s, i, k),
        !checked_lookup_hit(s, i, k),
{
}

/// No kind answers both accessors: the two capabilities are mutually
/// exclusive, so for one expected kind at most one of the two lookups can
/// ever produce a handle.
pub proof fn lemma_capabilities_disjoint(k: BuilderKind)
    ensures
        !(direct_append_kind(k) && checked_append_kind(k)),
{
}

/// Every kind supports exactly one of the two capabilities.
pub proof fn lemma_capabilities_total(k: BuilderKind)
    ensures
        direct_append_kind(k) || checked_append_kind(k),
{
}

/// The slots that survive finalization, in slot order: a slot appears in the
/// output exactly when its builder accumulated at least one value.
pub open spec fn included(s: Seq<FieldModel>) -> Seq<FieldModel>
    decreases s.len(),
{
    if s.len() == 0 {
        Seq::empty()
    } else if s[0].values.len() == 0 {
        included(s.skip(1))
    } else {
        seq![s[0]] + included(s.skip(1))
    }
}

/// The output position a surviving slot lands on: the number of surviving
/// slots before it.
pub open spec fn out_index(s: Seq<FieldModel>, i: int) -> int {
    included(s.take(i)).len() as int
}

/// All slots that accumulated data agree on how many values they hold.
pub open spec fn lengths_uniform(s: Seq<FieldModel>) -> bool {
    forall|i: int, j: int|
        0 <= i < s.len() && 0 <= j < s.len() && #[trigger] s[i].values.len() > 0
            && #[trigger] s[j].values.len() > 0 ==> s[i].values.len() == s[j].values.len()
}

/// Empty slots are elided: the output never has more fields than the builder
/// was constructed with, and every output slot holds at least one value.
pub proof fn lemma_included_elides_empty(s: Seq<FieldModel>)
    ensures
        included(s).len() <= s.len(),
        forall|j: int| 0 <= j < included(s).len() ==> #[trigger] included(s)[j].values.len() > 0,
    decreases s.len(),
{
    if s.len() == 0 {
    } else {
        lemma_included_elides_empty(s.skip(1));
    }
}

/// Every output slot is one of the input slots, unchanged, and it held data.
pub proof fn lemma_included_elem(s: Seq<FieldModel>, j: int)
    requires
        0 <= j < included(s).len(),
    ensures
        exists|i: int|
            0 <= i < s.len() && included(s)[j] == #[trigger] s[i] && s[i].values.len() > 0,
    decreases s.len(),
{
    if s.len() == 0 {
    } else if s[0].values.len() == 0 {
        lemma_included_elem(s.skip(1), j);
        let i0 = choose|i: int|
            0 <= i < s.skip(1).len() && included(s.skip(1))[j] == #[trigger] s.skip(1)[i]
                && s.skip(1)[i].values.len() > 0;
        assert(included(s)[j] == s[i0 + 1]);
    } else if j == 0 {
        assert(included(s)[0] == s[0]);
    } else {
        lemma_included_elem(s.skip(1), j - 1);
        let i0 = choose|i: int|
            0 <= i < s.skip(1).len() && included(s.skip(1))[j - 1] == #[trigger] s.skip(1)[i]
                && s.skip(1)[i].values.len() > 0;
        assert(included(s)[j] == s[i0 + 1]);
    }
}

/// Stepping the prefix past the first slot shifts the output position by one
/// exactly when that slot survives.
proof fn lemma_out_index_step(s: Seq<FieldModel>, i: int)
    requires
        1 <= i <= s.len(),
    ensures
        out_index(s, i) == (if s[0].values.len() == 0 { 0int } else { 1int }) + out_index(
            s.skip(1),
            i - 1,
        ),
{
    assert(s.take(i).skip(1) =~= s.skip(1).take(i - 1));
    assert(s.take(i)[0] == s[0]);
}

/// A slot that accumulated data keeps its place: it appears in the output,
/// unchanged, at the position given by `out_index`.
pub proof fn lemma_included_at(s: Seq<FieldModel>, i: int)
    requires
        0 <= i < s.len(),
        s[i].values.len() > 0,
    ensures
        0 <= out_index(s, i) < included(s).len(),
        included(s)[out_index(s, i)] == s[i],
    decreases i,
{
    if i == 0 {
        assert(s.take(0) =~= Seq::<FieldModel>::empty());
    } else {
        lemma_out_index_step(s, i);
        lemma_included_at(s.skip(1), i - 1);
    }
}

/// Construction order is kept: of two slots that both accumulated data, the
/// earlier one lands on the smaller output position.
pub proof fn lemma_out_index_monotone(s: Seq<FieldModel>, i1: int, i2: int)
    requires
        0 <= i1 < i2 < s.len(),
        s[i1].values.len() > 0,
    ensures
        out_index(s, i1) < out_index(s, i2),
    decreases i1,
{
    if i1 == 0 {
        assert(s.take(0) =~= Seq::<FieldModel>::empty());
        assert(out_index(s, i2) >= 1) by {
            assert(s.take(i2)[0] == s[0]);
            assert(included(s.take(i2)).len() >= 1);
        }
    } else {
        lemma_out_index_step(s, i1);
        lemma_out_index_step(s, i2);
        lemma_out_index_monotone(s.skip(1), i1 - 1, i2 - 1);
    }
}

} // verus!
