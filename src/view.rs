//! Read views and write views of a register's bits, and the fast paths that
//! set or test one field without converting a value.
use vstd::prelude::*;
use crate::codec::{
    decoded, encoded, extract, fits, index_from, insert, lemma_extract_insert,
    lemma_index_from, lemma_insert_disjoint, lemma_insert_outside, lemma_masks_disjoint, Value,
};
use crate::layout::{bit_set, field_max, lemma_mask_bits, low_bits, mask_of, FieldKind, RegisterLayout};
use crate::schema::DecodeError;

verus! {

/// One snapshot of a register's bits, through which the readable fields are
/// read.
#[derive(Debug, Clone, Copy, PartialEq, Eq, Structural)]
pub struct ReadView {
    bits: u32,
}

/// Bits to be stored in a register, built up by setting its writable fields.
#[derive(Debug, Clone, Copy, PartialEq, Eq, Structural)]
pub struct WriteView {
    bits: u32,
}

impl View for ReadView {
    type V = u32;

    closed spec fn view(&self) -> u32 {
        self.bits
    }
}

impl View for WriteView {
    type V = u32;

    closed spec fn view(&self) -> u32 {
        self.bits
    }
}

impl ReadView {
    pub fn from_bits(bits: u32) -> (r: ReadView)
        ensures
            r@ == bits,
    {
        ReadView { bits }
    }

    /// The raw bits of the snapshot.
    pub fn bits(&self) -> (r: u32)
        ensures
            r == self@,
    {
        self.bits
    }
}

impl WriteView {
    pub fn from_bits(bits: u32) -> (r: WriteView)
        ensures
            r@ == bits,
    {
        WriteView { bits }
    }

    /// The raw bits built so far.
    pub fn bits(&self) -> (r: u32)
        ensures
            r == self@,
    {
        self.bits
    }
}

impl RegisterLayout {
    /// Field `i` exists and may be read.
    pub open spec fn readable(self, i: int) -> bool {
        0 <= i < self.fields@.len() && self.fields@[i].access.readable()
    }

    /// Field `i` exists and may be written.
    pub open spec fn writable(self, i: int) -> bool {
        0 <= i < self.fields@.len() && self.fields@[i].access.writable()
    }

    pub open spec fn spec_has_read_view(self) -> bool {
        exists|i: int| self.readable(i)
    }

    pub open spec fn spec_has_write_view(self) -> bool {
        exists|i: int| self.writable(i)
    }

    /// What field `i` reads as in the register bits `bits`.
    pub open spec fn value_of(self, bits: u32, i: int) -> Result<Value, DecodeError> {
        decoded(self.fields@[i], extract(bits, self.fields@[i]))
    }

    /// The register bits `bits` after field `i` is set to `v`.
    pub open spec fn with_value(self, bits: u32, i: int, v: Value) -> u32 {
        insert(bits, self.fields@[i], encoded(self.fields@[i], v))
    }

    /// Whether any field may be read: otherwise the register has no read view.
    pub fn has_read_view(&self) -> (r: bool)
        ensures
            r == self.spec_has_read_view(),
    {
        let mut i: usize = 0;
        while i < self.fields.len()
            invariant
                i <= self.fields@.len(),
                forall|j: int| 0 <= j < i ==> !self.readable(j),
            decreases self.fields@.len() - i,
        {
            if self.fields[i].access.is_readable() {
                assert(self.readable(i as int));
                return true;
            }
            i = i + 1;
        }
        false
    }

    /// Whether any field may be written: otherwise the register has no write
    /// view.
    pub fn has_write_view(&self) -> (r: bool)
        ensures
            r == self.spec_has_write_view(),
    {
        let mut i: usize = 0;
        while i < self.fields.len()
            invariant
                i <= self.fields@.len(),
                forall|j: int| 0 <= j < i ==> !self.writable(j),
            decreases self.fields@.len() - i,
        {
            if self.fields[i].access.is_writable() {
                assert(self.writable(i as int));
                return true;
            }
            i = i + 1;
        }
        false
    }

    /// Whether a read and a write can be combined in one step: the register
    /// has both a read view and a write view.
    pub fn has_modify(&self) -> (r: bool)
        ensures
            r == (self.spec_has_read_view() && self.spec_has_write_view()),
    {
        self.has_read_view() && self.has_write_view()
    }

    /// `r` is what an update of the register bits `current` by `f` stores:
    /// what `f` returns for a write view of `current`, cut to the register's
    /// width.
    pub open spec fn update_result<F: FnOnce(WriteView) -> WriteView>(
        self,
        current: u32,
        f: F,
        r: WriteView,
    ) -> bool {
        exists|w: WriteView, next: WriteView|
            w@ == current && f.ensures((w,), next) && r@ == next@ & low_bits(self.width)
    }

    /// `r` is what a modification of the register bits `current` by `f`
    /// stores: what `f` returns for a read view and a write view of
    /// `current`, cut to the register's width.
    pub open spec fn modify_result<F: FnOnce(ReadView, WriteView) -> WriteView>(
        self,
        current: u32,
        f: F,
        r: WriteView,
    ) -> bool {
        exists|rv: ReadView, wv: WriteView, next: WriteView|
            rv@ == current && wv@ == current && f.ensures((rv, wv), next) && r@ == next@
                & low_bits(self.width)
    }

    /// The update step of a register whose bits are `current`: hands `f` a
    /// write view of `current` and cuts what it returns to the register's
    /// width.
    pub fn apply_update<F: FnOnce(WriteView) -> WriteView>(&self, current: u32, f: F) -> (r:
        WriteView)
        requires
            forall|w: WriteView| w@ == current ==> f.requires((w,)),
        ensures
            self.update_result(current, f, r),
            r@ <= low_bits(self.width),
    {
        let w = WriteView::from_bits(current);
        let next = f(w);
        let bits = next.bits() & self.width_max();
        proof {
            let m = low_bits(self.width);
            let nb = next@;
            assert(nb & m <= m) by (bit_vector);
        }
        WriteView::from_bits(bits)
    }

    /// The modification step of a register whose bits are `current`: hands
    /// `f` a read view and a write view of `current` and cuts what it
    /// returns to the register's width.
    pub fn apply_modify<F: FnOnce(ReadView, WriteView) -> WriteView>(&self, current: u32, f: F) -> (r:
        WriteView)
        requires
            forall|rv: ReadView, wv: WriteView|
                rv@ == current && wv@ == current ==> f.requires((rv, wv)),
        ensures
            self.modify_result(current, f, r),
            r@ <= low_bits(self.width),
    {
        let rv = ReadView::from_bits(current);
        let wv = WriteView::from_bits(current);
        let next = f(rv, wv);
        let bits = next.bits() & self.width_max();
        proof {
            let m = low_bits(self.width);
            let nb = next@;
            assert(nb & m <= m) by (bit_vector);
        }
        WriteView::from_bits(bits)
    }

    /// The largest value the register's bits can hold.
    pub fn width_max(&self) -> (r: u32)
        ensures
            r == low_bits(self.width),
    {
        field_max(self.width)
    }

    /// A write view that starts from the reset value.
    pub fn default_write(&self) -> (r: WriteView)
        ensures
            r@ == self.reset_value,
    {
        WriteView { bits: self.reset_value }
    }

    /// Reads field `field`.
    pub fn get(&self, view: &ReadView, field: usize) -> (r: Result<Value, DecodeError>)
        requires
            self.wf(),
            self.readable(field as int),
        ensures
            r == self.value_of(view@, field as int),
    {
        let f = &self.fields[field];
        f.decode((view.bits & f.mask) >> f.start)
    }

    /// Sets field `field` to `value`; the other bits stay as they are.
    pub fn set<'a>(&self, view: &'a mut WriteView, field: usize, value: Value) -> (r:
        &'a mut WriteView)
        requires
            self.wf(),
            self.writable(field as int),
            fits(self.fields@[field as int], value),
        ensures
            r@ == self.with_value(old(view)@, field as int, value),
            *final(view) == *final(r),
    {
        let f = &self.fields[field];
        let e = f.encode(value);
        view.bits = (view.bits & !f.mask) | ((e << f.start) & f.mask);
        view
    }
}

} // verus!

verus! {

/// Setting every bit of a field reads back as all ones, and leaves the bits
/// of a disjoint mask as they were.
proof fn lemma_or_mask(old: u32, start: u32, size: u32, other: u32)
    requires
        1 <= size,
        start + size <= 32,
    ensures
        ((old | mask_of(start, size)) & mask_of(start, size)) >> start == low_bits(size),
        low_bits(size) != 0,
        mask_of(start, size) & other == 0 ==> (old | mask_of(start, size)) & other == old & other,
        (old | mask_of(start, size)) & !mask_of(start, size) == old & !mask_of(start, size),
{
    let l = low_bits(size);
    let m = mask_of(start, size);
    assert((l == 0xffff_ffffu32 && size >= 32) || (l == !(0xffff_ffffu32 << size) && size < 32));
    assert(((old | (l << start)) & (l << start)) >> start == l && l != 0) by (bit_vector)
        requires
            (l == 0xffff_ffffu32 && size >= 32) || (l == !(0xffff_ffffu32 << size) && size < 32),
            1 <= size,
            start + size <= 32,
    ;
    assert(m & other == 0 ==> (old | m) & other == old & other) by (bit_vector);
    assert((old | m) & !m == old & !m) by (bit_vector);
}

/// Bit `b` of a write of one field changes only where the field's mask has
/// bit `b`.
proof fn lemma_insert_bit(x: u32, mask: u32, start: u32, e: u32, b: u32)
    requires
        b < 32,
        !bit_set(mask, b),
    ensures
        bit_set((x & !mask) | ((e << start) & mask), b) == bit_set(x, b),
{
    assert(bit_set((x & !mask) | ((e << start) & mask), b) == bit_set(x, b)) by (bit_vector)
        requires
            b < 32,
            !((mask >> b) & 1u32 == 1u32),
    ;
}

/// The mask of each field has exactly the bits `start .. start + size` set,
/// and two different fields of a register never share a set bit.
pub proof fn lemma_field_masks(l: RegisterLayout, i: int, j: int, b: u32)
    requires
        l.wf(),
        0 <= i < l.fields@.len(),
        0 <= j < l.fields@.len(),
        b < 32,
    ensures
        bit_set(l.fields@[i].mask, b) <==> (l.fields@[i].start <= b && b < l.fields@[i].start
            + l.fields@[i].size),
        i != j ==> l.fields@[i].mask & l.fields@[j].mask == 0,
{
    let fi = l.fields@[i];
    let fj = l.fields@[j];
    assert(fi.wf(l.width) && fj.wf(l.width));
    lemma_mask_bits(fi.start, fi.size, b);
    if i != j {
        lemma_masks_disjoint(fi.start, fi.size, fj.start, fj.size);
    }
}

/// Writing one field leaves the bits of every other field as they were.
pub proof fn lemma_set_keeps_other_fields(l: RegisterLayout, bits: u32, i: int, v: Value, j: int)
    requires
        l.wf(),
        0 <= i < l.fields@.len(),
        0 <= j < l.fields@.len(),
        i != j,
    ensures
        extract(l.with_value(bits, i, v), l.fields@[j]) == extract(bits, l.fields@[j]),
        l.value_of(l.with_value(bits, i, v), j) == l.value_of(bits, j),
{
    let fi = l.fields@[i];
    lemma_field_masks(l, i, j, 0);
    lemma_insert_disjoint(bits, fi.mask, fi.start, encoded(fi, v), l.fields@[j].mask);
}

/// A value is in range for a field when writing it and reading it back can
/// give it back: an integer that fits in the field and in its type, and in
/// its flag set where there is one; any boolean; any variant of an
/// enumeration.
pub open spec fn in_range(l: RegisterLayout, i: int, v: Value) -> bool {
    let f = l.fields@[i];
    &&& fits(f, v)
    &&& match (f.kind, v) {
        (FieldKind::Integer { repr_max, flags }, Value::Integer(x)) => {
            &&& x <= low_bits(f.size)
            &&& x <= repr_max
            &&& match flags {
                Some(valid) => x & !valid == 0,
                None => true,
            }
        },
        _ => true,
    }
}

/// Writing a field and reading it back gives the value written, and leaves
/// every other field as it was.
pub proof fn lemma_round_trip(l: RegisterLayout, bits: u32, i: int, v: Value)
    requires
        l.wf(),
        0 <= i < l.fields@.len(),
        in_range(l, i, v),
    ensures
        l.value_of(l.with_value(bits, i, v), i) == Ok::<Value, DecodeError>(v),
        forall|j: int|
            0 <= j < l.fields@.len() && j != i ==> #[trigger] l.value_of(
                l.with_value(bits, i, v),
                j,
            ) == l.value_of(bits, j),
{
    let f = l.fields@[i];
    assert(f.wf(l.width));
    let e = encoded(f, v);
    match v {
        Value::Boolean(t) => {
            let z = f.size;
            assert(1 <= low_bits(z)) by (bit_vector)
                requires
                    1 <= z,
            ;
        },
        Value::Variant(k) => {
            let ds = f.kind->discriminants;
            lemma_index_from(ds@, ds@[k as int], 0);
        },
        Value::Integer(x) => {
            let m = f.kind->repr_max;
            assert(x & m == x) by (bit_vector)
                requires
                    x <= m,
                    m == 0xff || m == 0xffff || m == 0xffff_ffff,
            ;
        },
    }
    lemma_extract_insert(bits, f.start, f.size, e);
    assert forall|j: int| 0 <= j < l.fields@.len() && j != i implies #[trigger] l.value_of(
        l.with_value(bits, i, v),
        j,
    ) == l.value_of(bits, j) by {
        lemma_set_keeps_other_fields(l, bits, i, v, j);
    }
}

/// The register bits `bits` after each write of `writes` in turn; a write is
/// a field index and a value.
pub open spec fn with_values(l: RegisterLayout, bits: u32, writes: Seq<(int, Value)>) -> u32
    decreases writes.len(),
{
    if writes.len() == 0 {
        bits
    } else {
        let w = writes.last();
        l.with_value(with_values(l, bits, writes.drop_last()), w.0, w.1)
    }
}

/// Some write of `writes` is to a field that holds bit `b`.
pub open spec fn touches(l: RegisterLayout, writes: Seq<(int, Value)>, b: u32) -> bool {
    exists|n: int|
        0 <= n < writes.len() && l.fields@[(#[trigger] writes[n]).0].start <= b && b < l.fields@[
            writes[n].0].start + l.fields@[writes[n].0].size
}

/// An update that makes the writes `writes` leaves every bit that none of
/// their fields holds as it was.
pub proof fn lemma_update_keeps_untouched_bits(
    l: RegisterLayout,
    bits: u32,
    writes: Seq<(int, Value)>,
    b: u32,
)
    requires
        l.wf(),
        forall|n: int| 0 <= n < writes.len() ==> 0 <= (#[trigger] writes[n]).0 < l.fields@.len(),
        b < 32,
        !touches(l, writes, b),
    ensures
        bit_set(with_values(l, bits, writes), b) == bit_set(bits, b),
    decreases writes.len(),
{
    if writes.len() > 0 {
        let rest = writes.drop_last();
        let w = writes.last();
        assert(!touches(l, rest, b)) by {
            if touches(l, rest, b) {
                let n = choose|n: int|
                    0 <= n < rest.len() && l.fields@[(#[trigger] rest[n]).0].start <= b && b
                        < l.fields@[rest[n].0].start + l.fields@[rest[n].0].size;
                assert(writes[n] == rest[n]);
            }
        }
        lemma_update_keeps_untouched_bits(l, bits, rest, b);
        let f = l.fields@[w.0];
        assert(writes[writes.len() - 1] == w);
        lemma_field_masks(l, w.0, w.0, b);
        lemma_insert_bit(with_values(l, bits, rest), f.mask, f.start, encoded(f, w.1), b);
    }
}

/// An update whose transform returns the write view it is given stores
/// back the bits it read, when they fit the register.
pub proof fn lemma_identity_update<F: FnOnce(WriteView) -> WriteView>(
    l: RegisterLayout,
    current: u32,
    f: F,
    r: WriteView,
)
    requires
        l.width <= 32,
        current <= low_bits(l.width),
        forall|w: WriteView, next: WriteView| f.ensures((w,), next) ==> next == w,
        l.update_result(current, f, r),
    ensures
        r@ == current,
{
    let w = l.width;
    let lw = low_bits(w);
    assert((lw == 0xffff_ffffu32 && w >= 32) || (lw == !(0xffff_ffffu32 << w) && w < 32));
    assert(current & lw == current) by (bit_vector)
        requires
            current <= lw,
            (lw == 0xffff_ffffu32 && w >= 32) || (lw == !(0xffff_ffffu32 << w) && w < 32),
    ;
}

impl RegisterLayout {
    /// Fast setter of a boolean field: sets every bit of its mask.
    pub fn quick_set_true<'a>(&self, view: &'a mut WriteView, field: usize) -> (r:
        &'a mut WriteView)
        requires
            self.wf(),
            self.writable(field as int),
            self.fields@[field as int].kind is Boolean,
            self.fields@[field as int].kind->quick_set_true,
        ensures
            r@ == old(view)@ | self.fields@[field as int].mask,
            *final(view) == *final(r),
            r@ & !self.fields@[field as int].mask == self.with_value(
                old(view)@,
                field as int,
                Value::Boolean(true),
            ) & !self.fields@[field as int].mask,
            forall|j: int|
                0 <= j < self.fields@.len() ==> #[trigger] self.value_of(r@, j) == self.value_of(
                    self.with_value(old(view)@, field as int, Value::Boolean(true)),
                    j,
                ),
    {
        let ghost before = view.bits;
        let mask = self.fields[field].mask;
        view.bits = view.bits | mask;
        proof {
            let i = field as int;
            let f = self.fields@[i];
            assert(f.wf(self.width));
            let generic = self.with_value(before, i, Value::Boolean(true));
            lemma_or_mask(before, f.start, f.size, 0);
            lemma_insert_outside(before, f.mask, f.start, 1);
            lemma_round_trip(*self, before, i, Value::Boolean(true));
            assert forall|j: int| 0 <= j < self.fields@.len() implies #[trigger] self.value_of(
                view.bits,
                j,
            ) == self.value_of(generic, j) by {
                if j != i {
                    lemma_field_masks(*self, i, j, 0);
                    lemma_or_mask(before, f.start, f.size, self.fields@[j].mask);
                }
            }
        }
        view
    }

    /// Fast setter of a boolean field: clears every bit of its mask, as
    /// setting it to `false` does.
    pub fn quick_set_false<'a>(&self, view: &'a mut WriteView, field: usize) -> (r:
        &'a mut WriteView)
        requires
            self.wf(),
            self.writable(field as int),
            self.fields@[field as int].kind is Boolean,
            self.fields@[field as int].kind->quick_set_false,
        ensures
            r@ == old(view)@ & !self.fields@[field as int].mask,
            r@ == self.with_value(old(view)@, field as int, Value::Boolean(false)),
            *final(view) == *final(r),
    {
        let mask = self.fields[field].mask;
        let start = self.fields[field].start;
        let ghost before = view.bits;
        view.bits = view.bits & !mask;
        assert((before & !mask) | ((0u32 << start) & mask) == before & !mask) by (bit_vector);
        view
    }

    /// Fast setter of variant `variant` of an enumeration field, as setting
    /// the field to that variant does.
    pub fn quick_set_variant<'a>(&self, view: &'a mut WriteView, field: usize, variant: usize) -> (r:
        &'a mut WriteView)
        requires
            self.wf(),
            self.writable(field as int),
            self.fields@[field as int].kind is Enumeration,
            variant < self.fields@[field as int].kind->quick_set@.len(),
            self.fields@[field as int].kind->quick_set@[variant as int],
        ensures
            r@ == self.with_value(old(view)@, field as int, Value::Variant(variant)),
            *final(view) == *final(r),
    {
        let f = &self.fields[field];
        assert(f.wf(self.width));
        if let FieldKind::Enumeration { discriminants, .. } = &f.kind {
            let d = discriminants[variant];
            view.bits = (view.bits & !f.mask) | ((d << f.start) & f.mask);
        }
        view
    }

    /// Fast test of variant `variant` of an enumeration field: whether the
    /// field's bits are its discriminant, which is whether the field reads as
    /// that variant.
    pub fn quick_get_variant(&self, view: &ReadView, field: usize, variant: usize) -> (r: bool)
        requires
            self.wf(),
            self.readable(field as int),
            self.fields@[field as int].kind is Enumeration,
            variant < self.fields@[field as int].kind->quick_get@.len(),
            self.fields@[field as int].kind->quick_get@[variant as int],
        ensures
            r == (extract(view@, self.fields@[field as int])
                == self.fields@[field as int].kind->discriminants@[variant as int]),
            r == (self.value_of(view@, field as int) == Ok::<Value, DecodeError>(
                Value::Variant(variant),
            )),
    {
        let f = &self.fields[field];
        assert(f.wf(self.width));
        let mut r = false;
        if let FieldKind::Enumeration { discriminants, .. } = &f.kind {
            let b = (view.bits & f.mask) >> f.start;
            r = b == discriminants[variant];
            proof {
                let ds = self.fields@[field as int].kind->discriminants@;
                let v = variant as int;
                lemma_index_from(ds, b, 0);
                if let Some(j) = index_from(ds, b, 0) {
                    if r {
                        if j < v {
                            assert(ds[j] == ds[v]);
                        }
                    } else {
                        assert(discriminants@.len() == discriminants.len());
                        assert(j as usize != variant);
                    }
                }
            }
        }
        r
    }
}

} // verus!
