//! Conversions between the raw bits of a field and the value they stand for.
use vstd::prelude::*;
use crate::layout::{low_bits, mask_of, placement_ok, FieldKind, FieldLayout};
use crate::schema::DecodeError;

verus! {

/// The value of one field.
#[derive(Debug, Clone, Copy, PartialEq, Eq, Structural)]
pub enum Value {
    /// The value of an integer field.
    Integer(u32),
    /// The value of a boolean field.
    Boolean(bool),
    /// The index, in declaration order, of a variant of an enumeration field.
    Variant(usize),
}

/// The bits of field `f` within the register bits `bits`, shifted down.
pub open spec fn extract(bits: u32, f: FieldLayout) -> u32 {
    (bits & f.mask) >> f.start
}

/// The register bits `bits` with the bits of field `f` replaced by `enc`,
/// cut to the field's width.
pub open spec fn insert(bits: u32, f: FieldLayout, enc: u32) -> u32 {
    (bits & !f.mask) | ((enc << f.start) & f.mask)
}

/// `v` is a value of the kind of field `f`.
pub open spec fn fits(f: FieldLayout, v: Value) -> bool {
    match (f.kind, v) {
        (FieldKind::Integer { .. }, Value::Integer(_)) => true,
        (FieldKind::Boolean { .. }, Value::Boolean(_)) => true,
        (FieldKind::Enumeration { discriminants, .. }, Value::Variant(k)) => k
            < discriminants@.len(),
        _ => false,
    }
}

/// The bits that stand for value `v` of field `f`, before shifting.
pub open spec fn encoded(f: FieldLayout, v: Value) -> u32 {
    match v {
        Value::Integer(x) => x,
        Value::Boolean(b) => if b {
            1
        } else {
            0
        },
        Value::Variant(k) => match f.kind {
            FieldKind::Enumeration { discriminants, .. } => discriminants@[k as int],
            _ => 0,
        },
    }
}

/// The first index from `k` on at which `ds` holds `b`.
pub open spec fn index_from(ds: Seq<u32>, b: u32, k: int) -> Option<int>
    decreases ds.len() - k,
{
    if k < 0 || k >= ds.len() {
        None
    } else if ds[k] == b {
        Some(k)
    } else {
        index_from(ds, b, k + 1)
    }
}

/// The value that the shifted field bits `b` stand for in field `f`.
pub open spec fn decoded(f: FieldLayout, b: u32) -> Result<Value, DecodeError> {
    match f.kind {
        FieldKind::Integer { repr_max, flags } => {
            let v = b & repr_max;
            match flags {
                Some(valid) => if v & !valid != 0 {
                    Err(DecodeError::InvalidFlagBits)
                } else {
                    Ok(Value::Integer(v))
                },
                None => Ok(Value::Integer(v)),
            }
        },
        FieldKind::Boolean { .. } => Ok(Value::Boolean(b != 0)),
        FieldKind::Enumeration { discriminants, .. } => match index_from(discriminants@, b, 0) {
            Some(k) => Ok(Value::Variant(k as usize)),
            None => Err(DecodeError::UnknownDiscriminant),
        },
    }
}

/// `index_from` finds `b` at the first index from `k` on that holds it.
pub proof fn lemma_index_from(ds: Seq<u32>, b: u32, k: int)
    requires
        0 <= k <= ds.len(),
    ensures
        match index_from(ds, b, k) {
            Some(j) => k <= j < ds.len() && ds[j] == b && forall|m: int|
                k <= m < j ==> ds[m] != b,
            None => forall|m: int| k <= m < ds.len() ==> ds[m] != b,
        },
    decreases ds.len() - k,
{
    if k < ds.len() && ds[k] != b {
        lemma_index_from(ds, b, k + 1);
    }
}

/// Writing a value that fits in a field, then reading the field, gives the
/// value back.
pub proof fn lemma_extract_insert(bits: u32, start: u32, size: u32, e: u32)
    requires
        placement_ok(start, size, 32),
        e <= low_bits(size),
    ensures
        (((bits & !mask_of(start, size)) | ((e << start) & mask_of(start, size))) & mask_of(
            start,
            size,
        )) >> start == e,
{
    if size >= 32 {
        assert((((bits & !(0xffff_ffffu32 << start)) | ((e << start) & (0xffff_ffffu32 << start)))
            & (0xffff_ffffu32 << start)) >> start == e) by (bit_vector)
            requires
                size >= 32,
                start + size <= 32,
        ;
    } else {
        let m = !(0xffff_ffffu32 << size);
        assert((((bits & !(m << start)) | ((e << start) & (m << start))) & (m << start)) >> start
            == e) by (bit_vector)
            requires
                size < 32,
                start + size <= 32,
                e <= m,
                m == !(0xffff_ffffu32 << size),
        ;
    }
}

/// Writing a field leaves every bit outside its mask as it was.
pub proof fn lemma_insert_outside(bits: u32, mask: u32, start: u32, e: u32)
    ensures
        ((bits & !mask) | ((e << start) & mask)) & !mask == bits & !mask,
{
    assert(((bits & !mask) | ((e << start) & mask)) & !mask == bits & !mask) by (bit_vector);
}

/// Writing a field leaves the bits of a field with a disjoint mask as they
/// were.
pub proof fn lemma_insert_disjoint(bits: u32, m1: u32, s1: u32, e: u32, m2: u32)
    requires
        m1 & m2 == 0,
    ensures
        ((bits & !m1) | ((e << s1) & m1)) & m2 == bits & m2,
{
    assert(((bits & !m1) | ((e << s1) & m1)) & m2 == bits & m2) by (bit_vector)
        requires
            m1 & m2 == 0,
    ;
}

/// The masks of two fields whose bit ranges do not meet share no bit.
pub proof fn lemma_masks_disjoint(s1: u32, z1: u32, s2: u32, z2: u32)
    requires
        placement_ok(s1, z1, 32),
        placement_ok(s2, z2, 32),
        !(s1 < s2 + z2 && s2 < s1 + z1),
    ensures
        mask_of(s1, z1) & mask_of(s2, z2) == 0,
{
    let a = low_bits(z1);
    let b = low_bits(z2);
    assert((a == 0xffff_ffffu32 && z1 >= 32) || (a == !(0xffff_ffffu32 << z1) && z1 < 32));
    assert((b == 0xffff_ffffu32 && z2 >= 32) || (b == !(0xffff_ffffu32 << z2) && z2 < 32));
    if s1 + z1 <= s2 {
        assert((a << s1) & (b << s2) == 0) by (bit_vector)
            requires
                (a == 0xffff_ffffu32 && z1 >= 32) || (a == !(0xffff_ffffu32 << z1) && z1 < 32),
                s1 + z1 <= s2,
                s2 < 32,
                1 <= z1,
        ;
    } else {
        assert((a << s1) & (b << s2) == 0) by (bit_vector)
            requires
                (b == 0xffff_ffffu32 && z2 >= 32) || (b == !(0xffff_ffffu32 << z2) && z2 < 32),
                s2 + z2 <= s1,
                s1 < 32,
                1 <= z2,
        ;
    }
}

impl FieldLayout {
    /// Decodes the shifted bits `b` of this field.
    pub fn decode(&self, b: u32) -> (r: Result<Value, DecodeError>)
        ensures
            r == decoded(*self, b),
            self.kind is Enumeration ==> (r == Err::<Value, DecodeError>(
                DecodeError::UnknownDiscriminant) <==> forall|k: int|
                0 <= k < self.kind->discriminants@.len() ==> self.kind->discriminants@[k] != b),
            self.kind is Enumeration && self.distinct() ==> forall|k: int|
                0 <= k < self.kind->discriminants@.len() ==> (r == Ok::<Value, DecodeError>(
                    Value::Variant(k as usize),
                ) <==> #[trigger] self.kind->discriminants@[k] == b),
    {
        match &self.kind {
            FieldKind::Integer { repr_max, flags } => {
                let v = b & *repr_max;
                match flags {
                    Some(valid) => if v & !*valid != 0 {
                        Err(DecodeError::InvalidFlagBits)
                    } else {
                        Ok(Value::Integer(v))
                    },
                    None => Ok(Value::Integer(v)),
                }
            },
            FieldKind::Boolean { .. } => Ok(Value::Boolean(b != 0)),
            FieldKind::Enumeration { discriminants, .. } => {
                proof {
                    lemma_index_from(discriminants@, b, 0);
                }
                let mut k: usize = 0;
                while k < discriminants.len()
                    invariant
                        k <= discriminants@.len(),
                        self.kind is Enumeration,
                        self.kind->discriminants == *discriminants,
                        forall|m: int| 0 <= m < k ==> discriminants@[m] != b,
                        index_from(discriminants@, b, 0) == index_from(discriminants@, b, k as int),
                    decreases discriminants@.len() - k,
                {
                    if discriminants[k] == b {
                        proof {
                            let ds = discriminants@;
                            assert(ds.len() == discriminants.len());
                            assert forall|m: int| 0 <= m < ds.len() && self.distinct() implies (Ok::<Value, DecodeError>(
                                Value::Variant(k),
                            ) == Ok::<Value, DecodeError>(Value::Variant(m as usize))
                                <==> #[trigger] ds[m] == b) by {
                                if ds[m] == b && m != k {
                                    if m < k {
                                        assert(ds[m] != ds[k as int]);
                                    } else {
                                        assert(ds[k as int] != ds[m]);
                                    }
                                }
                            }
                        }
                        return Ok(Value::Variant(k));
                    }
                    k = k + 1;
                }
                Err(DecodeError::UnknownDiscriminant)
            },
        }
    }

    /// The bits that stand for `v`, before shifting.
    pub fn encode(&self, v: Value) -> (r: u32)
        requires
            fits(*self, v),
        ensures
            r == encoded(*self, v),
    {
        match v {
            Value::Integer(x) => x,
            Value::Boolean(b) => if b {
                1
            } else {
                0
            },
            Value::Variant(k) => match &self.kind {
                FieldKind::Enumeration { discriminants, .. } => discriminants[k],
                _ => 0,
            },
        }
    }
}

} // verus!
