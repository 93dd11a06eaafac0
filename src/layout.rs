//! Bit masks of fields, and the algebra of masking and shifting.
use vstd::prelude::*;
use crate::schema::{Access, Field, Format, Register, SchemaError, Variant};

verus! {

/// The `size` lowest bits set.
pub open spec fn low_bits(size: u32) -> u32 {
    if size >= 32 {
        0xffff_ffffu32
    } else {
        !(0xffff_ffffu32 << size)
    }
}

/// The mask of a field of `size` bits starting at bit `start`.
pub open spec fn mask_of(start: u32, size: u32) -> u32 {
    low_bits(size) << start
}

/// Whether bit `i` of `x` is set.
pub open spec fn bit_set(x: u32, i: u32) -> bool {
    (x >> i) & 1u32 == 1u32
}

/// A field's placement is legal in a register of `width` bits.
pub open spec fn placement_ok(start: u32, size: u32, width: u32) -> bool {
    1 <= size && start + size <= width && width <= 32
}

/// The mask of a legally placed field has exactly the bits
/// `start .. start + size` set.
pub proof fn lemma_mask_bits(start: u32, size: u32, i: u32)
    requires
        1 <= size,
        start + size <= 32,
        i < 32,
    ensures
        bit_set(mask_of(start, size), i) <==> (start <= i && i < start + size),
{
    if size >= 32 {
        assert(bit_set(0xffff_ffffu32 << start, i) <==> (start <= i && i < start + size))
            by (bit_vector)
            requires
                size >= 32,
                start + size <= 32,
                i < 32,
        ;
    } else {
        assert(bit_set(!(0xffff_ffffu32 << size) << start, i) <==> (start <= i && i < start
            + size)) by (bit_vector)
            requires
                size < 32,
                start + size <= 32,
                i < 32,
        ;
    }
}

/// Computes the mask of a field of `size` bits starting at bit `start`.
pub fn compute_mask(start: u32, size: u32) -> (r: u32)
    requires
        1 <= size,
        start + size <= 32,
    ensures
        r == mask_of(start, size),
        forall|i: u32| i < 32 ==> (#[trigger] bit_set(r, i) <==> (start <= i && i < start + size)),
{
    let low: u32 = if size >= 32 {
        0xffff_ffffu32
    } else {
        !(0xffff_ffffu32 << size)
    };
    let r = low << start;
    proof {
        assert forall|i: u32| i < 32 implies (#[trigger] bit_set(r, i) <==> (start <= i && i < start
            + size)) by {
            lemma_mask_bits(start, size, i);
        }
    }
    r
}

} // verus!

verus! {

/// The largest value of a field of `size` bits.
pub fn field_max(size: u32) -> (r: u32)
    ensures
        r == low_bits(size),
{
    if size >= 32 {
        0xffff_ffffu32
    } else {
        !(0xffff_ffffu32 << size)
    }
}

/// The discriminant of variant `k`: the value it declares, or else one more
/// than the discriminant of the variant before it, and zero for the first.
pub open spec fn discriminant(variants: Seq<Variant>, k: int) -> int
    decreases k,
{
    if k < 0 || k >= variants.len() {
        0
    } else {
        match variants[k].value {
            Some(v) => v as int,
            None => if k == 0 {
                0
            } else {
                discriminant(variants, k - 1) + 1
            },
        }
    }
}

/// The field lies within a register of `width` bits and is not empty.
pub open spec fn field_placed(f: Field, width: u32) -> bool {
    placement_ok(f.start, f.size, width)
}

/// An enumeration field has at least one variant.
pub open spec fn field_enum_nonempty(f: Field) -> bool {
    match f.format {
        Format::Enumeration { variants, .. } => variants@.len() > 0,
        _ => true,
    }
}

/// Every discriminant of an enumeration field fits in the field's bits.
pub open spec fn field_discriminants_fit(f: Field) -> bool {
    match f.format {
        Format::Enumeration { variants, .. } => forall|k: int|
            0 <= k < variants@.len() ==> #[trigger] discriminant(variants@, k) <= low_bits(
                f.size,
            ) as int,
        _ => true,
    }
}

/// No two variants of an enumeration field have the same discriminant.
pub open spec fn field_discriminants_distinct(f: Field) -> bool {
    match f.format {
        Format::Enumeration { variants, .. } => forall|j: int, k: int|
            0 <= j < k < variants@.len() ==> #[trigger] discriminant(variants@, j)
                != #[trigger] discriminant(variants@, k),
        _ => true,
    }
}

/// Two bit ranges `[start, start + size)` intersect.
pub open spec fn ranges_overlap(s1: u32, z1: u32, s2: u32, z2: u32) -> bool {
    s1 < s2 + z2 && s2 < s1 + z1
}

/// What is wrong with a register description, if anything. Checks run in
/// this order, and the first that fails decides the error.
pub open spec fn schema_error(reg: Register) -> Option<SchemaError> {
    let fs = reg.fields@;
    let width = reg.repr.spec_width();
    if fs.len() == 0 {
        Some(SchemaError::EmptyFieldList)
    } else if exists|i: int| 0 <= i < fs.len() && !field_placed(#[trigger] fs[i], width) {
        Some(SchemaError::FieldOutOfRange)
    } else if exists|i: int| 0 <= i < fs.len() && !field_enum_nonempty(#[trigger] fs[i]) {
        Some(SchemaError::EmptyEnumeration)
    } else if exists|i: int| 0 <= i < fs.len() && !field_discriminants_fit(#[trigger] fs[i]) {
        Some(SchemaError::FieldOutOfRange)
    } else if exists|i: int|
        0 <= i < fs.len() && !field_discriminants_distinct(#[trigger] fs[i]) {
        Some(SchemaError::DuplicateDiscriminant)
    } else if exists|i: int, j: int|
        0 <= i < j < fs.len() && ranges_overlap(
            #[trigger] fs[i].start,
            fs[i].size,
            #[trigger] fs[j].start,
            fs[j].size,
        ) {
        Some(SchemaError::OverlappingFields)
    } else if reg.reset_value > reg.repr.spec_max() {
        Some(SchemaError::ResetValueOutOfRange)
    } else {
        None
    }
}

/// What a field's accessors need to know of its format.
#[derive(Debug, Clone)]
pub enum FieldKind {
    /// Read as an integer masked by `repr_max`; a flag set where `flags` is
    /// given.
    Integer { repr_max: u32, flags: Option<u32> },
    /// Whether each fast setter is declared.
    Boolean { quick_set_true: bool, quick_set_false: bool },
    /// The discriminant of each variant, and whether each of its fast test
    /// and fast setter is declared.
    Enumeration { discriminants: Vec<u32>, quick_get: Vec<bool>, quick_set: Vec<bool> },
}

/// A checked field: its placement, mask and kind.
#[derive(Debug, Clone)]
pub struct FieldLayout {
    pub access: Access,
    pub start: u32,
    pub size: u32,
    pub mask: u32,
    pub kind: FieldKind,
}

/// A checked register: the accessors of each of its fields.
#[derive(Debug, Clone)]
pub struct RegisterLayout {
    pub width: u32,
    pub reset_value: u32,
    pub fields: Vec<FieldLayout>,
}

impl FieldLayout {
    /// The field is well formed within a register of `width` bits.
    pub open spec fn wf(self, width: u32) -> bool {
        self.shaped(width) && self.distinct()
    }

    /// No two variants of an enumeration field share a discriminant.
    pub open spec fn distinct(self) -> bool {
        match self.kind {
            FieldKind::Enumeration { discriminants, .. } => forall|j: int, k: int|
                0 <= j < k < discriminants@.len() ==> #[trigger] discriminants@[j]
                    != #[trigger] discriminants@[k],
            _ => true,
        }
    }

    /// The field is placed within a register of `width` bits, its mask is
    /// that of its placement, and its discriminants fit in it.
    pub open spec fn shaped(self, width: u32) -> bool {
        &&& placement_ok(self.start, self.size, width)
        &&& self.mask == mask_of(self.start, self.size)
        &&& match self.kind {
            FieldKind::Integer { repr_max, .. } => repr_max == 0xff || repr_max == 0xffff
                || repr_max == 0xffff_ffff,
            FieldKind::Enumeration { discriminants, quick_get, quick_set } => {
                &&& discriminants@.len() > 0
                &&& quick_get@.len() == discriminants@.len()
                &&& quick_set@.len() == discriminants@.len()
                &&& forall|k: int|
                    0 <= k < discriminants@.len() ==> #[trigger] discriminants@[k] <= low_bits(
                        self.size,
                    )
            },
            _ => true,
        }
    }

    /// The field was made from the description `f`.
    pub open spec fn describes(self, f: Field) -> bool {
        &&& self.access == f.access
        &&& self.start == f.start
        &&& self.size == f.size
        &&& match (self.kind, f.format) {
            (FieldKind::Integer { repr_max, flags }, Format::Integer { repr, flags: fl }) => {
                repr_max == repr.spec_max() && flags == fl
            },
            (
                FieldKind::Boolean { quick_set_true, quick_set_false },
                Format::Boolean { quick_set_true: t, quick_set_false: f },
            ) => quick_set_true == t is Some && quick_set_false == f is Some,
            (
                FieldKind::Enumeration { discriminants, quick_get, quick_set },
                Format::Enumeration { variants, .. },
            ) => {
                &&& discriminants@.len() == variants@.len()
                &&& forall|k: int|
                    0 <= k < variants@.len() ==> #[trigger] discriminants@[k] as int
                        == discriminant(variants@, k)
                &&& forall|k: int|
                    0 <= k < variants@.len() ==> #[trigger] quick_get@[k]
                        == variants@[k].quick_get is Some
                &&& forall|k: int|
                    0 <= k < variants@.len() ==> #[trigger] quick_set@[k]
                        == variants@[k].quick_set is Some
            },
            _ => false,
        }
    }
}

impl RegisterLayout {
    /// Every field is well formed and no two fields share a bit.
    pub open spec fn wf(self) -> bool {
        let fs = self.fields@;
        &&& self.width == 8 || self.width == 16 || self.width == 32
        &&& self.reset_value <= low_bits(self.width)
        &&& fs.len() > 0
        &&& forall|i: int| 0 <= i < fs.len() ==> (#[trigger] fs[i]).wf(self.width)
        &&& forall|i: int, j: int|
            0 <= i < fs.len() && 0 <= j < fs.len() && i != j ==> !ranges_overlap(
                #[trigger] fs[i].start,
                fs[i].size,
                #[trigger] fs[j].start,
                fs[j].size,
            )
    }

    /// The layout was made from the description `reg`.
    pub open spec fn describes(self, reg: Register) -> bool {
        &&& self.width == reg.repr.spec_width()
        &&& self.reset_value == reg.reset_value
        &&& self.fields@.len() == reg.fields@.len()
        &&& forall|i: int|
            0 <= i < reg.fields@.len() ==> (#[trigger] self.fields@[i]).describes(reg.fields@[i])
    }
}

} // verus!

verus! {

/// The checked form of one field that is placed within the register and is
/// not an empty enumeration. Fails where a discriminant does not fit.
fn field_layout(f: &Field, width: u32) -> (r: Result<FieldLayout, SchemaError>)
    requires
        field_placed(*f, width),
        field_enum_nonempty(*f),
    ensures
        match r {
            Ok(l) => field_discriminants_fit(*f) && l.shaped(width) && l.describes(*f),
            Err(e) => e == SchemaError::FieldOutOfRange && !field_discriminants_fit(*f),
        },
{
    let mask = compute_mask(f.start, f.size);
    let kind = match &f.format {
        Format::Integer { repr, flags } => FieldKind::Integer { repr_max: repr.max(), flags: *flags },
        Format::Boolean { quick_set_true, quick_set_false } => FieldKind::Boolean {
            quick_set_true: quick_set_true.is_some(),
            quick_set_false: quick_set_false.is_some(),
        },
        Format::Enumeration { variants, .. } => {
            let max = field_max(f.size);
            let mut discriminants: Vec<u32> = Vec::new();
            let mut quick_get: Vec<bool> = Vec::new();
            let mut quick_set: Vec<bool> = Vec::new();
            let mut prev: u64 = 0;
            let mut k: usize = 0;
            while k < variants.len()
                invariant
                    k <= variants@.len(),
                    discriminants@.len() == k,
                    quick_get@.len() == k,
                    quick_set@.len() == k,
                    k > 0 ==> prev as int == discriminant(variants@, k - 1),
                    prev <= max as u64,
                    forall|j: int|
                        0 <= j < k ==> #[trigger] discriminants@[j] as int == discriminant(
                            variants@,
                            j,
                        ),
                    forall|j: int| 0 <= j < k ==> #[trigger] discriminants@[j] <= max,
                    forall|j: int|
                        0 <= j < k ==> #[trigger] quick_get@[j] == variants@[j].quick_get is Some,
                    forall|j: int|
                        0 <= j < k ==> #[trigger] quick_set@[j] == variants@[j].quick_set is Some,
                    max == low_bits(f.size),
                    f.format is Enumeration,
                    f.format->variants == *variants,
                decreases variants@.len() - k,
            {
                let v = &variants[k];
                let d: u64 = match v.value {
                    Some(x) => x as u64,
                    None => if k == 0 {
                        0
                    } else {
                        prev + 1
                    },
                };
                assert(d as int == discriminant(variants@, k as int));
                if d > max as u64 {
                    assert(!(discriminant(variants@, k as int) <= low_bits(f.size) as int));
                    return Err(SchemaError::FieldOutOfRange);
                }
                discriminants.push(d as u32);
                quick_get.push(v.quick_get.is_some());
                quick_set.push(v.quick_set.is_some());
                prev = d;
                k = k + 1;
            }
            assert forall|j: int| 0 <= j < variants@.len() implies #[trigger] discriminant(
                variants@,
                j,
            ) <= low_bits(f.size) as int by {
                assert(discriminants@[j] <= max);
            }
            FieldKind::Enumeration { discriminants, quick_get, quick_set }
        },
    };
    Ok(FieldLayout { access: f.access, start: f.start, size: f.size, mask, kind })
}

/// Whether no two variants of the field share a discriminant.
fn discriminants_distinct(l: &FieldLayout, Ghost(f): Ghost<Field>) -> (r: bool)
    requires
        l.describes(f),
    ensures
        r == l.distinct(),
        r == field_discriminants_distinct(f),
{
    match &l.kind {
        FieldKind::Enumeration { discriminants, .. } => {
            let n = discriminants.len();
            let mut k: usize = 0;
            while k < n
                invariant
                    n == discriminants@.len(),
                    k <= n,
                    l.describes(f),
                    l.kind is Enumeration,
                    l.kind->discriminants == *discriminants,
                    forall|a: int, b: int|
                        0 <= a < b < k ==> #[trigger] discriminants@[a]
                            != #[trigger] discriminants@[b],
                decreases n - k,
            {
                let mut j: usize = 0;
                while j < k
                    invariant
                        n == discriminants@.len(),
                        j <= k < n,
                        l.describes(f),
                        l.kind is Enumeration,
                        l.kind->discriminants == *discriminants,
                        forall|a: int, b: int|
                            0 <= a < b < k ==> #[trigger] discriminants@[a]
                                != #[trigger] discriminants@[b],
                        forall|a: int| 0 <= a < j ==> #[trigger] discriminants@[a] != discriminants@[k as int],
                    decreases k - j,
                {
                    if discriminants[j] == discriminants[k] {
                        proof {
                            let vs = f.format->variants@;
                            assert(discriminants@[j as int] as int == discriminant(vs, j as int));
                            assert(discriminants@[k as int] as int == discriminant(vs, k as int));
                        }
                        return false;
                    }
                    j = j + 1;
                }
                k = k + 1;
            }
            proof {
                let vs = f.format->variants@;
                assert forall|a: int, b: int| 0 <= a < b < vs.len() implies #[trigger] discriminant(vs, a)
                    != #[trigger] discriminant(vs, b) by {
                    assert(discriminants@[a] as int == discriminant(vs, a));
                    assert(discriminants@[b] as int == discriminant(vs, b));
                }
            }
            true
        },
        _ => true,
    }
}

/// Checks a register description and computes the accessors of its fields.
pub fn generate_register(register: &Register) -> (r: Result<RegisterLayout, SchemaError>)
    ensures
        match r {
            Ok(l) => schema_error(*register) is None && l.wf() && l.describes(*register),
            Err(e) => schema_error(*register) == Some(e),
        },
        register.fields@.len() == 0 ==> r == Err::<RegisterLayout, SchemaError>(
            SchemaError::EmptyFieldList,
        ),
        (forall|i: int|
            0 <= i < register.fields@.len() ==> {
                let f = #[trigger] register.fields@[i];
                &&& field_placed(f, register.repr.spec_width())
                &&& field_enum_nonempty(f)
                &&& field_discriminants_fit(f)
                &&& field_discriminants_distinct(f)
            }) && (exists|i: int, j: int|
            0 <= i < j < register.fields@.len() && ranges_overlap(
                #[trigger] register.fields@[i].start,
                register.fields@[i].size,
                #[trigger] register.fields@[j].start,
                register.fields@[j].size,
            )) ==> r == Err::<RegisterLayout, SchemaError>(SchemaError::OverlappingFields),
        (exists|i: int, j: int|
            0 <= i < j < register.fields@.len() && ranges_overlap(
                #[trigger] register.fields@[i].start,
                register.fields@[i].size,
                #[trigger] register.fields@[j].start,
                register.fields@[j].size,
            )) ==> r is Err,
        (exists|i: int|
            0 <= i < register.fields@.len() && !field_discriminants_distinct(
                #[trigger] register.fields@[i],
            )) ==> r is Err,
{
    let fields = &register.fields;
    let n = fields.len();
    if n == 0 {
        return Err(SchemaError::EmptyFieldList);
    }
    let width = register.repr.width();
    let mut i: usize = 0;
    while i < n
        invariant
            n == fields@.len(),
            width == register.repr.spec_width(),
            fields == register.fields,
            i <= n,
            forall|j: int| 0 <= j < i ==> field_placed(#[trigger] fields@[j], width),
        decreases n - i,
    {
        let f = &fields[i];
        if !(1 <= f.size && f.size <= width && f.start <= width - f.size) {
            assert(!field_placed(fields@[i as int], width));
            return Err(SchemaError::FieldOutOfRange);
        }
        i = i + 1;
    }
    i = 0;
    while i < n
        invariant
            n == fields@.len(),
            fields == register.fields,
            width == register.repr.spec_width(),
            i <= n,
            forall|j: int| 0 <= j < n ==> field_placed(#[trigger] fields@[j], width),
            forall|j: int| 0 <= j < i ==> field_enum_nonempty(#[trigger] fields@[j]),
        decreases n - i,
    {
        if let Format::Enumeration { variants, .. } = &fields[i].format {
            if variants.len() == 0 {
                assert(!field_enum_nonempty(fields@[i as int]));
                return Err(SchemaError::EmptyEnumeration);
            }
        }
        i = i + 1;
    }
    let mut layouts: Vec<FieldLayout> = Vec::new();
    i = 0;
    while i < n
        invariant
            n == fields@.len(),
            width == register.repr.spec_width(),
            fields == register.fields,
            i <= n,
            layouts@.len() == i,
            forall|j: int| 0 <= j < n ==> field_placed(#[trigger] fields@[j], width),
            forall|j: int| 0 <= j < n ==> field_enum_nonempty(#[trigger] fields@[j]),
            forall|j: int| 0 <= j < i ==> field_discriminants_fit(#[trigger] fields@[j]),
            forall|j: int| 0 <= j < i ==> (#[trigger] layouts@[j]).shaped(width),
            forall|j: int| 0 <= j < i ==> (#[trigger] layouts@[j]).describes(fields@[j]),
        decreases n - i,
    {
        match field_layout(&fields[i], width) {
            Ok(l) => layouts.push(l),
            Err(e) => {
                return Err(e);
            },
        }
        i = i + 1;
    }
    i = 0;
    while i < n
        invariant
            n == fields@.len(),
            n == layouts@.len(),
            width == register.repr.spec_width(),
            fields == register.fields,
            i <= n,
            forall|j: int| 0 <= j < n ==> field_placed(#[trigger] fields@[j], width),
            forall|j: int| 0 <= j < n ==> field_enum_nonempty(#[trigger] fields@[j]),
            forall|j: int| 0 <= j < n ==> field_discriminants_fit(#[trigger] fields@[j]),
            forall|j: int| 0 <= j < i ==> field_discriminants_distinct(#[trigger] fields@[j]),
            forall|j: int| 0 <= j < n ==> (#[trigger] layouts@[j]).shaped(width),
            forall|j: int| 0 <= j < i ==> (#[trigger] layouts@[j]).distinct(),
            forall|j: int| 0 <= j < n ==> (#[trigger] layouts@[j]).describes(fields@[j]),
        decreases n - i,
    {
        if !discriminants_distinct(&layouts[i], Ghost(fields@[i as int])) {
            return Err(SchemaError::DuplicateDiscriminant);
        }
        i = i + 1;
    }
    i = 0;
    while i < n
        invariant
            n == fields@.len(),
            n == layouts@.len(),
            width == register.repr.spec_width(),
            fields == register.fields,
            i <= n,
            forall|j: int| 0 <= j < n ==> field_placed(#[trigger] fields@[j], width),
            forall|j: int| 0 <= j < n ==> field_enum_nonempty(#[trigger] fields@[j]),
            forall|j: int| 0 <= j < n ==> field_discriminants_fit(#[trigger] fields@[j]),
            forall|j: int| 0 <= j < n ==> field_discriminants_distinct(#[trigger] fields@[j]),
            forall|j: int| 0 <= j < n ==> (#[trigger] layouts@[j]).wf(width),
            forall|j: int| 0 <= j < n ==> (#[trigger] layouts@[j]).describes(fields@[j]),
            forall|a: int, b: int|
                0 <= a < i && a < b < n ==> !ranges_overlap(
                    #[trigger] fields@[a].start,
                    fields@[a].size,
                    #[trigger] fields@[b].start,
                    fields@[b].size,
                ),
        decreases n - i,
    {
        let mut j: usize = i + 1;
        while j < n
            invariant
                n == fields@.len(),
                n == layouts@.len(),
                width == register.repr.spec_width(),
                fields == register.fields,
                i < n,
                forall|k: int| 0 <= k < n ==> field_placed(#[trigger] fields@[k], width),
                forall|k: int| 0 <= k < n ==> field_enum_nonempty(#[trigger] fields@[k]),
                forall|k: int| 0 <= k < n ==> field_discriminants_fit(#[trigger] fields@[k]),
                forall|k: int| 0 <= k < n ==> field_discriminants_distinct(#[trigger] fields@[k]),
                i + 1 <= j <= n,
                forall|k: int| 0 <= k < n ==> (#[trigger] layouts@[k]).wf(width),
                forall|k: int| 0 <= k < n ==> (#[trigger] layouts@[k]).describes(fields@[k]),
                forall|b: int|
                    i < b < j ==> !ranges_overlap(
                        fields@[i as int].start,
                        fields@[i as int].size,
                        #[trigger] fields@[b].start,
                        fields@[b].size,
                    ),
            decreases n - j,
        {
            let a = &layouts[i];
            let b = &layouts[j];
            assert(a.wf(width) && b.wf(width));
            if a.start < b.start + b.size && b.start < a.start + a.size {
                assert(ranges_overlap(
                    fields@[i as int].start,
                    fields@[i as int].size,
                    fields@[j as int].start,
                    fields@[j as int].size,
                ));
                return Err(SchemaError::OverlappingFields);
            }
            j = j + 1;
        }
        i = i + 1;
    }
    if register.reset_value > register.repr.max() {
        return Err(SchemaError::ResetValueOutOfRange);
    }
    let l = RegisterLayout { width, reset_value: register.reset_value, fields: layouts };
    proof {
        assert(low_bits(8) == 0xff && low_bits(16) == 0xffff && low_bits(32) == 0xffff_ffff)
            by (bit_vector);
    }
    assert(forall|a: int, b: int|
        0 <= a < n && 0 <= b < n && a != b ==> !ranges_overlap(
            #[trigger] l.fields@[a].start,
            l.fields@[a].size,
            #[trigger] l.fields@[b].start,
            l.fields@[b].size,
        )) by {
        assert forall|a: int, b: int|
            0 <= a < n && 0 <= b < n && a != b implies !ranges_overlap(
                #[trigger] l.fields@[a].start,
                l.fields@[a].size,
                #[trigger] l.fields@[b].start,
                l.fields@[b].size,
            ) by {
            assert(l.fields@[a].describes(fields@[a]));
            assert(l.fields@[b].describes(fields@[b]));
            if a < b {
                assert(!ranges_overlap(
                    fields@[a].start,
                    fields@[a].size,
                    fields@[b].start,
                    fields@[b].size,
                ));
            } else {
                assert(!ranges_overlap(
                    fields@[b].start,
                    fields@[b].size,
                    fields@[a].start,
                    fields@[a].size,
                ));
            }
        }
    }
    Ok(l)
}

} // verus!
