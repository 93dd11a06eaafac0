//! Registers backed by a volatile cell: every read is one load and every
//! write one store, so the hardware may change the value between two reads.
use vstd::prelude::*;
use vcell::VolatileCell;
use crate::layout::{low_bits, RegisterLayout};
use crate::schema::Repr;
use crate::view::{ReadView, WriteView};

verus! {

/// The volatile cell of the `vcell` crate.
#[verifier::external_type_specification]
#[verifier::external_body]
#[verifier::reject_recursive_types(T)]
pub struct ExVolatileCell<T>(VolatileCell<T>);

/// Relies on `vcell::VolatileCell::new`: makes a cell that holds `value`.
pub assume_specification<T>[ VolatileCell::<T>::new ](value: T) -> VolatileCell<T>;

/// Relies on `vcell::VolatileCell::get`: one volatile load. The value may
/// have been changed by the hardware, so nothing is promised of it.
pub assume_specification<T>[ VolatileCell::<T>::get ](cell: &VolatileCell<T>) -> T
    where
        T: Copy,
;

/// The bits last stored in a cell of bytes.
pub uninterp spec fn stored_u8(cell: VolatileCell<u8>) -> u8;

/// The bits last stored in a cell of half-words.
pub uninterp spec fn stored_u16(cell: VolatileCell<u16>) -> u16;

/// The bits last stored in a cell of words.
pub uninterp spec fn stored_u32(cell: VolatileCell<u32>) -> u32;

/// Relies on `vcell::VolatileCell::set`: one volatile store of `value`.
/// Taking the cell by `&mut` tells Verus that the cell changes.
#[verifier::external_body]
fn store<T: Copy>(cell: &mut VolatileCell<T>, value: T) {
    cell.set(value)
}

/// Relies on `vcell::VolatileCell::new`, which makes a cell holding `value`.
#[verifier::external_body]
pub(crate) fn new_u8(value: u8) -> (r: VolatileCell<u8>)
    ensures
        stored_u8(r) == value,
{
    VolatileCell::new(value)
}

/// Relies on `vcell::VolatileCell::new`, which makes a cell holding `value`.
#[verifier::external_body]
pub(crate) fn new_u16(value: u16) -> (r: VolatileCell<u16>)
    ensures
        stored_u16(r) == value,
{
    VolatileCell::new(value)
}

/// Relies on `vcell::VolatileCell::new`, which makes a cell holding `value`.
#[verifier::external_body]
pub(crate) fn new_u32(value: u32) -> (r: VolatileCell<u32>)
    ensures
        stored_u32(r) == value,
{
    VolatileCell::new(value)
}

/// Relies on `vcell::VolatileCell::set`, which writes `value` into the cell.
#[verifier::external_body]
pub(crate) fn store_u8(cell: &mut VolatileCell<u8>, value: u8)
    ensures
        stored_u8(*final(cell)) == value,
{
    cell.set(value)
}

/// Relies on `vcell::VolatileCell::set`, which writes `value` into the cell.
#[verifier::external_body]
pub(crate) fn store_u16(cell: &mut VolatileCell<u16>, value: u16)
    ensures
        stored_u16(*final(cell)) == value,
{
    cell.set(value)
}

/// Relies on `vcell::VolatileCell::set`, which writes `value` into the cell.
#[verifier::external_body]
pub(crate) fn store_u32(cell: &mut VolatileCell<u32>, value: u32)
    ensures
        stored_u32(*final(cell)) == value,
{
    cell.set(value)
}

/// A register that may only be read.
#[verifier::reject_recursive_types(T)]
pub struct ReadOnly<T: Copy> {
    value: VolatileCell<T>,
}

impl<T: Copy> ReadOnly<T> {
    /// A register held in memory, starting at `value`.
    pub fn new(value: T) -> Self {
        ReadOnly { value: VolatileCell::new(value) }
    }

    pub fn read(&self) -> T {
        self.value.get()
    }
}

/// A register that may only be written.
#[verifier::reject_recursive_types(T)]
pub struct WriteOnly<T: Copy> {
    value: VolatileCell<T>,
}

impl<T: Copy> WriteOnly<T> {
    /// A register held in memory, starting at `value`.
    pub fn new(value: T) -> Self {
        WriteOnly { value: VolatileCell::new(value) }
    }

    pub fn write(&mut self, t: T) {
        store(&mut self.value, t)
    }
}

/// A register that may be read and written.
#[verifier::reject_recursive_types(T)]
pub struct ReadWrite<T: Copy> {
    value: VolatileCell<T>,
}

impl<T: Copy> ReadWrite<T> {
    /// A register held in memory, starting at `value`.
    pub fn new(value: T) -> Self {
        ReadWrite { value: VolatileCell::new(value) }
    }

    pub fn write(&mut self, t: T) {
        store(&mut self.value, t)
    }

    pub fn read(&self) -> T {
        self.value.get()
    }
}

/// A volatile cell of a register's own width.
enum WordCell {
    U8(VolatileCell<u8>),
    U16(VolatileCell<u16>),
    U32(VolatileCell<u32>),
}

/// A register whose fields are described by a [`RegisterLayout`], held in a
/// cell of the register's width, so that a read is one load and a write one
/// store of that width.
pub struct RegisterCell {
    cell: WordCell,
}

impl RegisterCell {
    /// The number of bits of the register.
    pub closed spec fn width(&self) -> u32 {
        match self.cell {
            WordCell::U8(_) => 8,
            WordCell::U16(_) => 16,
            WordCell::U32(_) => 32,
        }
    }

    /// The bits last stored in the register.
    pub closed spec fn stored(&self) -> u32 {
        match self.cell {
            WordCell::U8(c) => stored_u8(c) as u32,
            WordCell::U16(c) => stored_u16(c) as u32,
            WordCell::U32(c) => stored_u32(c),
        }
    }

    /// A register of type `repr` held in memory, starting at `bits`.
    pub fn new(repr: Repr, bits: u32) -> (r: RegisterCell)
        requires
            bits <= repr.spec_max(),
        ensures
            r.width() == repr.spec_width(),
            r.stored() == bits,
    {
        let cell = match repr {
            Repr::U8 => WordCell::U8(new_u8(bits as u8)),
            Repr::U16 => WordCell::U16(new_u16(bits as u16)),
            Repr::U32 => WordCell::U32(new_u32(bits)),
        };
        RegisterCell { cell }
    }

    /// The bits loaded from the cell.
    fn load(&self) -> (r: u32)
        ensures
            r <= low_bits(self.width()),
    {
        proof {
            assert(low_bits(8) == 0xff && low_bits(16) == 0xffff && low_bits(32) == 0xffff_ffff)
                by (bit_vector);
        }
        match &self.cell {
            WordCell::U8(c) => c.get() as u32,
            WordCell::U16(c) => c.get() as u32,
            WordCell::U32(c) => c.get(),
        }
    }

    /// Stores the low bits of `bits` that fit in the register.
    fn store(&mut self, bits: u32)
        ensures
            final(self).width() == old(self).width(),
            final(self).stored() == bits & low_bits(old(self).width()),
    {
        proof {
            assert(low_bits(8) == 0xff && low_bits(16) == 0xffff && low_bits(32) == 0xffff_ffff)
                by (bit_vector);
            assert((bits & 0xff) as u8 as u32 == bits & 0xff && (bits & 0xffff) as u16 as u32
                == bits & 0xffff && bits & 0xffff_ffff == bits) by (bit_vector);
        }
        match &mut self.cell {
            WordCell::U8(c) => store_u8(c, (bits & 0xff) as u8),
            WordCell::U16(c) => store_u16(c, (bits & 0xffff) as u16),
            WordCell::U32(c) => store_u32(c, bits),
        }
    }

    /// Takes a snapshot of the register's bits.
    pub fn read(&self, layout: &RegisterLayout) -> (r: ReadView)
        requires
            layout.spec_has_read_view(),
            layout.width == self.width(),
        ensures
            r@ <= low_bits(self.width()),
    {
        ReadView::from_bits(self.load())
    }

    /// Stores the bits of `view` in one write.
    pub fn write(&mut self, layout: &RegisterLayout, view: &WriteView)
        requires
            layout.spec_has_write_view(),
            layout.width == old(self).width(),
            view@ <= low_bits(old(self).width()),
        ensures
            final(self).width() == old(self).width(),
            final(self).stored() == view@,
    {
        self.store_view(view);
    }

    /// Reads the register into a write view, hands it to `f`, and stores what
    /// `f` returns, cut to the register's width: the loaded bits go through
    /// [`RegisterLayout::apply_update`]. Returns what was stored.
    pub fn update<F: FnOnce(WriteView) -> WriteView>(&mut self, layout: &RegisterLayout, f: F) -> (r:
        WriteView)
        requires
            layout.spec_has_write_view(),
            layout.width == old(self).width(),
            forall|w: WriteView| f.requires((w,)),
        ensures
            exists|current: u32|
                current <= low_bits(layout.width) && layout.update_result(current, f, r),
            final(self).width() == old(self).width(),
            final(self).stored() == r@,
    {
        let current = self.load();
        let next = layout.apply_update(current, f);
        self.store_view(&next);
        next
    }

    /// Like `update`, but `f` also gets a read view of the bits before the
    /// update: the loaded bits go through [`RegisterLayout::apply_modify`].
    pub fn modify<F: FnOnce(ReadView, WriteView) -> WriteView>(
        &mut self,
        layout: &RegisterLayout,
        f: F,
    ) -> (r: WriteView)
        requires
            layout.spec_has_read_view(),
            layout.spec_has_write_view(),
            layout.width == old(self).width(),
            forall|rv: ReadView, wv: WriteView| rv@ == wv@ ==> f.requires((rv, wv)),
        ensures
            exists|current: u32|
                current <= low_bits(layout.width) && layout.modify_result(current, f, r),
            final(self).width() == old(self).width(),
            final(self).stored() == r@,
    {
        let current = self.load();
        let next = layout.apply_modify(current, f);
        self.store_view(&next);
        next
    }

    /// Stores a view whose bits fit the register.
    fn store_view(&mut self, view: &WriteView)
        requires
            view@ <= low_bits(old(self).width()),
        ensures
            final(self).width() == old(self).width(),
            final(self).stored() == view@,
    {
        let bits = view.bits();
        proof {
            let m = low_bits(old(self).width());
            assert(low_bits(8) == 0xff && low_bits(16) == 0xffff && low_bits(32) == 0xffff_ffff)
                by (bit_vector);
            assert(bits <= m && (m == 0xff || m == 0xffff || m == 0xffff_ffff) ==> bits & m == bits)
                by (bit_vector);
        }
        self.store(bits);
    }
}

} // verus!
