//! The bitfield access primitive every peripheral driver is built on.
//!
//! A `RegField` names a memory-mapped register word together with a bit
//! offset and a bit width, and an access capability that decides which
//! operations the field exposes.  The functions here compute the register
//! words themselves — what a read extracts and what a write must store —
//! and are fully verified; the volatile (or atomic) transfer of those words
//! to and from the device is the runtime shell's only job.

use vstd::prelude::*;

use vstd::arithmetic::div_mod::lemma_small_mod;
use vstd::arithmetic::power2::{lemma2_to64, pow2};
use vstd::bits::{
    lemma_u32_low_bits_mask_is_mod, lemma_u32_pow2_no_overflow, lemma_u32_shl_is_mul,
    lemma_u32_shr_is_div,
};

verus! {

/// Bit `i` of `w` (false for `i >= 32`).
pub open spec fn bit_set(w: u32, i: u32) -> bool {
    (w >> i) & 1 == 1
}

/// The `width` lowest bits set: the mask a field of that width is read through.
pub open spec fn low_mask(width: u32) -> u32 {
    !(0xffff_ffffu32 << width)
}

/// The bits of `w` in `[offset, offset + width)`, shifted down to position 0.
pub open spec fn field_of(w: u32, offset: u32, width: u32) -> u32 {
    (w >> offset) & low_mask(width)
}

/// `v` fits in `width` bits, i.e. `v < 2^width`.
pub open spec fn fits(v: u32, width: u32) -> bool {
    v >> width == 0
}

/// `w` with the bits in `[offset, offset + width)` replaced by `v` and every
/// other bit kept.
pub open spec fn masked_update(w: u32, offset: u32, width: u32, v: u32) -> u32 {
    (w & !(low_mask(width) << offset)) | (v << offset)
}

/// The mask of the `width` lowest bits, computed at run time.
pub fn mask_low(width: u32) -> (m: u32)
    requires
        width <= 32,
    ensures
        m == low_mask(width),
{
    if width == 32 {
        proof {
            assert(low_mask(32) == 0xffff_ffffu32) by (bit_vector);
        }
        0xffff_ffffu32
    } else {
        !(0xffff_ffffu32 << width)
    }
}

/// Whether `v` can be stored in a field of `width` bits: the check the
/// runtime shell makes before handing a value to any `write`.
pub fn value_fits(v: u32, width: u32) -> (r: bool)
    ensures
        r == fits(v, width),
{
    if width >= 32 {
        proof {
            assert(v >> width == 0) by (bit_vector)
                requires
                    width >= 32,
            ;
        }
        true
    } else {
        (v >> width) == 0
    }
}

/// Law: a masked update stores exactly the addressed field and leaves every
/// bit outside `[offset, offset + width)` unchanged.
pub proof fn lemma_masked_update(w: u32, offset: u32, width: u32, v: u32)
    requires
        offset + width <= 32,
        fits(v, width),
    ensures
        field_of(masked_update(w, offset, width, v), offset, width) == v,
        forall|i: u32|
            i < 32 && !(offset <= i < offset + width) ==> bit_set(
                masked_update(w, offset, width, v),
                i,
            ) == bit_set(w, i),
{
    assert(field_of(masked_update(w, offset, width, v), offset, width) == v) by (bit_vector)
        requires
            offset + width <= 32,
            fits(v, width),
    ;
    assert forall|i: u32| i < 32 && !(offset <= i < offset + width) implies bit_set(
        masked_update(w, offset, width, v),
        i,
    ) == bit_set(w, i) by {
        assert(bit_set(masked_update(w, offset, width, v), i) == bit_set(w, i)) by (bit_vector)
            requires
                offset + width <= 32,
                fits(v, width),
                i < 32,
                !(offset <= i < offset + width),
        ;
    }
}

/// Law: a write-only store is exactly the value shifted into place; the
/// field reads back unchanged and every bit outside it is zero.
pub proof fn lemma_write_only_word(offset: u32, width: u32, v: u32)
    requires
        offset + width <= 32,
        fits(v, width),
    ensures
        field_of((v << offset), offset, width) == v,
        forall|i: u32|
            i < 32 && !(offset <= i < offset + width) ==> !bit_set((v << offset), i),
{
    assert(field_of((v << offset), offset, width) == v) by (bit_vector)
        requires
            offset + width <= 32,
            fits(v, width),
    ;
    assert forall|i: u32| i < 32 && !(offset <= i < offset + width) implies !bit_set(
        (v << offset),
        i,
    ) by {
        assert(!bit_set((v << offset), i)) by (bit_vector)
            requires
                offset + width <= 32,
                fits(v, width),
                i < 32,
                !(offset <= i < offset + width),
        ;
    }
}

/// Law: masked updates of two disjoint fields of one word commute, and
/// neither clobbers the other — after both, each field holds its own value.
/// This is what two concurrent writers of disjoint bit ranges rely on when
/// the underlying update is performed atomically.
pub proof fn lemma_disjoint_updates(
    w: u32,
    oa: u32,
    wa: u32,
    va: u32,
    ob: u32,
    wb: u32,
    vb: u32,
)
    requires
        oa + wa <= 32,
        fits(va, wa),
        ob + wb <= 32,
        fits(vb, wb),
        oa + wa <= ob || ob + wb <= oa,
    ensures
        field_of(masked_update(masked_update(w, oa, wa, va), ob, wb, vb), oa, wa) == va,
        field_of(masked_update(masked_update(w, oa, wa, va), ob, wb, vb), ob, wb) == vb,
        masked_update(masked_update(w, oa, wa, va), ob, wb, vb) == masked_update(
            masked_update(w, ob, wb, vb),
            oa,
            wa,
            va,
        ),
{
    assert(field_of(masked_update(masked_update(w, oa, wa, va), ob, wb, vb), oa, wa) == va)
        by (bit_vector)
        requires
            oa + wa <= 32,
            fits(va, wa),
            ob + wb <= 32,
            fits(vb, wb),
            oa + wa <= ob || ob + wb <= oa,
    ;
    assert(field_of(masked_update(masked_update(w, oa, wa, va), ob, wb, vb), ob, wb) == vb)
        by (bit_vector)
        requires
            ob + wb <= 32,
            fits(vb, wb),
    ;
    assert(masked_update(masked_update(w, oa, wa, va), ob, wb, vb) == masked_update(
        masked_update(w, ob, wb, vb),
        oa,
        wa,
        va,
    )) by (bit_vector)
        requires
            oa + wa <= 32,
            fits(va, wa),
            ob + wb <= 32,
            fits(vb, wb),
            oa + wa <= ob || ob + wb <= oa,
    ;
}

/// Law: `fits` is the arithmetic bound the write precondition speaks of —
/// a value can be stored in a field of `width` bits exactly when it is
/// below `2^width`.
pub proof fn lemma_fits_is_value_bound(v: u32, width: u32)
    requires
        width <= 32,
    ensures
        fits(v, width) <==> (v as nat) < pow2(width as nat),
{
    if width == 32 {
        lemma2_to64();
        assert(v >> 32 == 0) by (bit_vector);
    } else {
        lemma_u32_pow2_no_overflow(width as nat);
        lemma_u32_shl_is_mul(1u32, width);
        assert((v >> width == 0) <==> v < (1u32 << width)) by (bit_vector)
            requires
                width < 32,
        ;
    }
}

/// Law: the field view is arithmetic — the bits of `w` in
/// `[offset, offset + width)` read as `(w / 2^offset) mod 2^width`.
pub proof fn lemma_field_of_arithmetic(w: u32, offset: u32, width: u32)
    requires
        1 <= width,
        offset + width <= 32,
    ensures
        field_of(w, offset, width) == ((w as nat) / pow2(offset as nat)) % pow2(width as nat),
{
    lemma_u32_shr_is_div(w, offset);
    let s = w >> offset;
    if width == 32 {
        assert(s & low_mask(32) == s) by (bit_vector);
        lemma2_to64();
        lemma_small_mod(s as nat, pow2(32));
    } else {
        lemma_u32_pow2_no_overflow(width as nat);
        lemma_u32_shl_is_mul(1u32, width);
        assert(low_mask(width) == (1u32 << width) - 1) by (bit_vector)
            requires
                width < 32,
        ;
        lemma_u32_low_bits_mask_is_mod(s, width as nat);
    }
}

/// Read-only access to a register word at a physical address.
#[derive(Debug, PartialEq, Eq, Structural, Clone, Copy)]
pub struct ReadOnly(pub u64);

/// Write-only access: a store overwrites the whole word (write-to-set /
/// write-to-clear hardware registers).
#[derive(Debug, PartialEq, Eq, Structural, Clone, Copy)]
pub struct WriteOnly(pub u64);

/// Read-modify-write access performed through an atomic primitive, for
/// words touched by more than one execution context.
#[derive(Debug, PartialEq, Eq, Structural, Clone, Copy)]
pub struct Shared(pub u64);

/// Plain single-owner read-modify-write access.
#[derive(Debug, PartialEq, Eq, Structural, Clone, Copy)]
pub struct ReadWrite(pub u64);

/// A whole-word store for the runtime shell to perform at a device address.
#[derive(Debug, PartialEq, Eq, Structural, Clone, Copy)]
pub struct MmioWrite {
    pub addr: u64,
    pub value: u32,
}

/// A bitfield of a memory-mapped register: an address wrapped in an access
/// capability, a bit width and a bit offset.  Constructed once, typically
/// from a pin or channel index; only the underlying memory cell mutates.
#[derive(Debug, PartialEq, Eq, Structural)]
pub struct RegField<A> {
    pub access: A,
    pub size: u32,
    pub offset: u32,
}

impl<A> RegField<A> {
    /// The field lies within its 32-bit word and is at least one bit wide.
    pub open spec fn wf(self) -> bool {
        1 <= self.size && self.offset + self.size <= 32
    }

    pub fn new(access: A, size: u32, offset: u32) -> (r: Self)
        requires
            1 <= size,
            offset + size <= 32,
        ensures
            r == (RegField { access, size, offset }),
            r.wf(),
    {
        Self { access, size, offset }
    }
}

impl RegField<ReadOnly> {
    /// The physical address of the underlying word.
    pub fn addr(&self) -> (a: u64)
        ensures
            a == self.access.0,
    {
        self.access.0
    }

    /// The field's bits of `word`, shifted to position 0 and masked to
    /// `size` bits; `word` is the device word the runtime shell loaded.
    pub fn read(&self, word: u32) -> (v: u32)
        requires
            self.wf(),
        ensures
            v == field_of(word, self.offset, self.size),
            fits(v, self.size),
    {
        let m = mask_low(self.size);
        let v = (word >> self.offset) & m;
        proof {
            let offset = self.offset;
            let size = self.size;
            assert(fits(field_of(word, offset, size), size)) by (bit_vector);
        }
        v
    }
}

impl RegField<WriteOnly> {
    /// The physical address of the underlying word.
    pub fn addr(&self) -> (a: u64)
        ensures
            a == self.access.0,
    {
        self.access.0
    }

    /// The store a write of `v` performs: the whole word becomes `v` shifted
    /// into place, with every bit outside the field zero.
    pub fn write(&self, v: u32) -> (w: MmioWrite)
        requires
            self.wf(),
            fits(v, self.size),
        ensures
            w.addr == self.access.0,
            w.value == (v << self.offset),
            field_of(w.value, self.offset, self.size) == v,
            forall|i: u32|
                i < 32 && !(self.offset <= i < self.offset + self.size)
                    ==> !bit_set(w.value, i),
    {
        proof {
            lemma_write_only_word(self.offset, self.size, v);
        }
        MmioWrite { addr: self.access.0, value: v << self.offset }
    }
}

impl RegField<ReadWrite> {
    /// The physical address of the underlying word.
    pub fn addr(&self) -> (a: u64)
        ensures
            a == self.access.0,
    {
        self.access.0
    }

    /// The field's bits of `word`, shifted to position 0 and masked to
    /// `size` bits.
    pub fn read(&self, word: u32) -> (v: u32)
        requires
            self.wf(),
        ensures
            v == field_of(word, self.offset, self.size),
            fits(v, self.size),
    {
        let m = mask_low(self.size);
        let v = (word >> self.offset) & m;
        proof {
            let offset = self.offset;
            let size = self.size;
            assert(fits(field_of(word, offset, size), size)) by (bit_vector);
        }
        v
    }

    /// Read-modify-write of the word held in `cell`: the field's span is
    /// cleared through a precomputed mask and the shifted value or-ed in.
    /// The new field reads back as `v`; every other bit is unchanged.
    pub fn write(&self, cell: &mut u32, v: u32)
        requires
            self.wf(),
            fits(v, self.size),
        ensures
            *final(cell) == masked_update(*old(cell), self.offset, self.size, v),
            field_of(*final(cell), self.offset, self.size) == v,
            forall|i: u32|
                i < 32 && !(self.offset <= i < self.offset + self.size)
                    ==> bit_set(*final(cell), i) == bit_set(*old(cell), i),
    {
        let m = mask_low(self.size);
        let mut t = *cell;
        t &= !(m << self.offset);
        t |= v << self.offset;
        *cell = t;
        proof {
            lemma_masked_update(*old(cell), self.offset, self.size, v);
        }
    }
}

impl RegField<Shared> {
    /// The physical address of the underlying word.
    pub fn addr(&self) -> (a: u64)
        ensures
            a == self.access.0,
    {
        self.access.0
    }

    /// The field's bits of `word`, shifted to position 0 and masked to
    /// `size` bits.  On the device the load carries acquire ordering.
    pub fn read(&self, word: u32) -> (v: u32)
        requires
            self.wf(),
        ensures
            v == field_of(word, self.offset, self.size),
            fits(v, self.size),
    {
        let m = mask_low(self.size);
        let v = (word >> self.offset) & m;
        proof {
            let offset = self.offset;
            let size = self.size;
            assert(fits(field_of(word, offset, size), size)) by (bit_vector);
        }
        v
    }

    /// The same masked update as `RegField<ReadWrite>::write`; the runtime
    /// shell commits it through an atomic read-modify-write loop, so that
    /// concurrent updates of disjoint fields interleave without loss (see
    /// `lemma_disjoint_updates`).
    pub fn write(&self, cell: &mut u32, v: u32)
        requires
            self.wf(),
            fits(v, self.size),
        ensures
            *final(cell) == masked_update(*old(cell), self.offset, self.size, v),
            field_of(*final(cell), self.offset, self.size) == v,
            forall|i: u32|
                i < 32 && !(self.offset <= i < self.offset + self.size)
                    ==> bit_set(*final(cell), i) == bit_set(*old(cell), i),
    {
        let m = mask_low(self.size);
        let mut t = *cell;
        t &= !(m << self.offset);
        t |= v << self.offset;
        *cell = t;
        proof {
            lemma_masked_update(*old(cell), self.offset, self.size, v);
        }
    }
}

} // verus!
