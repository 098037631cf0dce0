use core::marker::PhantomData;

use vstd::prelude::*;

use crate::field::{
    extract_field, field_value, fits, lemma_field_value_of_placed, ones,
    positioned_within, valid_register_width, Field, FieldDescriptor, Positioned,
};

verus! {

/// Access mode of a register whose value can only be read.
pub struct ReadOnly;

/// Access mode of a register whose value can only be written.
pub struct WriteOnly;

/// Access mode of a register whose value can be read and written.
pub struct ReadWrite;

/// Access modes that allow reading the register.
pub trait Readable {}

/// Access modes that allow writing the register.
pub trait Writable {}

impl Readable for ReadOnly {}

impl Readable for ReadWrite {}

impl Writable for WriteOnly {}

impl Writable for ReadWrite {}

/// The register word after a read-modify-write of `p`: the bits under
/// `p`'s mask come from `p`, every other bit from `raw`.
pub open spec fn modified<P: Positioned>(raw: u64, p: P) -> u64 {
    (raw & !p.spec_mask()) | p.spec_in_position()
}

/// Computes the word that a read-modify-write of `val` stores, given the
/// word `raw` that it loaded: `(raw & !mask) | in_position`.
pub fn modified_word<V: Positioned>(raw: u64, val: &V) -> (r: u64)
    ensures
        r == modified(raw, *val),
        val.spec_in_position() & !val.spec_mask() == 0 ==> {
            &&& r & !val.spec_mask() == raw & !val.spec_mask()
            &&& r & val.spec_mask() == val.spec_in_position()
        },
{
    let (m, v) = (val.mask(), val.in_position());
    assert(v & !m == 0 ==> ((raw & !m) | v) & !m == raw & !m && ((raw & !m) | v) & m == v)
        by (bit_vector);
    (raw & !m) | v
}

/// A snapshot of one read of a register. It answers the same queries as
/// the register without further access to it.
#[derive(Clone, Copy, Debug, PartialEq, Eq, Structural)]
pub struct ReadOnlyCopy {
    raw: u64,
}

impl View for ReadOnlyCopy {
    type V = u64;

    closed spec fn view(&self) -> u64 {
        self.raw
    }
}

impl ReadOnlyCopy {
    /// A snapshot of the register word `raw`.
    pub fn new(raw: u64) -> (r: ReadOnlyCopy)
        ensures
            r@ == raw,
    {
        ReadOnlyCopy { raw }
    }

    /// The register word held by the snapshot.
    pub fn read(&self) -> (r: u64)
        ensures
            r == self@,
    {
        self.raw
    }

    /// Another snapshot of the same word.
    pub fn extract(&self) -> (r: ReadOnlyCopy)
        ensures
            r@ == self@,
    {
        ReadOnlyCopy { raw: self.raw }
    }

    /// The field described by `d`, holding the value it has in the
    /// snapshot, `(raw & mask) >> offset`. The value always fits, so
    /// the result is always `Some`.
    pub fn get_field(&self, d: FieldDescriptor) -> (r: Option<Field>)
        ensures
            r matches Some(f) && f.wf() && f.spec_descriptor() == d && f.spec_val()
                == field_value(self@, d),
    {
        let v = extract_field(self.raw, d);
        Field::new(d, v)
    }

    /// Whether the field described by `d` holds its largest value.
    pub fn is_set(&self, d: FieldDescriptor) -> (r: bool)
        ensures
            r == (field_value(self@, d) == d.spec_max()),
    {
        extract_field(self.raw, d) == d.max()
    }

    /// Whether any bit set in `val`'s positioned value is set in the
    /// snapshot.
    pub fn matches_any<V: Positioned>(&self, val: V) -> (r: bool)
        ensures
            r == (val.spec_in_position() & self@ != 0),
    {
        (val.in_position() & self.raw) != 0
    }

    /// Whether every bit set in `val`'s positioned value is set in the
    /// snapshot.
    pub fn matches_all<V: Positioned>(&self, val: V) -> (r: bool)
        ensures
            r == (val.spec_in_position() & self@ == val.spec_in_position()),
    {
        let p = val.in_position();
        (p & self.raw) == p
    }
}

/// A register of 8, 16, 32 or 64 bits, with access mode `M`.
///
/// It holds the register word; each query reads it once and each update
/// writes it once. Reading needs a `Readable` mode, writing a `Writable`
/// one. For a write-only register the word held is the last one written,
/// which stands in for the bits that the hardware does not return.
pub struct Register<M> {
    raw: u64,
    width: u64,
    mode: PhantomData<M>,
}

impl<M> View for Register<M> {
    type V = u64;

    closed spec fn view(&self) -> u64 {
        self.raw
    }
}

impl<M> Register<M> {
    #[verifier::type_invariant]
    closed spec fn inv(self) -> bool {
        self.wf()
    }

    /// The register's width in bits.
    pub closed spec fn spec_width(self) -> u64 {
        self.width
    }

    /// The width is 8, 16, 32 or 64, and the word has no bit set above it.
    pub open spec fn wf(self) -> bool {
        valid_register_width(self.spec_width()) && fits(self@, self.spec_width())
    }

    /// The register after its whole word is set to `v`.
    pub closed spec fn spec_written(self, v: u64) -> Register<M> {
        Register { raw: v, width: self.width, mode: PhantomData }
    }

    /// The register after a read-modify-write of `p`.
    pub closed spec fn spec_modified<P: Positioned>(self, p: P) -> Register<M> {
        Register { raw: modified(self.raw, p), width: self.width, mode: PhantomData }
    }

    /// A register of `width` bits holding `init`.
    pub fn new(width: u64, init: u64) -> (r: Register<M>)
        requires
            valid_register_width(width),
            fits(init, width),
        ensures
            r.wf(),
            r@ == init,
            r.spec_width() == width,
    {
        Register { raw: init, width, mode: PhantomData }
    }

    /// The register's width in bits.
    pub fn width(&self) -> (r: u64)
        ensures
            r == self.spec_width(),
    {
        self.width
    }
}

impl<M: Readable> Register<M> {
    /// Reads the whole register word.
    pub fn read(&self) -> (r: u64)
        ensures
            r == self@,
    {
        self.raw
    }

    /// Reads the register once into a snapshot.
    pub fn extract(&self) -> (r: ReadOnlyCopy)
        ensures
            r@ == self@,
    {
        ReadOnlyCopy { raw: self.raw }
    }

    /// Reads the field described by `d`: `(raw & mask) >> offset`, as a
    /// field value. The value always fits, so the result is always `Some`.
    pub fn get_field(&self, d: FieldDescriptor) -> (r: Option<Field>)
        ensures
            r matches Some(f) && f.wf() && f.spec_descriptor() == d && f.spec_val()
                == field_value(self@, d),
    {
        self.extract().get_field(d)
    }

    /// Whether the field described by `d` holds its largest value.
    pub fn is_set(&self, d: FieldDescriptor) -> (r: bool)
        ensures
            r == (field_value(self@, d) == d.spec_max()),
    {
        self.extract().is_set(d)
    }

    /// Whether any bit set in `val`'s positioned value is set in the
    /// register.
    pub fn matches_any<V: Positioned>(&self, val: V) -> (r: bool)
        ensures
            r == (val.spec_in_position() & self@ != 0),
    {
        self.extract().matches_any(val)
    }

    /// Whether every bit set in `val`'s positioned value is set in the
    /// register.
    pub fn matches_all<V: Positioned>(&self, val: V) -> (r: bool)
        ensures
            r == (val.spec_in_position() & self@ == val.spec_in_position()),
    {
        self.extract().matches_all(val)
    }
}

impl<M: Writable> Register<M> {
    /// Sets the fields of `val` in one read-modify-write, leaving every
    /// bit outside `val`'s mask as it was.
    pub fn modify<V: Positioned>(&mut self, val: V)
        requires
            positioned_within(val, old(self).spec_width()),
        ensures
            *final(self) == old(self).spec_modified(val),
            final(self)@ == modified(old(self)@, val),
            final(self).spec_width() == old(self).spec_width(),
            final(self)@ & !val.spec_mask() == old(self)@ & !val.spec_mask(),
            final(self)@ & val.spec_mask() == val.spec_in_position(),
    {
        proof {
            use_type_invariant(&*self);
            lemma_modify_bits(self@, val, self.width);
        }
        let raw = self.raw;
        self.raw = modified_word(raw, &val);
    }

    /// Sets the whole register word to `val`, bypassing the fields.
    pub fn write(&mut self, val: u64)
        requires
            fits(val, old(self).spec_width()),
        ensures
            *final(self) == old(self).spec_written(val),
            final(self)@ == val,
            final(self).spec_width() == old(self).spec_width(),
    {
        proof {
            use_type_invariant(&*self);
        }
        self.raw = val;
    }
}

proof fn lemma_modify_bits<P: Positioned>(raw: u64, p: P, width: u64)
    requires
        positioned_within(p, width),
        fits(raw, width),
    ensures
        modified(raw, p) & !p.spec_mask() == raw & !p.spec_mask(),
        modified(raw, p) & p.spec_mask() == p.spec_in_position(),
        fits(modified(raw, p), width),
{
    let (m, v, o) = (p.spec_mask(), p.spec_in_position(), ones(width));
    assert(((raw & !m) | v) & !m == raw & !m && ((raw & !m) | v) & m == v && ((raw & !m) | v)
        & !o == 0) by (bit_vector)
        requires
            v & !m == 0,
            m & !o == 0,
            raw & !o == 0,
    ;
}

/// A read-modify-write of `p` leaves every bit outside `p`'s mask as it
/// was and sets the bits under the mask to `p`'s positioned value.
pub proof fn lemma_modify_keeps_other_bits<M, P: Positioned>(reg: Register<M>, p: P)
    requires
        reg.wf(),
        positioned_within(p, reg.spec_width()),
    ensures
        reg.spec_modified(p)@ & !p.spec_mask() == reg@ & !p.spec_mask(),
        reg.spec_modified(p)@ & p.spec_mask() == p.spec_in_position(),
        reg.spec_modified(p).wf(),
{
    lemma_modify_bits(reg@, p, reg.spec_width());
}

/// Reading a register right after writing `v` to it gives `v`.
pub proof fn lemma_read_after_write<M>(reg: Register<M>, v: u64)
    requires
        reg.wf(),
        fits(v, reg.spec_width()),
    ensures
        reg.spec_written(v)@ == v,
        reg.spec_written(v).wf(),
{
}

/// Reading a field right after a read-modify-write of that field gives
/// back the value written, whatever the register held before.
pub proof fn lemma_get_field_after_modify<M>(reg: Register<M>, f: Field)
    requires
        f.wf(),
    ensures
        field_value(reg.spec_modified(f)@, f.spec_descriptor()) == f.spec_val(),
{
    lemma_field_value_of_placed(reg@, f);
}

/// The largest value of a one-bit field is 1, so `is_set` on such a
/// field is true exactly when the field holds 1.
pub proof fn lemma_one_bit_max(d: FieldDescriptor)
    requires
        d.wf(),
        d.spec_width() == 1,
    ensures
        d.spec_max() == 1,
{
    assert(((1u64 << 1u64) - 1u64) as u64 == 1) by (bit_vector);
}

} // verus!
