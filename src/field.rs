use vstd::prelude::*;

use crate::bounds::Bounded;
use vstd::arithmetic::power2::{lemma2_to64, lemma2_to64_rest, lemma_pow2_adds, lemma_pow2_pos, pow2};
use vstd::bits::{lemma_u64_pow2_no_overflow, lemma_u64_shl_is_mul};

verus! {

/// The word with the low `n` bits set (all 64 bits when `n >= 64`).
pub open spec fn ones(n: u64) -> u64 {
    if n >= 64 {
        u64::MAX
    } else {
        ((1u64 << n) - 1u64) as u64
    }
}

/// Whether bit `i` of `v` is set.
pub open spec fn bit(v: u64, i: u64) -> bool {
    (v >> i) & 1u64 == 1u64
}

/// Whether `v` has no bit set at or above position `width`.
pub open spec fn fits(v: u64, width: u64) -> bool {
    v & !ones(width) == 0
}

/// The register widths a description may name.
pub open spec fn valid_register_width(w: u64) -> bool {
    w == 8 || w == 16 || w == 32 || w == 64
}

/// Whether a field of `width` bits at bit `offset` lies inside a
/// register of `register_width` bits.
pub open spec fn valid_layout(register_width: u64, width: u64, offset: u64) -> bool {
    &&& valid_register_width(register_width)
    &&& 1 <= width
    &&& offset + width <= register_width
}

/// Computes `ones(n)` for `n <= 64`.
fn low_ones(n: u64) -> (r: u64)
    requires
        n <= 64,
    ensures
        r == ones(n),
{
    if n >= 64 {
        u64::MAX
    } else {
        assert(1u64 << n >= 1) by (bit_vector)
            requires
                n < 64,
        ;
        (1u64 << n) - 1
    }
}

proof fn lemma_ones_shift_bits(w: u64, o: u64, i: u64)
    requires
        1 <= w,
        o + w <= 64,
        i < 64,
    ensures
        bit(ones(w) << o, i) <==> (o <= i && i < o + w),
{
    if w >= 64 {
        assert(bit(u64::MAX << o, i) <==> (o <= i && i < o + w)) by (bit_vector)
            requires
                w >= 64,
                o + w <= 64,
                i < 64,
        ;
    } else {
        assert(bit((((1u64 << w) - 1u64) as u64) << o, i) <==> (o <= i && i < o + w))
            by (bit_vector)
            requires
                1 <= w < 64,
                o + w <= 64,
                i < 64,
        ;
    }
}

/// Where one bit-field sits in a register: its mask, its offset and its
/// width, for a register of a given width.
#[derive(Clone, Copy, Debug, PartialEq, Eq, Structural)]
pub struct FieldDescriptor {
    mask: u64,
    offset: u64,
    width: u64,
    register_width: u64,
}

impl FieldDescriptor {
    #[verifier::type_invariant]
    closed spec fn inv(self) -> bool {
        self.wf()
    }

    /// The bits of the register that the field occupies.
    pub closed spec fn spec_mask(self) -> u64 {
        self.mask
    }

    /// The position of the field's least significant bit.
    pub closed spec fn spec_offset(self) -> u64 {
        self.offset
    }

    /// The number of bits in the field.
    pub closed spec fn spec_width(self) -> u64 {
        self.width
    }

    /// The width of the register the field belongs to.
    pub closed spec fn spec_register_width(self) -> u64 {
        self.register_width
    }

    /// The mask is `ones(width) << offset` and the field lies inside
    /// its register.
    pub open spec fn wf(self) -> bool {
        &&& valid_layout(self.spec_register_width(), self.spec_width(), self.spec_offset())
        &&& self.spec_mask() == ones(self.spec_width()) << self.spec_offset()
    }

    /// The largest value the field can hold, `2^width - 1`.
    pub open spec fn spec_max(self) -> u64 {
        ones(self.spec_width())
    }

    /// Describes the field of `width` bits at bit `offset` of a register
    /// of `register_width` bits, or returns `None` when the register width
    /// is not 8, 16, 32 or 64, the width is zero, or the field would
    /// reach past the register.
    pub fn new(register_width: u64, width: u64, offset: u64) -> (r: Option<FieldDescriptor>)
        ensures
            r is Some <==> valid_layout(register_width, width, offset),
            r matches Some(d) ==> {
                &&& d.wf()
                &&& d.spec_register_width() == register_width
                &&& d.spec_width() == width
                &&& d.spec_offset() == offset
            },
    {
        let valid_reg = register_width == 8 || register_width == 16 || register_width == 32
            || register_width == 64;
        if !valid_reg || width < 1 || width > register_width || offset > register_width - width {
            return None;
        }
        let mask = low_ones(width) << offset;
        Some(FieldDescriptor { mask, offset, width, register_width })
    }

    /// The bits of the register that the field occupies.
    pub fn mask(&self) -> (r: u64)
        ensures
            r == self.spec_mask(),
    {
        self.mask
    }

    /// The position of the field's least significant bit.
    pub fn offset(&self) -> (r: u64)
        ensures
            r == self.spec_offset(),
    {
        self.offset
    }

    /// The number of bits in the field.
    pub fn width(&self) -> (r: u64)
        ensures
            r == self.spec_width(),
    {
        self.width
    }

    /// The width of the register the field belongs to.
    pub fn register_width(&self) -> (r: u64)
        ensures
            r == self.spec_register_width(),
    {
        self.register_width
    }

    /// The largest value the field can hold.
    pub fn max(&self) -> (r: u64)
        ensures
            r == self.spec_max(),
    {
        proof {
            use_type_invariant(self);
        }
        low_ones(self.width)
    }
}

proof fn lemma_ones_value(w: u64)
    requires
        w <= 64,
    ensures
        ones(w) as int == pow2(w as nat) - 1,
{
    if w >= 64 {
        lemma2_to64_rest();
    } else {
        lemma_u64_pow2_no_overflow(w as nat);
        lemma_u64_shl_is_mul(1u64, w);
    }
}

proof fn lemma_ones_shift_value(w: u64, o: u64)
    requires
        1 <= w,
        o + w <= 64,
    ensures
        (ones(w) << o) as int == (pow2(w as nat) - 1) * pow2(o as nat),
{
    lemma_ones_value(w);
    lemma_pow2_adds(w as nat, o as nat);
    lemma_pow2_pos(o as nat);
    lemma2_to64();
    lemma2_to64_rest();
    assert(pow2((w + o) as nat) <= pow2(64)) by {
        if w + o < 64 {
            vstd::arithmetic::power2::lemma_pow2_strictly_increases((w + o) as nat, 64);
        }
    }
    assert((pow2(w as nat) - 1) * pow2(o as nat) == pow2(w as nat) * pow2(o as nat) - pow2(
        o as nat,
    )) by (nonlinear_arith);
    lemma_u64_shl_is_mul(ones(w), o);
}

/// The mask of a well-formed descriptor is `((1 << width) - 1) << offset`
/// and covers exactly the bits `offset .. offset + width`.
pub proof fn lemma_mask_covers_field(d: FieldDescriptor, i: u64)
    requires
        d.wf(),
        i < 64,
    ensures
        d.spec_mask() as int == (pow2(d.spec_width() as nat) - 1) * pow2(d.spec_offset() as nat),
        d.spec_width() < 64 ==> d.spec_mask() == (((1u64 << d.spec_width()) - 1u64) as u64)
            << d.spec_offset(),
        bit(d.spec_mask(), i) <==> (d.spec_offset() <= i && i < d.spec_offset()
            + d.spec_width()),
{
    lemma_ones_shift_bits(d.spec_width(), d.spec_offset(), i);
    lemma_ones_shift_value(d.spec_width(), d.spec_offset());
}

proof fn lemma_value_in_position(v: u64, w: u64, o: u64)
    requires
        1 <= w,
        o + w <= 64,
        v <= ones(w),
    ensures
        (v << o) & !(ones(w) << o) == 0,
        (v << o) >> o == v,
{
    if w >= 64 {
        assert((v << o) & !(u64::MAX << o) == 0 && (v << o) >> o == v) by (bit_vector)
            requires
                w >= 64,
                o + w <= 64,
        ;
    } else {
        assert((v << o) & !((((1u64 << w) - 1u64) as u64) << o) == 0 && (v << o) >> o == v)
            by (bit_vector)
            requires
                1 <= w < 64,
                o + w <= 64,
                v <= (((1u64 << w) - 1u64) as u64),
        ;
    }
}

proof fn lemma_extract_bounded(raw: u64, w: u64, o: u64)
    requires
        1 <= w,
        o + w <= 64,
    ensures
        (raw & (ones(w) << o)) >> o <= ones(w),
{
    if w >= 64 {
        assert((raw & (u64::MAX << o)) >> o <= u64::MAX) by (bit_vector);
    } else {
        assert((raw & ((((1u64 << w) - 1u64) as u64) << o)) >> o <= (((1u64 << w) - 1u64) as u64))
            by (bit_vector)
            requires
                1 <= w < 64,
                o + w <= 64,
        ;
    }
}

proof fn lemma_mask_fits_register(w: u64, o: u64, rw: u64)
    requires
        valid_layout(rw, w, o),
    ensures
        fits(ones(w) << o, rw),
{
    if rw == 64 {
        assert((ones(w) << o) & !u64::MAX == 0) by (bit_vector);
    } else if w >= 64 {
    } else {
        assert(((((1u64 << w) - 1u64) as u64) << o) & !((((1u64 << rw) - 1u64) as u64)) == 0)
            by (bit_vector)
            requires
                1 <= w < 64,
                rw < 64,
                o + w <= rw,
        ;
    }
}

/// A value that can be placed into a register in one write: a mask of the
/// bits it sets, and its value already shifted into position.
pub trait Positioned {
    /// The bits of the register this value determines.
    spec fn spec_mask(&self) -> u64;

    /// The value, shifted to its place in the register.
    spec fn spec_in_position(&self) -> u64;

    /// The bits of the register this value determines.
    fn mask(&self) -> (r: u64)
        ensures
            r == self.spec_mask(),
    ;

    /// The value, shifted to its place in the register.
    fn in_position(&self) -> (r: u64)
        ensures
            r == self.spec_in_position(),
    ;
}

/// Whether a positioned value sets no bit outside its mask and its mask
/// lies within a register of `width` bits.
pub open spec fn positioned_within<P: Positioned>(p: P, width: u64) -> bool {
    &&& p.spec_in_position() & !p.spec_mask() == 0
    &&& fits(p.spec_mask(), width)
}

/// One bit-field of a register together with its current value, which
/// always lies in `0 ..= 2^width - 1`.
#[derive(Clone, Copy, Debug, PartialEq, Eq, Structural)]
pub struct Field {
    desc: FieldDescriptor,
    val: Bounded,
}

impl Field {
    #[verifier::type_invariant]
    closed spec fn inv(self) -> bool {
        self.wf()
    }

    /// Where the field sits in its register.
    pub closed spec fn spec_descriptor(self) -> FieldDescriptor {
        self.desc
    }

    /// The field's raw (unshifted) value.
    pub closed spec fn spec_val(self) -> u64 {
        self.val.spec_value()
    }

    /// The range the value is held to.
    pub closed spec fn spec_bounds(self) -> Bounded {
        self.val
    }

    /// The descriptor is well formed and the value is bounded by
    /// `[0, 2^width - 1]`.
    pub open spec fn wf(self) -> bool {
        &&& self.spec_descriptor().wf()
        &&& self.spec_bounds().wf()
        &&& self.spec_bounds().spec_lower() == 0
        &&& self.spec_bounds().spec_upper() == self.spec_descriptor().spec_max()
        &&& self.spec_bounds().spec_value() == self.spec_val()
    }

    /// The field described by `desc` holding `val`, or `None` when `val`
    /// does not fit in the field's width.
    pub fn new(desc: FieldDescriptor, val: u64) -> (r: Option<Field>)
        ensures
            r is Some <==> val <= desc.spec_max(),
            r matches Some(f) ==> f.wf() && f.spec_descriptor() == desc && f.spec_val() == val,
    {
        proof {
            use_type_invariant(&desc);
        }
        match Bounded::new(val, 0, desc.max()) {
            Some(b) => Some(Field { desc, val: b }),
            None => None,
        }
    }

    /// The field described by `desc` holding `val`; the caller's proof
    /// shows that `val` fits, so there is no failure path.
    pub fn checked(desc: FieldDescriptor, val: u64) -> (r: Field)
        requires
            val <= desc.spec_max(),
        ensures
            r.wf(),
            r.spec_descriptor() == desc,
            r.spec_val() == val,
    {
        proof {
            use_type_invariant(&desc);
        }
        Field { desc, val: Bounded::checked(val, 0, desc.max()) }
    }

    /// The field described by `desc` holding zero.
    pub fn zero(desc: FieldDescriptor) -> (r: Field)
        ensures
            r.wf(),
            r.spec_descriptor() == desc,
            r.spec_val() == 0,
    {
        Field::checked(desc, 0)
    }

    /// The same field holding `val`, or `None` when `val` does not fit.
    pub fn set(self, val: u64) -> (r: Option<Field>)
        ensures
            r is Some <==> val <= self.spec_descriptor().spec_max(),
            r matches Some(f) ==> f.wf() && f.spec_descriptor() == self.spec_descriptor()
                && f.spec_val() == val,
    {
        proof {
            use_type_invariant(&self);
        }
        Field::new(self.desc, val)
    }

    /// The field's raw (unshifted) value.
    pub fn val(&self) -> (r: u64)
        ensures
            r == self.spec_val(),
    {
        self.val.value()
    }

    /// Where the field sits in its register.
    pub fn descriptor(&self) -> (r: FieldDescriptor)
        ensures
            r == self.spec_descriptor(),
    {
        self.desc
    }

    /// Whether the field holds its largest value, `2^width - 1`.
    pub fn is_set(&self) -> (r: bool)
        ensures
            r == (self.spec_val() == self.spec_descriptor().spec_max()),
    {
        proof {
            use_type_invariant(self);
        }
        self.val.value() == self.val.upper()
    }
}

impl Positioned for Field {
    open spec fn spec_mask(&self) -> u64 {
        self.spec_descriptor().spec_mask()
    }

    open spec fn spec_in_position(&self) -> u64 {
        self.spec_val() << self.spec_descriptor().spec_offset()
    }

    fn mask(&self) -> (r: u64) {
        self.desc.mask()
    }

    fn in_position(&self) -> (r: u64) {
        proof {
            use_type_invariant(self);
        }
        self.val() << self.desc.offset()
    }
}

/// A field's value sets no bit outside its mask, and its mask lies inside
/// its register.
pub proof fn lemma_field_within(f: Field)
    requires
        f.wf(),
    ensures
        positioned_within(f, f.spec_descriptor().spec_register_width()),
        f.spec_in_position() >> f.spec_descriptor().spec_offset() == f.spec_val(),
{
    let d = f.spec_descriptor();
    lemma_value_in_position(f.spec_val(), d.spec_width(), d.spec_offset());
    lemma_mask_fits_register(d.spec_width(), d.spec_offset(), d.spec_register_width());
}

/// Several fields folded into one write: the union of their masks and of
/// their positioned values. It is made only by combining positioned
/// values with `+`.
#[derive(Clone, Copy, Debug, PartialEq, Eq, Structural)]
pub struct FieldDisj {
    mask: u64,
    val: u64,
}

impl Positioned for FieldDisj {
    closed spec fn spec_mask(&self) -> u64 {
        self.mask
    }

    closed spec fn spec_in_position(&self) -> u64 {
        self.val
    }

    fn mask(&self) -> (r: u64) {
        self.mask
    }

    fn in_position(&self) -> (r: u64) {
        self.val
    }
}

/// The write that sets both `a` and `b`: the union of their masks and
/// of their positioned values.
pub closed spec fn combined<A: Positioned, B: Positioned>(a: A, b: B) -> FieldDisj {
    FieldDisj {
        mask: a.spec_mask() | b.spec_mask(),
        val: a.spec_in_position() | b.spec_in_position(),
    }
}

/// What `combined` holds.
pub proof fn lemma_combined<A: Positioned, B: Positioned>(a: A, b: B)
    ensures
        combined(a, b).spec_mask() == a.spec_mask() | b.spec_mask(),
        combined(a, b).spec_in_position() == a.spec_in_position() | b.spec_in_position(),
{
}

/// Folds two positioned values into one write.
fn combine<A: Positioned, B: Positioned>(a: &A, b: &B) -> (r: FieldDisj)
    ensures
        r == combined(*a, *b),
        r.spec_mask() == a.spec_mask() | b.spec_mask(),
        r.spec_in_position() == a.spec_in_position() | b.spec_in_position(),
{
    FieldDisj { mask: a.mask() | b.mask(), val: a.in_position() | b.in_position() }
}

impl core::ops::Add<Field> for Field {
    type Output = FieldDisj;

    fn add(self, rhs: Field) -> (r: FieldDisj)
        ensures
            r == combined(self, rhs),
    {
        combine(&self, &rhs)
    }
}

impl vstd::std_specs::ops::AddSpecImpl<Field> for Field {
    open spec fn obeys_add_spec() -> bool {
        true
    }

    open spec fn add_req(self, rhs: Field) -> bool {
        true
    }

    open spec fn add_spec(self, rhs: Field) -> FieldDisj {
        combined(self, rhs)
    }
}

impl core::ops::Add<FieldDisj> for Field {
    type Output = FieldDisj;

    fn add(self, rhs: FieldDisj) -> (r: FieldDisj)
        ensures
            r == combined(self, rhs),
    {
        combine(&self, &rhs)
    }
}

impl vstd::std_specs::ops::AddSpecImpl<FieldDisj> for Field {
    open spec fn obeys_add_spec() -> bool {
        true
    }

    open spec fn add_req(self, rhs: FieldDisj) -> bool {
        true
    }

    open spec fn add_spec(self, rhs: FieldDisj) -> FieldDisj {
        combined(self, rhs)
    }
}

impl core::ops::Add<Field> for FieldDisj {
    type Output = FieldDisj;

    fn add(self, rhs: Field) -> (r: FieldDisj)
        ensures
            r == combined(self, rhs),
    {
        combine(&self, &rhs)
    }
}

impl vstd::std_specs::ops::AddSpecImpl<Field> for FieldDisj {
    open spec fn obeys_add_spec() -> bool {
        true
    }

    open spec fn add_req(self, rhs: Field) -> bool {
        true
    }

    open spec fn add_spec(self, rhs: Field) -> FieldDisj {
        combined(self, rhs)
    }
}

impl core::ops::Add<FieldDisj> for FieldDisj {
    type Output = FieldDisj;

    fn add(self, rhs: FieldDisj) -> (r: FieldDisj)
        ensures
            r == combined(self, rhs),
    {
        combine(&self, &rhs)
    }
}

impl vstd::std_specs::ops::AddSpecImpl<FieldDisj> for FieldDisj {
    open spec fn obeys_add_spec() -> bool {
        true
    }

    open spec fn add_req(self, rhs: FieldDisj) -> bool {
        true
    }

    open spec fn add_spec(self, rhs: FieldDisj) -> FieldDisj {
        combined(self, rhs)
    }
}

/// Combining is commutative: for operands with disjoint masks, `a + b`
/// and `b + a` make the same write.
pub proof fn lemma_combine_commutative<A: Positioned, B: Positioned>(a: A, b: B)
    requires
        a.spec_mask() & b.spec_mask() == 0,
    ensures
        combined(a, b) == combined(b, a),
{
    let (ma, mb, va, vb) = (a.spec_mask(), b.spec_mask(), a.spec_in_position(), b.spec_in_position());
    assert(ma | mb == mb | ma && va | vb == vb | va) by (bit_vector);
}

/// Combining is associative: for operands with pairwise disjoint masks,
/// `(a + b) + c` and `a + (b + c)` make the same write.
pub proof fn lemma_combine_associative<A: Positioned, B: Positioned, C: Positioned>(
    a: A,
    b: B,
    c: C,
)
    requires
        a.spec_mask() & b.spec_mask() == 0,
        a.spec_mask() & c.spec_mask() == 0,
        b.spec_mask() & c.spec_mask() == 0,
    ensures
        combined(combined(a, b), c) == combined(a, combined(b, c)),
{
    let (ma, mb, mc) = (a.spec_mask(), b.spec_mask(), c.spec_mask());
    let (va, vb, vc) = (a.spec_in_position(), b.spec_in_position(), c.spec_in_position());
    assert((ma | mb) | mc == ma | (mb | mc) && (va | vb) | vc == va | (vb | vc)) by (bit_vector);
}

/// Combining keeps each operand's value inside its mask, and the masks
/// inside the register.
pub proof fn lemma_combined_within<A: Positioned, B: Positioned>(a: A, b: B, width: u64)
    requires
        positioned_within(a, width),
        positioned_within(b, width),
    ensures
        positioned_within(combined(a, b), width),
{
    let (ma, mb, va, vb) = (a.spec_mask(), b.spec_mask(), a.spec_in_position(), b.spec_in_position());
    let o = ones(width);
    assert((va | vb) & !(ma | mb) == 0 && (ma | mb) & !o == 0) by (bit_vector)
        requires
            va & !ma == 0,
            vb & !mb == 0,
            ma & !o == 0,
            mb & !o == 0,
    ;
}

/// The raw value of the field described by `d` in the register word `raw`.
pub open spec fn field_value(raw: u64, d: FieldDescriptor) -> u64 {
    (raw & d.spec_mask()) >> d.spec_offset()
}

/// A field read out of any register word fits in the field.
pub proof fn lemma_field_value_fits(raw: u64, d: FieldDescriptor)
    requires
        d.wf(),
    ensures
        field_value(raw, d) <= d.spec_max(),
{
    lemma_extract_bounded(raw, d.spec_width(), d.spec_offset());
}

/// Writing a value into a field and reading the field back gives the value.
pub proof fn lemma_field_value_of_placed(raw: u64, f: Field)
    requires
        f.wf(),
    ensures
        field_value((raw & !f.spec_mask()) | f.spec_in_position(), f.spec_descriptor())
            == f.spec_val(),
{
    let d = f.spec_descriptor();
    let (v, w, o) = (f.spec_val(), d.spec_width(), d.spec_offset());
    if w >= 64 {
        assert((((raw & !(u64::MAX << o)) | (v << o)) & (u64::MAX << o)) >> o == v)
            by (bit_vector)
            requires
                o + w <= 64,
                w >= 64,
        ;
    } else {
        let m = (((1u64 << w) - 1u64) as u64);
        assert((((raw & !(m << o)) | (v << o)) & (m << o)) >> o == v) by (bit_vector)
            requires
                1 <= w < 64,
                o + w <= 64,
                m == (((1u64 << w) - 1u64) as u64),
                v <= m,
        ;
    }
}

/// Reads the field described by `d` out of the register word `raw`.
pub fn extract_field(raw: u64, d: FieldDescriptor) -> (r: u64)
    ensures
        r == field_value(raw, d),
        r <= d.spec_max(),
{
    proof {
        use_type_invariant(&d);
        lemma_field_value_fits(raw, d);
    }
    (raw & d.mask()) >> d.offset()
}

} // verus!
