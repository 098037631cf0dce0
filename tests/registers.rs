use registers::{
    Field, FieldDescriptor, Positioned, ReadOnly, ReadWrite, Register, WriteOnly,
};

// The status register: On (1 bit at 0), Dead (1 bit at 1) and
// Color (3 bits at 2, Red = 1, Blue = 2, Green = 3, Yellow = 4).
fn on() -> FieldDescriptor {
    FieldDescriptor::new(8, 1, 0).unwrap()
}

fn dead() -> FieldDescriptor {
    FieldDescriptor::new(8, 1, 1).unwrap()
}

fn color() -> FieldDescriptor {
    FieldDescriptor::new(8, 3, 2).unwrap()
}

fn set(d: FieldDescriptor) -> Field {
    Field::new(d, d.max()).unwrap()
}

fn clear(d: FieldDescriptor) -> Field {
    Field::zero(d)
}

fn blue() -> Field {
    Field::new(color(), 2).unwrap()
}

#[test]
fn test_rw_macro() {
    let mut reg: Register<ReadWrite> = Register::new(8, 0);
    reg.modify(Field::checked(dead(), 1));
    assert_eq!(reg.read(), 2);
}

#[test]
fn test_matches_any() {
    let mut reg: Register<ReadWrite> = Register::new(8, 0);
    reg.modify(set(dead()));
    assert!(reg.matches_any(set(on()) + set(dead())));
    reg.modify(clear(dead()));
    assert!(!reg.matches_any(set(on()) + set(dead())));
}

#[test]
fn test_matches_all() {
    let mut reg: Register<ReadWrite> = Register::new(8, 0);
    reg.modify(set(dead()) + set(on()));
    assert!(reg.matches_all(set(on()) + set(dead())));
    reg.modify(clear(dead()));
    assert!(!reg.matches_all(set(on()) + set(dead())));
}

#[test]
fn test_ro_macro() {
    // Working (1 bit at 0), NumWidth (2 bits at 1: Four = 0, Eight = 1, Sixteen = 2).
    let num_width = FieldDescriptor::new(8, 2, 1).unwrap();
    let sixteen = Field::new(num_width, 2).unwrap();
    let reg: Register<ReadOnly> = Register::new(8, 4);
    let width = reg.get_field(num_width).unwrap();
    assert_eq!(width, sixteen);
}

#[test]
fn test_field_disj() {
    let mut reg: Register<ReadWrite> = Register::new(8, 0);
    reg.modify(set(dead()) + blue() + clear(on()));
    assert_eq!(reg.read(), 10);
}

#[test]
fn test_read_only() {
    // A field of mask 28, offset 2 and largest value 7 in a register holding 8.
    let field = FieldDescriptor::new(8, 3, 2).unwrap();
    assert_eq!(field.mask(), 28);
    let reg: Register<ReadOnly> = Register::new(8, 8);
    let field_val = reg.get_field(field).unwrap().val();
    assert_eq!(field_val, 2);
}

#[test]
fn test_reg_macro_rw() {
    let mut reg: Register<ReadWrite> = Register::new(32, 0);
    let color32 = FieldDescriptor::new(32, 3, 2).unwrap();
    let blue32 = Field::new(color32, 2).unwrap();
    reg.modify(blue32);
    assert_eq!(reg.read(), 8);
    assert_eq!(reg.get_field(color32).unwrap(), blue32);
}

#[test]
fn test_reg_macro_wo() {
    // PleaseWait (1 bit at 0), Reason (2 bits at 1: Busy = 1,
    // WaitingForSomethingElse = 2, ThingsAreHardRightNowOkay = 3).
    let reason = FieldDescriptor::new(32, 2, 1).unwrap();
    let mut reg: Register<WriteOnly> = Register::new(32, 0);
    reg.modify(Field::new(reason, 3).unwrap());
    let mut shadow: Register<ReadWrite> = Register::new(32, 0);
    shadow.modify(Field::new(reason, 3).unwrap());
    assert_eq!(shadow.read(), 6);
}

#[test]
fn test_reg_macro_ro() {
    // Working (1 bit at 0), Width (2 bits at 1: Four = 0, Eight = 1, Sixteen = 2).
    let width_field = FieldDescriptor::new(32, 2, 1).unwrap();
    let reg: Register<ReadOnly> = Register::new(32, 4);
    let width = reg.get_field(width_field).unwrap();
    assert_eq!(width.val(), 2);
}

#[test]
fn test_with() {
    let on32 = FieldDescriptor::new(32, 1, 0).unwrap();
    let dead32 = FieldDescriptor::new(32, 1, 1).unwrap();
    let color32 = FieldDescriptor::new(32, 3, 2).unwrap();
    let blue32 = Field::new(color32, 2).unwrap();
    let mut reg: Register<ReadWrite> = Register::new(32, 0);
    reg.modify(Field::new(on32, 1).unwrap() + Field::new(dead32, 1).unwrap() + blue32);
    assert_eq!(reg.read(), 11);
    assert_eq!(reg.get_field(color32).unwrap(), blue32);
}

#[test]
fn overwrite() {
    // The register is seeded with its initial value when it is made.
    let mut reg: Register<ReadWrite> = Register::new(32, 1);
    reg.write(0);
    assert_eq!(reg.read(), 0);
    let fresh: Register<ReadWrite> = Register::new(32, 0);
    assert_eq!(fresh.read(), 0);
}

#[test]
fn fake_main() {
    let status_on = FieldDescriptor::new(32, 1, 0).unwrap();
    let status_dead = FieldDescriptor::new(32, 1, 1).unwrap();
    let status_color = FieldDescriptor::new(32, 3, 2).unwrap();
    let please_wait = FieldDescriptor::new(32, 1, 0).unwrap();
    let reason = FieldDescriptor::new(32, 2, 1).unwrap();
    let rng_data = FieldDescriptor::new(32, 16, 2).unwrap();

    let mut status: Register<ReadWrite> = Register::new(32, 0);
    let mut wait: Register<WriteOnly> = Register::new(32, 0);
    let rng: Register<ReadOnly> = Register::new(32, 4 << 3);

    let data = rng.get_field(rng_data).unwrap();
    if data.val() > 4 {
        status.modify(Field::new(status_on, 1).unwrap() + Field::new(status_color, 2).unwrap());
        wait.modify(Field::new(please_wait, 1).unwrap() + Field::new(reason, 1).unwrap());
    } else {
        status.modify(Field::new(status_dead, 1).unwrap());
    }
    println!("done.\n  vals: {} {} {}", status.read(), 3, rng.read());
    assert_eq!(data.val(), 8);
    assert_eq!(status.read(), 9);
}

// Modifying Color to Blue from zero gives 8, and reading Color gives 2.
#[test]
fn modify_color_blue_from_zero() {
    let mut reg: Register<ReadWrite> = Register::new(8, 0);
    reg.modify(blue());
    assert_eq!(reg.read(), 8);
    assert_eq!(reg.get_field(color()).unwrap().val(), 2);
}

// Dead = 1, Color = Blue and On = 0 in one write gives 10.
#[test]
fn modify_three_fields_at_once() {
    let mut reg: Register<ReadWrite> = Register::new(8, 0);
    reg.modify(Field::new(dead(), 1).unwrap() + blue() + Field::new(on(), 0).unwrap());
    assert_eq!(reg.read(), 10);
}

// `is_set` on a one-bit field is true exactly when it holds 1.
#[test]
fn is_set_on_one_bit_field() {
    let mut reg: Register<ReadWrite> = Register::new(8, 0);
    assert!(!reg.is_set(dead()));
    assert!(!Field::new(dead(), 0).unwrap().is_set());
    reg.modify(set(dead()));
    assert!(reg.is_set(dead()));
    assert!(Field::new(dead(), 1).unwrap().is_set());
    assert!(!reg.is_set(on()));
    assert!(reg.extract().is_set(dead()));
}

// A value that does not fit in the field is refused and the
// register keeps its value.
#[test]
fn out_of_range_field_is_refused() {
    let mut reg: Register<ReadWrite> = Register::new(8, 5);
    assert!(Field::new(color(), 8).is_none());
    assert!(Field::new(dead(), 2).is_none());
    assert!(Field::new(color(), 7).is_some());
    assert!(blue().set(9).is_none());
    if let Some(f) = Field::new(color(), 8) {
        reg.modify(f);
    }
    assert_eq!(reg.read(), 5);
}

#[test]
fn descriptor_mask_formula() {
    let d = FieldDescriptor::new(16, 4, 3).unwrap();
    assert_eq!(d.mask(), ((1u64 << 4) - 1) << 3);
    assert_eq!(d.mask(), 0b111_1000);
    assert_eq!(d.offset(), 3);
    assert_eq!(d.width(), 4);
    assert_eq!(d.register_width(), 16);
    assert_eq!(d.max(), 15);
    let whole = FieldDescriptor::new(64, 64, 0).unwrap();
    assert_eq!(whole.mask(), u64::MAX);
    assert_eq!(whole.max(), u64::MAX);
    let top = FieldDescriptor::new(64, 1, 63).unwrap();
    assert_eq!(top.mask(), 1u64 << 63);
}

#[test]
fn descriptor_rejects_bad_layouts() {
    assert!(FieldDescriptor::new(8, 0, 0).is_none());
    assert!(FieldDescriptor::new(8, 3, 6).is_none());
    assert!(FieldDescriptor::new(8, 9, 0).is_none());
    assert!(FieldDescriptor::new(12, 1, 0).is_none());
    assert!(FieldDescriptor::new(8, 3, 5).is_some());
    assert!(FieldDescriptor::new(64, 1, 64).is_none());
}

#[test]
fn combine_order_does_not_matter() {
    let a = set(on());
    let b = blue();
    let c = set(dead());
    let ab = a + b;
    let ba = b + a;
    assert_eq!(ab, ba);
    assert_eq!(ab.mask(), 0b11101);
    assert_eq!(ab.in_position(), 0b01001);
    let left = (a + b) + c;
    let right = a + (b + c);
    assert_eq!(left, right);
    assert_eq!(left.mask(), 0b11111);
    assert_eq!(left.in_position(), 0b01011);
    let grouped = (a + b) + (c + Field::zero(color()));
    assert_eq!(grouped.mask(), 0b11111);
}

#[test]
fn modify_keeps_bits_outside_mask() {
    let mut reg: Register<ReadWrite> = Register::new(8, 0b1110_0011);
    let before = reg.read();
    let p = Field::new(color(), 5).unwrap();
    reg.modify(p);
    let after = reg.read();
    assert_eq!(after & !p.mask(), before & !p.mask());
    assert_eq!(after & p.mask(), p.in_position());
    assert_eq!(after, 0b1111_0111);
}

#[test]
fn read_after_write() {
    let mut reg: Register<ReadWrite> = Register::new(16, 0);
    reg.write(0xBEEF);
    assert_eq!(reg.read(), 0xBEEF);
    let mut wo: Register<WriteOnly> = Register::new(8, 0);
    wo.write(0x7F);
    assert_eq!(wo.width(), 8);
}

#[test]
fn get_field_after_modify() {
    let mut reg: Register<ReadWrite> = Register::new(8, 0xFF);
    reg.modify(Field::new(color(), 3).unwrap());
    assert_eq!(reg.get_field(color()).unwrap().val(), 3);
    assert_eq!(reg.get_field(on()).unwrap().val(), 1);
    assert_eq!(reg.read(), 0b1110_1111);
}

#[test]
fn snapshot_answers_queries() {
    let mut reg: Register<ReadWrite> = Register::new(8, 0);
    reg.modify(set(on()) + blue());
    let copy = reg.extract();
    reg.write(0);
    assert_eq!(copy.read(), 9);
    assert_eq!(copy.extract().read(), 9);
    assert_eq!(copy.get_field(color()).unwrap(), blue());
    assert!(copy.matches_any(set(dead()) + set(on())));
    assert!(!copy.matches_all(set(dead()) + set(on())));
    assert!(copy.matches_all(blue()));
    assert!(!copy.is_set(color()));
    assert!(copy.is_set(on()));
}

#[test]
fn field_values_and_equality() {
    let f = Field::new(color(), 4).unwrap();
    assert_eq!(f.val(), 4);
    assert_eq!(f.descriptor(), color());
    assert_eq!(f.in_position(), 16);
    assert_eq!(f.mask(), 28);
    let g = f.set(4).unwrap();
    assert_eq!(f, g);
    let h = f.set(1).unwrap();
    assert_ne!(f, h);
    assert_eq!(h.val(), 1);
    assert!(Field::new(color(), 7).unwrap().is_set());
    assert_eq!(Field::zero(color()).val(), 0);
}
