use ocelotter::klass_repo::SharedKlassRepo;
use ocelotter::object::OtObj;
use ocelotter::opcode::num_params;
use ocelotter::opcode;
use ocelotter::frame::{branch_to, read_i16_branch_offset, read_i32_branch_offset};
use ocelotter::otfield::OtField;
use ocelotter::constant_pool::{ACC_STATIC, CpAttr};
use ocelotter::simple_heap::SharedSimpleHeap;
use ocelotter::values::JvmValue;

#[test]
fn heap_starts_with_null_and_hands_out_fresh_ids() {
    let mut heap = SharedSimpleHeap::of();
    assert_eq!(heap.len(), 1);
    assert!(heap.get_obj(0).is_null());
    let a = heap.allocate_int_arr(3);
    let b = heap.allocate_long_arr(2);
    assert_eq!((a, b), (1, 2));
    assert_eq!(heap.get_obj(a).get_id(), a);
    assert_eq!(heap.get_obj(b).get_id(), b);
    assert_eq!(heap.arraylength(a), 3);
    assert_eq!(heap.get_obj(a).get_klassid(), 2);
}

#[test]
fn array_loads_give_back_stores() {
    let mut heap = SharedSimpleHeap::of();
    let a = heap.allocate_int_arr(3);
    heap.iastore(a, 1, 17);
    assert_eq!(heap.iaload(a, 1), 17);
    assert_eq!(heap.iaload(a, 0), 0);
    let c = heap.allocate_char_arr(2);
    heap.castore(c, 0, 65);
    assert_eq!(heap.caload(c, 0), 65);
    let d = heap.allocate_double_arr(1);
    heap.dastore(d, 0, 2.5f64.to_bits());
    assert_eq!(f64::from_bits(heap.daload(d, 0)), 2.5);
    let r = heap.allocate_ref_arr(2);
    heap.aastore(r, 1, a);
    assert_eq!(heap.aaload(r, 1), a);
    let by = heap.allocate_byte_arr(1);
    heap.bastore(by, 0, -3);
    assert_eq!(heap.baload(by, 0), -3);
    let s = heap.allocate_short_arr(1);
    heap.sastore(s, 0, -300);
    assert_eq!(heap.saload(s, 0), -300);
    let f = heap.allocate_float_arr(1);
    heap.fastore(f, 0, 1.5f32.to_bits());
    assert_eq!(f32::from_bits(heap.faload(f, 0)), 1.5);
    let l = heap.allocate_long_arr(1);
    heap.lastore(l, 0, -9);
    assert_eq!(heap.laload(l, 0), -9);
}

#[test]
fn objects_keep_their_fields() {
    let mut o = OtObj::obj_of(3, 7, vec![JvmValue::Int(0), JvmValue::Long(0)]);
    o.put_field(1, JvmValue::Long(5));
    assert_eq!(o.get_field_value(1), JvmValue::Long(5));
    assert_eq!(o.get_field_value(0), JvmValue::Int(0));
    assert_eq!(o.get_id(), 7);
    assert_eq!(o.get_klassid(), 3);
    assert!(!o.is_null());
    assert_eq!(OtObj::int_arr_of(4, 1).length(), 4);
}

#[test]
fn klass_names_from_member_references() {
    let s = |x: &str| x.to_string();
    assert_eq!(SharedKlassRepo::klass_name_from_fq(&s("java/lang/String.length:()I")), Some(s("java/lang/String")));
    assert_eq!(SharedKlassRepo::klass_name_from_fq(&s("Adder.count:I")), Some(s("Adder")));
    assert_eq!(SharedKlassRepo::klass_name_from_fq(&s("9a/b.c")), Some(s("a/b")));
    assert_eq!(SharedKlassRepo::klass_name_from_fq(&s("a/.b")), None);
    assert_eq!(SharedKlassRepo::klass_name_from_fq(&s("NoDot")), None);
    assert_eq!(SharedKlassRepo::klass_name_from_dotted_fq(&s("java.lang.Object")), Some(s("java.lang")));
    assert_eq!(SharedKlassRepo::klass_name_from_dotted_fq(&s("Object")), Some(s("")));
    assert_eq!(SharedKlassRepo::klass_name_from_dotted_fq(&s("  a.b.c.d")), Some(s("a.b.c")));
    assert_eq!(SharedKlassRepo::klass_name_from_dotted_fq(&s("123")), None);
}

#[test]
fn branch_offsets_and_targets() {
    let code = [0u8, 0xff, 0xfe, 0x00, 0x01];
    assert_eq!(read_i16_branch_offset(&code, 1), -2);
    assert_eq!(read_i32_branch_offset(&code, 1), -0x1_ffff);
    assert_eq!(read_i32_branch_offset(&code, 0), 0x00ff_fe00);
    let mut current = 5usize;
    branch_to(&mut current, -2);
    assert_eq!(current, 2);
    branch_to(&mut current, 10);
    assert_eq!(current, 11);
}

#[test]
fn operand_counts() {
    assert_eq!(num_params(opcode::BIPUSH), 1);
    assert_eq!(num_params(opcode::SIPUSH), 2);
    assert_eq!(num_params(opcode::IINC), 2);
    assert_eq!(num_params(opcode::IADD), 0);
    assert_eq!(num_params(opcode::GOTO_W), 0);
}

#[test]
fn fields_report_an_empty_name() {
    let f = OtField::of("K".to_string(), "x".to_string(), "J".to_string(), ACC_STATIC, 1, 2);
    f.set_attr(0, CpAttr::of(3));
    assert_eq!(f.get_name(), "");
    assert_eq!(f.get_fq_name_desc(), "K.x:J");
    assert!(f.is_static());
    assert_eq!(f.get_default(), JvmValue::Long(0));
}

#[test]
fn a_field_prints_its_descriptor_index() {
    let f = OtField::of("Foo".to_string(), "x".to_string(), "I".to_string(), 0, 5, 6);
    assert_eq!(f.show(), "Foo.x:6");
    let g = OtField::of("Foo".to_string(), "y".to_string(), "J".to_string(), 0, 5, 1234);
    assert_eq!(g.show(), "Foo.y:1234");
    assert_eq!(ocelotter::strings::decimal(0), "0");
    assert_eq!(ocelotter::strings::decimal(65535), "65535");
}

#[test]
fn clock_millis_become_a_long() {
    assert_eq!(ocelotter::native_methods::millis_value(1234), JvmValue::Long(1234));
    assert_eq!(ocelotter::native_methods::millis_value(1u128 << 64), JvmValue::Long(0));
}

#[test]
fn class_names_take_any_decimal_digit() {
    let s = |x: &str| x.to_string();
    assert_eq!(
        SharedKlassRepo::klass_name_from_fq(&s("pkg/Cl\u{0661}\u{0662}.x:I")),
        Some(s("pkg/Cl\u{0661}\u{0662}"))
    );
    assert_eq!(
        SharedKlassRepo::klass_name_from_dotted_fq(&s("pkg.A\u{ff19}.m")),
        Some(s("pkg.A\u{ff19}"))
    );
    // A digit cannot begin a name.
    assert_eq!(SharedKlassRepo::klass_name_from_fq(&s("\u{0661}b.c")), Some(s("b")));
}
