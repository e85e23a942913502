use ocelotter::constant_pool::{ACC_NATIVE, ACC_PUBLIC, ACC_STATIC, CpEntry};
use ocelotter::error::JvmError;
use ocelotter::interpreter::{exec_method, start_new_jthread};
use ocelotter::klass_parser::OtKlassParser;
use ocelotter::klass_repo::SharedKlassRepo;
use ocelotter::local_vars::InterpLocalVars;
use ocelotter::native_methods::NativeMethod;
use ocelotter::opcode;
use ocelotter::options::Options;
use ocelotter::simple_heap::SharedSimpleHeap;
use ocelotter::values::JvmValue;

// A small writer of class files.

fn u16be(out: &mut Vec<u8>, v: u16) {
    out.push((v >> 8) as u8);
    out.push(v as u8);
}

fn u32be(out: &mut Vec<u8>, v: u32) {
    out.extend_from_slice(&v.to_be_bytes());
}

fn utf8(out: &mut Vec<u8>, s: &str) {
    out.push(1);
    u16be(out, s.len() as u16);
    out.extend_from_slice(s.as_bytes());
}

fn class_ref(out: &mut Vec<u8>, idx: u16) {
    out.push(7);
    u16be(out, idx);
}

fn pair(out: &mut Vec<u8>, tag: u8, a: u16, b: u16) {
    out.push(tag);
    u16be(out, a);
    u16be(out, b);
}

fn method(out: &mut Vec<u8>, flags: u16, name: u16, desc: u16, code_attr: u16, code: &[u8]) {
    u16be(out, flags);
    u16be(out, name);
    u16be(out, desc);
    u16be(out, 1);
    u16be(out, code_attr);
    u32be(out, 12 + code.len() as u32);
    u16be(out, 4);
    u16be(out, 4);
    u32be(out, code.len() as u32);
    out.extend_from_slice(code);
    u16be(out, 0);
    u16be(out, 0);
}

// The class `Adder`:
//   static int count;
//   static int seven() { return 7; }
//   static int main2(String[] a) { return seven() + 2; }
//   static int big() { return 44444; }          (an ldc)
//   static int counted() { return count; }      (a getstatic)
//   static native int hash();
fn adder_class() -> Vec<u8> {
    let mut b = vec![0xca, 0xfe, 0xba, 0xbe, 0, 0, 0, 52];
    u16be(&mut b, 22); // pool count: slots 1..=21
    utf8(&mut b, "Adder"); // 1
    class_ref(&mut b, 1); // 2
    utf8(&mut b, "java/lang/Object"); // 3
    class_ref(&mut b, 3); // 4
    utf8(&mut b, "seven"); // 5
    utf8(&mut b, "()I"); // 6
    utf8(&mut b, "Code"); // 7
    utf8(&mut b, "count"); // 8
    utf8(&mut b, "I"); // 9
    pair(&mut b, 12, 5, 6); // 10: seven:()I
    pair(&mut b, 10, 2, 10); // 11: Adder.seven:()I
    utf8(&mut b, "main2"); // 12
    utf8(&mut b, "([Ljava/lang/String;)I"); // 13
    b.push(3);
    u32be(&mut b, 44444); // 14: Integer
    b.push(5);
    u32be(&mut b, 0);
    u32be(&mut b, 7); // 15 (and 16): Long 7
    pair(&mut b, 12, 8, 9); // 17: count:I
    pair(&mut b, 9, 2, 17); // 18: Adder.count:I
    utf8(&mut b, "big"); // 19
    utf8(&mut b, "counted"); // 20
    utf8(&mut b, "hash"); // 21
    u16be(&mut b, ACC_PUBLIC); // flags
    u16be(&mut b, 2); // this
    u16be(&mut b, 4); // super
    u16be(&mut b, 0); // interfaces
    u16be(&mut b, 1); // fields
    u16be(&mut b, ACC_STATIC);
    u16be(&mut b, 8);
    u16be(&mut b, 9);
    u16be(&mut b, 0);
    u16be(&mut b, 5); // methods
    let st = ACC_PUBLIC | ACC_STATIC;
    method(&mut b, st, 5, 6, 7, &[opcode::BIPUSH, 7, opcode::IRETURN]);
    method(
        &mut b,
        st,
        12,
        13,
        7,
        &[opcode::INVOKESTATIC, 0, 11, opcode::ICONST_2, opcode::IADD, opcode::IRETURN],
    );
    method(&mut b, st, 19, 6, 7, &[opcode::LDC, 14, opcode::IRETURN]);
    method(&mut b, st, 20, 6, 7, &[opcode::GETSTATIC, 0, 18, opcode::IRETURN]);
    u16be(&mut b, st | ACC_NATIVE);
    u16be(&mut b, 21);
    u16be(&mut b, 6);
    u16be(&mut b, 0);
    u16be(&mut b, 0); // class attributes
    b
}

fn parsed_adder() -> OtKlassParser {
    let mut parser = OtKlassParser::of(adder_class(), "Adder.class".to_string());
    parser.parse().expect("Adder parses");
    parser
}

fn adder_repo() -> SharedKlassRepo {
    let mut parser = parsed_adder();
    let k = parser.klass().expect("Adder builds");
    let mut repo = SharedKlassRepo::of();
    repo.add_klass(&k).expect("Adder is added");
    repo
}

#[test]
fn parser_reads_pool_names_and_members() {
    let mut parser = parsed_adder();
    assert_eq!(21, parser.get_pool_size());
    let k = parser.klass().unwrap();
    assert_eq!("Adder", k.get_name());
    assert_eq!("java/lang/Object", k.get_super_name());
    assert_eq!(5, k.get_methods().len());
    assert_eq!(ACC_PUBLIC, k.get_flags());
    assert_eq!(23, k.cp_len());
    assert!(matches!(k.lookup_cp(14), CpEntry::Integer(44444)));
    assert!(matches!(k.lookup_cp(16), CpEntry::Long(7)));
    assert!(matches!(k.lookup_cp(15), CpEntry::Integer(0)));
    assert_eq!(k.cp_as_string(18).unwrap(), "Adder.count:I");
    let m = k.get_method_by_name_and_desc(&"Adder.seven:()I".to_string()).unwrap();
    assert_eq!(m.get_code(), vec![opcode::BIPUSH, 7, opcode::IRETURN]);
    assert_eq!(ACC_PUBLIC | ACC_STATIC, m.get_flags());
    assert_eq!(k.get_mentioned_klasses().unwrap(), vec!["Adder".to_string(), "java/lang/Object".to_string()]);
}

#[test]
fn parser_reports_bad_input() {
    let mut p = OtKlassParser::of(vec![0xca, 0xfe, 0xba, 0xbf, 0, 0, 0, 0, 0, 1], "x".to_string());
    assert_eq!(p.parse(), Err(JvmError::BadMagic));
    let mut p = OtKlassParser::of(vec![0xca, 0xfe, 0xba], "x".to_string());
    assert_eq!(p.parse(), Err(JvmError::UnexpectedEndOfInput));
    let mut bytes = adder_class();
    bytes.truncate(bytes.len() - 20);
    let mut p = OtKlassParser::of(bytes, "x".to_string());
    assert_eq!(p.parse(), Err(JvmError::UnexpectedEndOfInput));
    let mut p = OtKlassParser::of(vec![0xca, 0xfe, 0xba, 0xbe, 0, 0, 0, 52, 0, 2, 2], "x".to_string());
    assert_eq!(p.parse(), Err(JvmError::UnsupportedConstantPoolTag(2)));
    let mut p = OtKlassParser::of(
        vec![0xca, 0xfe, 0xba, 0xbe, 0, 0, 0, 52, 0, 2, 1, 0, 1, 0xff],
        "x".to_string(),
    );
    assert_eq!(p.parse(), Err(JvmError::InvalidUtf8));
    let mut p = OtKlassParser::of(vec![0xca, 0xfe, 0xba, 0xbe, 0, 0, 0, 52, 0, 0], "x".to_string());
    assert_eq!(p.parse(), Err(JvmError::BadConstantPoolIndex(0)));
}

#[test]
fn klass_needs_resolvable_names() {
    // A pool of one UTF-8 entry, with own and super index 1.
    let mut b = vec![0xca, 0xfe, 0xba, 0xbe, 0, 0, 0, 52, 0, 2];
    utf8(&mut b, "A");
    u16be(&mut b, 0);
    u16be(&mut b, 1);
    u16be(&mut b, 1);
    u16be(&mut b, 0);
    u16be(&mut b, 0);
    u16be(&mut b, 0);
    let mut p = OtKlassParser::of(b, "A.class".to_string());
    assert_eq!(p.parse(), Ok(()));
    assert_eq!(p.klass().err(), Some(JvmError::BadConstantPoolIndex(1)));
}

#[test]
fn invocation_through_the_repository() {
    let mut repo = adder_repo();
    let mut heap = SharedSimpleHeap::of();
    let r = start_new_jthread(&mut repo, &mut heap, "Adder".to_string());
    assert_eq!(r, Ok(Some(JvmValue::Int(9))));
}

#[test]
fn ldc_and_getstatic() {
    let mut repo = adder_repo();
    let mut heap = SharedSimpleHeap::of();
    let k = repo.lookup_klass(&"Adder".to_string()).unwrap();
    let big = k.get_method_by_name_and_desc(&"Adder.big:()I".to_string()).unwrap();
    let mut vars = InterpLocalVars::of(5);
    assert_eq!(exec_method(&mut repo, &mut heap, big, &mut vars), Ok(Some(JvmValue::Int(44444))));
    let counted = k.get_method_by_name_and_desc(&"Adder.counted:()I".to_string()).unwrap();
    let mut vars = InterpLocalVars::of(5);
    assert_eq!(exec_method(&mut repo, &mut heap, counted, &mut vars), Ok(Some(JvmValue::Int(0))));
}

#[test]
fn native_methods_need_native_code() {
    let mut repo = adder_repo();
    let mut heap = SharedSimpleHeap::of();
    let k = repo.lookup_klass(&"Adder".to_string()).unwrap();
    let hash = k.get_method_by_name_and_desc(&"Adder.hash:()I".to_string()).unwrap();
    assert!(hash.is_native());
    let mut vars = InterpLocalVars::of(5);
    assert_eq!(exec_method(&mut repo, &mut heap, hash, &mut vars), Err(JvmError::NativeCodeMissing));
    repo.install_native_method(&"Adder".to_string(), &"hash:()I".to_string(), NativeMethod::ObjectHashCode)
        .unwrap();
    let k = repo.lookup_klass(&"Adder".to_string()).unwrap();
    let hash = k.get_method_by_name_and_desc(&"Adder.hash:()I".to_string()).unwrap();
    let mut vars = InterpLocalVars::of(5);
    assert_eq!(exec_method(&mut repo, &mut heap, hash, &mut vars), Ok(Some(JvmValue::Int(255))));
    assert_eq!(
        repo.install_native_method(&"Adder".to_string(), &"nope:()I".to_string(), NativeMethod::ShutdownExit),
        Err(JvmError::MethodNotFound)
    );
}

#[test]
fn repository_states() {
    let repo = adder_repo();
    assert!(repo.lookup_klass(&"Adder".to_string()).is_ok());
    assert_eq!(repo.lookup_klass(&"java/lang/Object".to_string()).err(), Some(JvmError::KlassNotLoaded));
    assert_eq!(repo.lookup_klass(&"Nope".to_string()).err(), Some(JvmError::KlassNotFound));
    let f = repo.lookup_static_field(&"Adder".to_string(), 18).unwrap();
    assert_eq!(f.get_name(), "");
    assert_eq!(f.get_klass_name(), "Adder");
    assert_eq!(
        repo.lookup_instance_field(&"Adder".to_string(), 18).err(),
        Some(JvmError::FieldNotFound)
    );
    let m = repo.lookup_method_exact(&"Adder".to_string(), "Adder.seven:()I".to_string()).unwrap();
    assert_eq!(m.get_code(), vec![opcode::BIPUSH, 7, opcode::IRETURN]);
    assert_eq!(
        repo.lookup_method_exact(&"Adder".to_string(), "Adder.eight:()I".to_string()).err(),
        Some(JvmError::MethodNotFound)
    );
    assert_eq!(repo.lookup_method_virtual(&"Adder".to_string(), 11).unwrap().get_klass_name(), "DUMMY_KLASS");
    assert_eq!(repo.get_field_offset(1, f.clone()), 0);
}

#[test]
fn adding_a_class_again_keeps_the_first() {
    let mut repo = adder_repo();
    let copy = repo.clone();
    let mut parser = parsed_adder();
    let k = parser.klass().unwrap();
    assert_eq!(repo.add_klass(&k), Ok(()));
    assert_eq!(
        repo.lookup_klass(&"Adder".to_string()).unwrap().get_methods().len(),
        copy.lookup_klass(&"Adder".to_string()).unwrap().get_methods().len()
    );
}

#[test]
fn archives_load_only_class_files() {
    let mut repo = SharedKlassRepo::of();
    let entries = vec![
        ("META-INF/MANIFEST.MF".to_string(), vec![1, 2, 3]),
        ("Adder.class".to_string(), adder_class()),
    ];
    assert_eq!(repo.add_klasses_from_archive(&entries), Ok(()));
    assert!(repo.lookup_klass(&"Adder".to_string()).is_ok());
    let bad = vec![("Bad.class".to_string(), vec![0u8, 1, 2])];
    assert_eq!(repo.add_klasses_from_archive(&bad), Err(JvmError::UnexpectedEndOfInput));
}

#[test]
fn bootstrap_needs_the_system_classes() {
    let mut repo = SharedKlassRepo::of();
    let entries = vec![("Adder.class".to_string(), adder_class())];
    let mut heap = SharedSimpleHeap::of();
    assert_eq!(repo.bootstrap(&mut heap, &entries), Err(JvmError::KlassNotLoaded));
    let options = Options { classpath: None, classname: vec!["Adder".to_string()] };
    assert_eq!(options.f_name(), "Adder");
    assert_eq!(options.fq_klass_name(), "Adder.class");
    assert!(SharedKlassRepo::start(&options, &mut heap, &entries, &vec![]).is_err());
}

#[test]
fn archive_stops_at_first_failure() {
    let mut repo = SharedKlassRepo::of();
    let entries = vec![
        ("Bad.class".to_string(), vec![0u8, 1, 2]),
        ("Adder.class".to_string(), adder_class()),
    ];
    assert_eq!(repo.add_klasses_from_archive(&entries), Err(JvmError::UnexpectedEndOfInput));
    assert_eq!(repo.lookup_klass(&"Adder".to_string()).err(), Some(JvmError::KlassNotFound));
    let mut repo = SharedKlassRepo::of();
    assert_eq!(repo.add_klass_bytes("Bad.class".to_string(), vec![1u8, 2, 3, 4]), Err(JvmError::BadMagic));
    assert_eq!(repo.lookup_klass(&"Adder".to_string()).err(), Some(JvmError::KlassNotFound));
}

// A class `name` with superclass `sup` and the given static methods
// (name, descriptor, bytecode); a method with no bytecode is native.
fn simple_class(name: &str, sup: &str, methods: &[(&str, &str, Vec<u8>)]) -> Vec<u8> {
    let mut b = vec![0xca, 0xfe, 0xba, 0xbe, 0, 0, 0, 52];
    u16be(&mut b, 6 + 2 * methods.len() as u16);
    utf8(&mut b, name); // 1
    class_ref(&mut b, 1); // 2
    utf8(&mut b, sup); // 3
    class_ref(&mut b, 3); // 4
    utf8(&mut b, "Code"); // 5
    for (n, d, _) in methods {
        utf8(&mut b, n);
        utf8(&mut b, d);
    }
    u16be(&mut b, ACC_PUBLIC);
    u16be(&mut b, 2);
    u16be(&mut b, 4);
    u16be(&mut b, 0); // interfaces
    u16be(&mut b, 0); // fields
    u16be(&mut b, methods.len() as u16);
    for (i, (_, _, code)) in methods.iter().enumerate() {
        let name_idx = 6 + 2 * i as u16;
        if code.is_empty() {
            u16be(&mut b, ACC_PUBLIC | ACC_NATIVE);
            u16be(&mut b, name_idx);
            u16be(&mut b, name_idx + 1);
            u16be(&mut b, 0);
        } else {
            method(&mut b, ACC_PUBLIC | ACC_STATIC, name_idx, name_idx + 1, 5, code);
        }
    }
    u16be(&mut b, 0); // class attributes
    b
}

fn system_entries(with_file_descriptor: bool) -> Vec<(String, Vec<u8>)> {
    let mut entries = vec![
        (
            "java/lang/Object.class".to_string(),
            simple_class("java/lang/Object", "java/lang/Object", &[("hashCode", "()I", vec![])]),
        ),
        (
            "java/lang/System.class".to_string(),
            simple_class("java/lang/System", "java/lang/Object", &[("currentTimeMillis", "()J", vec![])]),
        ),
    ];
    if with_file_descriptor {
        entries.push((
            "java/io/FileDescriptor.class".to_string(),
            simple_class(
                "java/io/FileDescriptor",
                "java/lang/Object",
                &[("<clinit>", "()V", vec![opcode::ICONST_1, opcode::ISTORE_0, opcode::RETURN])],
            ),
        ));
    }
    entries
}

#[test]
fn bootstrap_runs_the_file_descriptor_initializer() {
    let mut repo = SharedKlassRepo::of();
    let mut heap = SharedSimpleHeap::of();
    assert_eq!(repo.bootstrap(&mut heap, &system_entries(true)), Ok(()));
    let obj = repo.lookup_klass(&"java/lang/Object".to_string()).unwrap();
    let hash = obj.get_method_by_name_and_desc(&"java/lang/Object.hashCode:()I".to_string()).unwrap();
    assert_eq!(hash.get_native_code(), Some(NativeMethod::ObjectHashCode));
    // Without the class whose initializer it runs, bootstrap fails.
    let mut repo = SharedKlassRepo::of();
    assert_eq!(repo.bootstrap(&mut heap, &system_entries(false)), Err(JvmError::KlassNotFound));
    // An initializer that fails makes bootstrap fail.
    let mut entries = system_entries(false);
    entries.push((
        "java/io/FileDescriptor.class".to_string(),
        simple_class("java/io/FileDescriptor", "java/lang/Object", &[("<clinit>", "()V", vec![0xcb])]),
    ));
    let mut repo = SharedKlassRepo::of();
    assert_eq!(repo.bootstrap(&mut heap, &entries), Err(JvmError::IllegalOpcode(0xcb)));
}
