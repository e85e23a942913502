use ocelotter::error::JvmError;
use ocelotter::interpreter::{exec_bytecode_method, JThread, StepOutcome};
use ocelotter::klass_repo::SharedKlassRepo;
use ocelotter::local_vars::InterpLocalVars;
use ocelotter::opcode;
use ocelotter::otklass::OtKlass;
use ocelotter::simple_heap::SharedSimpleHeap;
use ocelotter::values::JvmValue;

fn run_simple_bytecode(buf: &Vec<u8>) -> Result<Option<JvmValue>, JvmError> {
    let mut repo = SharedKlassRepo::of();
    let mut heap = SharedSimpleHeap::of();
    let mut lvt = InterpLocalVars::of(10);
    exec_bytecode_method(&mut repo, &mut heap, "DUMMY".to_string(), buf, &mut lvt)
}

fn execute_simple_bytecode(buf: &Vec<u8>) -> JvmValue {
    run_simple_bytecode(buf)
        .expect("bytecode should run")
        .unwrap_or(JvmValue::ObjRef(0))
}

#[test]
fn bc_adds_to_two() {
    let first_test = vec![
        opcode::ICONST_1,
        opcode::ICONST_1,
        opcode::IADD,
        opcode::IRETURN,
    ];
    let ret = match execute_simple_bytecode(&first_test) {
        JvmValue::Int(i) => i,
        _ => {
            println!("Unexpected, non-integer value encountered");
            0
        }
    };
    assert_eq!(2, ret);
}

#[test]
fn adds_to_two() {
    let first_test = vec![
        opcode::ICONST_1,
        opcode::ICONST_1,
        opcode::IADD,
        opcode::IRETURN,
    ];
    let ret = match execute_simple_bytecode(&first_test) {
        JvmValue::Int(i) => i,
        _ => {
            println!("Unexpected, non-integer value encountered");
            0
        }
    };
    assert_eq!(2, ret);
}

#[test]
fn bc_iconst_dup() {
    let buf = vec![opcode::ICONST_1, opcode::DUP, opcode::IADD, opcode::IRETURN];
    let ret = match execute_simple_bytecode(&buf) {
        JvmValue::Int(i) => i,
        _ => {
            println!("Unexpected, non-integer value encountered");
            0
        }
    };
    assert_eq!(2, ret);

    let buf2 = vec![
        opcode::ICONST_1,
        opcode::DUP,
        opcode::IADD,
        opcode::DUP,
        opcode::IADD,
        opcode::IRETURN,
    ];
    let ret2 = match execute_simple_bytecode(&buf2) {
        JvmValue::Int(i) => i,
        _ => {
            println!("Unexpected, non-integer value encountered");
            0
        }
    };
    assert_eq!(4, ret2);
}

#[test]
fn bc_irem_works() {
    let buf = vec![
        opcode::ICONST_5,
        opcode::ICONST_3,
        opcode::IREM,
        opcode::IRETURN,
    ];
    let ret = match execute_simple_bytecode(&buf) {
        JvmValue::Int(i) => i,
        _ => {
            println!("Unexpected, non-integer value encountered");
            0
        }
    };
    assert_eq!(2, ret);
}

#[test]
fn bc_idiv_works() {
    let buf = vec![
        opcode::ICONST_5,
        opcode::ICONST_3,
        opcode::IDIV,
        opcode::IRETURN,
    ];
    let ret = match execute_simple_bytecode(&buf) {
        JvmValue::Int(i) => i,
        _ => {
            println!("Unexpected, non-integer value encountered");
            0
        }
    };
    assert_eq!(1, ret);
}

#[test]
fn bc_iconst_dup_nop_pop() {
    let buf = vec![
        opcode::ICONST_1,
        opcode::DUP,
        opcode::NOP,
        opcode::POP,
        opcode::IRETURN,
    ];
    let ret = match execute_simple_bytecode(&buf) {
        JvmValue::Int(i) => i,
        _ => {
            println!("Unexpected, non-integer value encountered");
            0
        }
    };
    assert_eq!(1, ret);
}

#[test]
fn bc_iconst_dup_x1() {
    let buf = vec![
        opcode::ICONST_1,
        opcode::ICONST_2,
        opcode::DUP_X1,
        opcode::IADD,
        opcode::IADD,
        opcode::IRETURN,
    ];
    let ret = match execute_simple_bytecode(&buf) {
        JvmValue::Int(i) => i,
        _ => {
            println!("Unexpected, non-integer value encountered");
            0
        }
    };
    assert_eq!(5, ret);

    let buf2 = vec![
        opcode::ICONST_1,
        opcode::ICONST_2,
        opcode::DUP_X1,
        opcode::IADD,
        opcode::DUP_X1,
        opcode::IADD,
        opcode::IADD,
        opcode::IRETURN,
    ];
    let ret2 = match execute_simple_bytecode(&buf2) {
        JvmValue::Int(i) => i,
        _ => {
            println!("Unexpected, non-integer value encountered");
            0
        }
    };
    assert_eq!(8, ret2);
}

#[test]
fn bc_ifnonnull() {
    let buf = vec![
        opcode::ICONST_1,
        opcode::ACONST_NULL,
        opcode::IFNONNULL,
        0,
        4,
        opcode::POP,
        opcode::ICONST_2,
        opcode::IRETURN,
    ];
    let ret = match execute_simple_bytecode(&buf) {
        JvmValue::Int(i) => i,
        _ => {
            println!("Unexpected, non-integer value encountered");
            0
        }
    };
    assert_eq!(2, ret);
}

#[test]
fn bc_ifnull() {
    let buf = vec![
        opcode::ICONST_1,
        opcode::ACONST_NULL,
        opcode::IFNULL,
        0,
        4,
        opcode::POP,
        opcode::ICONST_2,
        opcode::IRETURN,
    ];
    let ret = match execute_simple_bytecode(&buf) {
        JvmValue::Int(i) => i,
        _ => {
            println!("Unexpected, non-integer value encountered");
            0
        }
    };
    assert_eq!(2, ret);
}

#[test]
fn bc_ifeq() {
    let buf = vec![
        opcode::ICONST_1,
        opcode::ICONST_1,
        opcode::IADD,
        opcode::ICONST_2,
        opcode::IF_ICMPEQ,
        0,
        3,
        opcode::ICONST_4,
        opcode::ICONST_3,
        opcode::IRETURN,
    ];
    let ret = match execute_simple_bytecode(&buf) {
        JvmValue::Int(i) => i,
        _ => {
            println!("Unexpected, non-integer value encountered");
            0
        }
    };
    assert_eq!(3, ret);
}

#[test]
fn bc_goto() {
    let buf = vec![
        opcode::ICONST_1,
        opcode::ICONST_1,
        opcode::IADD,
        opcode::GOTO,
        0,
        3,
        0xff,
        opcode::IRETURN,
    ];
    let ret = match execute_simple_bytecode(&buf) {
        JvmValue::Int(i) => i,
        _ => {
            println!("Unexpected, non-integer value encountered");
            0
        }
    };
    assert_eq!(2, ret);
}

#[test]
fn bc_lrem_works() {
    let buf = vec![
        opcode::BIPUSH,
        100,
        opcode::BIPUSH,
        100,
        opcode::IMUL,
        opcode::BIPUSH,
        100,
        opcode::IMUL,
        opcode::I2L,
        opcode::LSTORE_0,
        opcode::LLOAD_0,
        opcode::LLOAD_0,
        opcode::LMUL,
        opcode::BIPUSH,
        117,
        opcode::I2L,
        opcode::LREM,
        opcode::LRETURN,
    ];
    let ret = match execute_simple_bytecode(&buf) {
        JvmValue::Long(i) => i,
        _ => {
            println!("Unexpected, non-integer value encountered");
            0
        }
    };
    assert_eq!(ret, 1);
}

#[test]
fn parse_signatures() {
    assert_eq!(0, OtKlass::parse_sig_for_args("()Z".to_string()).unwrap().len());
    assert_eq!(0, OtKlass::parse_sig_for_args("()I".to_string()).unwrap().len());
    assert_eq!(1, OtKlass::parse_sig_for_args("(I)V".to_string()).unwrap().len());
    assert_eq!(1, OtKlass::parse_sig_for_args("([I)V".to_string()).unwrap().len());
    assert_eq!(3, OtKlass::parse_sig_for_args("(D[II)V".to_string()).unwrap().len());
    assert_eq!(1, OtKlass::parse_sig_for_args("([[I)V".to_string()).unwrap().len());
    assert_eq!(
        0,
        OtKlass::parse_sig_for_args("()Ljava/lang/String;".to_string()).unwrap().len()
    );
    assert_eq!(
        1,
        OtKlass::parse_sig_for_args("(Ljava/lang/String;)I".to_string()).unwrap().len()
    );
    assert_eq!(
        1,
        OtKlass::parse_sig_for_args("([Ljava/lang/String;)I".to_string()).unwrap().len()
    );
    assert_eq!(
        2,
        OtKlass::parse_sig_for_args(
            "(Ljava/io/FileDescriptor;I)Ljava/io/FileDescriptor;".to_string()
        )
        .unwrap()
        .len()
    );
}

// Further scenarios: each instruction group, the errors, and the local
// variables left behind.

#[test]
fn returns_leave_locals_behind() {
    let buf = vec![opcode::BIPUSH, 9, opcode::ISTORE_2, opcode::RETURN];
    let mut repo = SharedKlassRepo::of();
    let mut heap = SharedSimpleHeap::of();
    let mut lvt = InterpLocalVars::of(4);
    let r = exec_bytecode_method(&mut repo, &mut heap, "DUMMY".to_string(), &buf, &mut lvt);
    assert_eq!(r, Ok(None));
    assert_eq!(lvt.load(2), JvmValue::Int(9));
    assert_eq!(lvt.load(0), JvmValue::Int(0));
}

#[test]
fn bipush_and_sipush_read_unsigned_operands() {
    let buf = vec![opcode::BIPUSH, 0xff, opcode::IRETURN];
    assert_eq!(execute_simple_bytecode(&buf), JvmValue::Int(255));
    let buf = vec![opcode::SIPUSH, 0x01, 0x02, opcode::IRETURN];
    assert_eq!(execute_simple_bytecode(&buf), JvmValue::Int(258));
}

#[test]
fn isub_subtracts_the_lower_value_from_the_top_one() {
    let buf = vec![opcode::ICONST_5, opcode::ICONST_2, opcode::ISUB, opcode::IRETURN];
    assert_eq!(execute_simple_bytecode(&buf), JvmValue::Int(-3));
}

#[test]
fn if_icmp_compares_top_with_the_value_below() {
    // 1 then 2 pushed: the top (2) is greater than the value below (1).
    let buf = vec![
        opcode::ICONST_1,
        opcode::ICONST_2,
        opcode::IF_ICMPGT,
        0,
        5,
        opcode::ICONST_0,
        opcode::IRETURN,
        opcode::ICONST_1,
        opcode::IRETURN,
    ];
    assert_eq!(execute_simple_bytecode(&buf), JvmValue::Int(1));
}

#[test]
fn iinc_adds_one() {
    let buf = vec![opcode::ICONST_3, opcode::ISTORE_1, opcode::IINC, 1, 5, opcode::ILOAD_1, opcode::IRETURN];
    assert_eq!(execute_simple_bytecode(&buf), JvmValue::Int(4));
}

#[test]
fn long_compare_and_conversions() {
    let buf = vec![opcode::LCONST_1, opcode::LCONST_0, opcode::LCMP, opcode::IRETURN];
    assert_eq!(execute_simple_bytecode(&buf), JvmValue::Int(1));
    let buf = vec![opcode::BIPUSH, 200, opcode::I2B, opcode::IRETURN];
    assert_eq!(execute_simple_bytecode(&buf), JvmValue::Byte(-56));
    let buf = vec![opcode::BIPUSH, 65, opcode::I2C, opcode::IRETURN];
    assert_eq!(execute_simple_bytecode(&buf), JvmValue::Char('A'));
}

#[test]
fn float_negation_flips_the_sign_bit() {
    let buf = vec![opcode::FCONST_2, opcode::FNEG, opcode::FRETURN];
    assert_eq!(execute_simple_bytecode(&buf), JvmValue::Float(0xc000_0000));
    assert_eq!(f32::from_bits(0xc000_0000), -2.0f32);
}

#[test]
fn swap_and_dup2() {
    let buf = vec![opcode::ICONST_1, opcode::ICONST_2, opcode::SWAP, opcode::ISUB, opcode::IRETURN];
    assert_eq!(execute_simple_bytecode(&buf), JvmValue::Int(-1));
    let buf = vec![opcode::ICONST_1, opcode::ICONST_2, opcode::DUP2, opcode::IADD, opcode::IRETURN];
    assert_eq!(execute_simple_bytecode(&buf), JvmValue::Int(2));
}

#[test]
fn arrays_store_and_load() {
    let buf = vec![
        opcode::ICONST_3,
        opcode::NEWARRAY,
        10,
        opcode::DUP,
        opcode::ICONST_1,
        opcode::BIPUSH,
        42,
        opcode::IASTORE,
        opcode::ICONST_1,
        opcode::IALOAD,
        opcode::IRETURN,
    ];
    assert_eq!(execute_simple_bytecode(&buf), JvmValue::Int(42));
    let buf = vec![opcode::ICONST_4, opcode::NEWARRAY, 8, opcode::ARRAYLENGTH, opcode::IRETURN];
    assert_eq!(execute_simple_bytecode(&buf), JvmValue::Int(4));
}

#[test]
fn reserved_instructions_end_with_false() {
    let buf = vec![opcode::ICONST_1, opcode::BREAKPOINT];
    assert_eq!(execute_simple_bytecode(&buf), JvmValue::Boolean(false));
}

#[test]
fn errors_are_reported() {
    assert_eq!(run_simple_bytecode(&vec![opcode::IADD]), Err(JvmError::StackUnderflow));
    assert_eq!(
        run_simple_bytecode(&vec![opcode::ICONST_1, opcode::ICONST_0, opcode::IDIV]),
        Err(JvmError::ArithmeticError)
    );
    assert_eq!(
        run_simple_bytecode(&vec![opcode::LCONST_1, opcode::ICONST_1, opcode::IADD]),
        Err(JvmError::TypeMismatch)
    );
    assert_eq!(run_simple_bytecode(&vec![opcode::ICONST_1]), Err(JvmError::CodeOverrun));
    assert_eq!(run_simple_bytecode(&vec![0xba]), Err(JvmError::IllegalOpcode(0xba)));
    assert_eq!(
        run_simple_bytecode(&vec![opcode::FCONST_1, opcode::FCONST_1, opcode::FADD]),
        Err(JvmError::FloatingPoint(opcode::FADD))
    );
    assert_eq!(
        run_simple_bytecode(&vec![opcode::ICONST_0, opcode::IFEQ, 0xff, 0xf0]),
        Err(JvmError::NegativeBranchTarget)
    );
    assert_eq!(
        run_simple_bytecode(&vec![opcode::GOTO, 0xff, 0xf0]),
        Err(JvmError::NegativeBranchTarget)
    );
    assert_eq!(
        run_simple_bytecode(&vec![opcode::ILOAD, 20]),
        Err(JvmError::LocalIndexOutOfRange)
    );
    assert_eq!(
        run_simple_bytecode(&vec![opcode::ICONST_M1, opcode::NEWARRAY, 10]),
        Err(JvmError::NegativeArraySize)
    );
    assert_eq!(
        run_simple_bytecode(&vec![opcode::ICONST_1, opcode::NEWARRAY, 3]),
        Err(JvmError::UnsupportedArrayType)
    );
    assert_eq!(
        run_simple_bytecode(&vec![
            opcode::ICONST_1,
            opcode::NEWARRAY,
            10,
            opcode::ICONST_1,
            opcode::IALOAD
        ]),
        Err(JvmError::IndexOutOfRange)
    );
    assert_eq!(
        run_simple_bytecode(&vec![opcode::ICONST_1, opcode::NEWARRAY, 10, opcode::ICONST_0, opcode::LALOAD]),
        Err(JvmError::WrongObjectKind)
    );
    assert_eq!(
        run_simple_bytecode(&vec![opcode::BIPUSH, 9, opcode::ICONST_0, opcode::IALOAD]),
        Err(JvmError::TypeMismatch)
    );
    assert_eq!(
        run_simple_bytecode(&vec![opcode::LDC, 1]),
        Err(JvmError::KlassNotFound)
    );
    assert_eq!(
        run_simple_bytecode(&vec![opcode::BIPUSH, 0x7f, opcode::BIPUSH, 0x7f, opcode::ISHL]),
        Err(JvmError::ArithmeticError)
    );
}

#[test]
fn swapping_twice_changes_nothing() {
    let buf = vec![
        opcode::ICONST_1,
        opcode::ICONST_5,
        opcode::SWAP,
        opcode::SWAP,
        opcode::ISUB,
        opcode::IRETURN,
    ];
    assert_eq!(execute_simple_bytecode(&buf), JvmValue::Int(4));
}

#[test]
fn stepping_a_thread() {
    let repo = SharedKlassRepo::of();
    let mut heap = SharedSimpleHeap::of();
    let code = vec![opcode::ICONST_2, opcode::NEWARRAY, 10, opcode::FCONST_1, opcode::I2F, opcode::IRETURN];
    let mut t = JThread::of("DUMMY".to_string(), code, InterpLocalVars::of(2));
    assert!(matches!(t.step(&repo, &mut heap), Ok(StepOutcome::Continue)));
    assert_eq!((t.depth(), heap.len()), (1, 1));
    assert!(matches!(t.step(&repo, &mut heap), Ok(StepOutcome::Continue)));
    assert_eq!((t.depth(), heap.len()), (1, 2));
    assert!(matches!(t.step(&repo, &mut heap), Ok(StepOutcome::Continue)));
    assert!(matches!(t.step(&repo, &mut heap), Ok(StepOutcome::FloatOp(op)) if op == opcode::I2F));
    assert_eq!(t.pop_value(), Some(JvmValue::Float(0x3f80_0000)));
    t.push_value(JvmValue::Int(11));
    match t.step(&repo, &mut heap) {
        Ok(StepOutcome::Returned(v)) => assert_eq!(v, Some(JvmValue::Int(11))),
        _ => panic!("the method should return"),
    }
    assert_eq!(t.depth(), 1);
}

#[test]
fn astore_is_0x53_and_stores_a_local() {
    assert_eq!(opcode::ASTORE, 0x53);
    assert_eq!(ocelotter::opcode::num_params(0x53), 1);
    assert_eq!(ocelotter::opcode::num_params(0x3a), 0);
    let code = vec![opcode::ICONST_5, opcode::ASTORE, 1, opcode::ILOAD_1, opcode::IRETURN];
    assert_eq!(run_simple_bytecode(&code), Ok(Some(JvmValue::Int(5))));
    assert_eq!(
        run_simple_bytecode(&vec![opcode::ICONST_5, 0x3a, 1]),
        Err(JvmError::IllegalOpcode(0x3a))
    );
}

#[test]
fn clinit_runs_the_initializer() {
    let mut m = ocelotter::otmethod::OtMethod::of(
        "Init".to_string(),
        "<clinit>".to_string(),
        "()V".to_string(),
        ocelotter::constant_pool::ACC_STATIC,
        1,
        2,
    );
    m.set_code(vec![opcode::ICONST_3, opcode::ISTORE_0, opcode::ILOAD_0, opcode::IRETURN]);
    let k = OtKlass::of("Init".to_string(), "java/lang/Object".to_string(), 0, &vec![], &vec![m], &vec![]);
    let mut repo = SharedKlassRepo::of();
    assert_eq!(repo.add_klass(&k), Ok(()));
    let mut heap = SharedSimpleHeap::of();
    let r = ocelotter::interpreter::run_clinit_method(&mut repo, &mut heap, &"Init".to_string());
    assert_eq!(r, Ok(Some(JvmValue::Int(3))));
    let r = ocelotter::interpreter::run_clinit_method(&mut repo, &mut heap, &"Nope".to_string());
    assert_eq!(r, Err(JvmError::KlassNotFound));
}

#[test]
fn goto_jumps_backward_in_a_loop() {
    let code = vec![
        opcode::ICONST_3,
        opcode::ISTORE_0,
        opcode::ILOAD_0, // 2
        opcode::IFEQ,
        0,
        10, // to 13
        opcode::ILOAD_0,
        opcode::ICONST_M1,
        opcode::IADD,
        opcode::ISTORE_0,
        opcode::GOTO, // 10: back to 2
        0xff,
        0xf7,
        opcode::BIPUSH, // 13
        42,
        opcode::IRETURN,
    ];
    assert_eq!(run_simple_bytecode(&code), Ok(Some(JvmValue::Int(42))));
}
