use yajvm::classfile::{ClassModel, MethodModel};
use yajvm::isolate::{InitAction, Isolate};
use yajvm::ir::VtFn;
use yajvm::semantics::{bipush_value, dcmp_value, fcmp_value, i2b_value, i2c_value, i2s_value, lcmp_value, sipush_value};
use yajvm::stdlib::add_stdlib;
use yajvm::stdlib::java_io::PrintStream;
use yajvm::stdlib::java_lang_number::{i32_to_string, i64_to_string};
use yajvm::tracing::Tracer;
use yajvm::{CodeGen, VecOutputStream};

#[test]
fn test_three_way_compares_are_signs() {
    // lcmp, fcmpl, fcmpg, dcmpl and dcmpg produce exactly -1, 0 or +1.
    assert_eq!(lcmp_value(-5, 3), -1);
    assert_eq!(lcmp_value(3, 3), 0);
    assert_eq!(lcmp_value(i64::MAX, i64::MIN), 1);
    let one: u32 = 0x3f80_0000;
    let two: u32 = 0x4000_0000;
    let neg_zero: u32 = 0x8000_0000;
    assert_eq!(fcmp_value(one, two, false), -1);
    assert_eq!(fcmp_value(two, one, false), 1);
    assert_eq!(fcmp_value(one, one, true), 0);
    // Positive and negative zero compare equal.
    assert_eq!(fcmp_value(0, neg_zero, false), 0);
    let done: u64 = 0x3ff0_0000_0000_0000;
    let dtwo: u64 = 0x4000_0000_0000_0000;
    assert_eq!(dcmp_value(done, dtwo, true), -1);
    assert_eq!(dcmp_value(dtwo, done, false), 1);
    assert_eq!(dcmp_value(0, 0x8000_0000_0000_0000, false), 0);
}

#[test]
fn test_integer_wrappers() {
    // bipush sign-extends: -1 becomes 0xFFFF_FFFF.
    assert_eq!(bipush_value(-1) as u32, 0xffff_ffff);
    assert_eq!(sipush_value(-2) as u32, 0xffff_fffe);
    // i2c zero-extends after the truncate: -1 becomes 0x0000_FFFF.
    assert_eq!(i2c_value(-1), 0xffff);
    assert_eq!(i2b_value(0x1ff), -1);
    assert_eq!(i2s_value(0x1_ffff), -1);
    assert_eq!(i2b_value(127), 127);
    assert_eq!(i2s_value(-32768), -32768);
}

#[test]
fn test_tracer_lines() {
    let mut t = Tracer::new();
    t.set_arg(0, "5".to_string());
    t.before("FactorialRecursion.factorial:(I)I", 1);
    t.set_arg(0, "4".to_string());
    t.before("FactorialRecursion.factorial:(I)I", 1);
    t.after("FactorialRecursion.factorial:(I)I", Some("24"));
    t.after("FactorialRecursion.factorial:(I)I", Some("120"));
    let text = String::from_utf8(t.buffer().clone()).unwrap();
    assert_eq!(
        text,
        "--> \"FactorialRecursion.factorial:(I)I\"(5)\n\
         \t--> \"FactorialRecursion.factorial:(I)I\"(4)\n\
         \t<-- 24\n\
         <-- 120\n"
    );
}

#[test]
fn test_tracer_truncation() {
    // More than twenty arguments are truncated with a trailing `...`.
    let mut t = Tracer::new();
    for i in 0..20 {
        t.set_arg(i, format!("a{}", i));
    }
    t.before("Wide.call:()V", 21);
    let text = String::from_utf8(t.buffer().clone()).unwrap();
    assert!(text.starts_with("--> \"Wide.call:()V\"(a0, a1,"));
    assert!(text.contains("a19"));
    assert!(!text.contains("a20"));
    assert!(text.ends_with("...)\n"));

    let mut t2 = Tracer::new();
    for i in 0..20 {
        t2.set_arg(i, format!("b{}", i));
    }
    t2.before("Wide.call:()V", 20);
    let text2 = String::from_utf8(t2.buffer().clone()).unwrap();
    assert!(!text2.contains("..."));
    assert!(text2.ends_with("b19)\n"));

    let mut t3 = Tracer::new();
    t3.before("Wide.none:()V", 0);
    let text3 = String::from_utf8(t3.buffer().clone()).unwrap();
    assert_eq!(text3, "--> \"Wide.none:()V\"()\n");
}

#[test]
fn test_int_rendering() {
    assert_eq!(i32_to_string(0), "0");
    assert_eq!(i32_to_string(120), "120");
    assert_eq!(i32_to_string(-1), "-1");
    assert_eq!(i32_to_string(i32::MIN), "-2147483648");
    assert_eq!(i64_to_string(i64::MIN), "-9223372036854775808");
    assert_eq!(i64_to_string(i64::MAX), "9223372036854775807");
}

#[test]
fn test_vec_output_stream() {
    let mut out = VecOutputStream::new();
    yajvm::Stdout::write(&mut out, b"xhellox", 1, 5);
    assert_eq!(out.buf, b"hello".to_vec());
}

fn linked_codegen() -> CodeGen {
    let mut cg = CodeGen::new("Main");
    add_stdlib(&mut cg);
    let mut main = yajvm::CompiledClass::new("Main", None);
    main.static_methods.push(yajvm::StaticMethodInfo {
        symbol: "Main.main:([Ljava/lang/String;)V".to_string(),
        ptr: Some(yajvm::compiled_class::NativeHook::ObjectToString),
    });
    cg.add_class(main);
    assert!(cg.done_compilation().is_ok());
    cg
}

#[test]
fn test_vtable_slot_zero_is_to_string() {
    // Slot zero of every class's v-table carries the `toString` declaring
    // symbol, because the root declares it first.
    let cg = linked_codegen();
    for table in &cg.vtables {
        let table = table.as_ref().unwrap();
        assert!(table.len() >= 1);
        assert_eq!(
            table[0].decl_symbol,
            "java/lang/Object.toString:()Ljava/lang/String;"
        );
    }
    // The string class's slot zero holds its own override, not the root's
    // default.
    let sid = cg.class_id("java/lang/String") as usize;
    let table = cg.vtables[sid].as_ref().unwrap();
    assert!(matches!(
        table[0].target,
        VtFn::Native(yajvm::compiled_class::NativeHook::StringToString)
    ));
    let oid = cg.class_id("java/lang/Object") as usize;
    let table = cg.vtables[oid].as_ref().unwrap();
    assert!(matches!(
        table[0].target,
        VtFn::Native(yajvm::compiled_class::NativeHook::ObjectToString)
    ));
}

#[test]
fn test_isolate_initialization_barrier() {
    let cg = linked_codegen();
    let mut iso = Isolate::new(&cg);
    let sys = iso.class_id("java/lang/System");
    iso.new_class_object(sys, 8, 0, sys, Some(yajvm::compiled_class::NativeHook::SystemClinit));
    // Access without the barrier runs nothing.
    assert!(matches!(iso.get_class_object(sys, false), InitAction::Nothing));
    // The first barrier crossing hands back the initializer; the flag is
    // set only after the host reports completion.
    match iso.get_class_object(sys, true) {
        InitAction::RunClinit(h) => {
            assert!(matches!(h, yajvm::compiled_class::NativeHook::SystemClinit));
        }
        InitAction::Nothing => panic!("expected an initializer"),
    }
    // Until then the barrier would hand it out again (re-entry on cycles).
    assert!(matches!(iso.get_class_object(sys, true), InitAction::RunClinit(_)));
    let ps = iso.class_id("java/io/PrintStream");
    iso.new_class_object(ps, 0, 16, ps, None);
    yajvm::stdlib::java_lang_system::clinit(&mut iso);
    iso.mark_initialized(sys);
    assert!(matches!(iso.get_class_object(sys, true), InitAction::Nothing));
    // The initializer stored the freshly allocated print stream into the
    // static field `out`.
    assert_eq!(iso.class_objects[sys as usize].static_fields[0], 0);
    assert_eq!(iso.heap.len(), 1);
}

#[test]
fn test_println_int_output() {
    let cg = linked_codegen();
    let mut iso = Isolate::new(&cg);
    PrintStream::println_int(&mut iso, 120);
    PrintStream::println_string(&mut iso, &"true".to_string());
    let text = String::from_utf8(iso.stdout_buffer().clone()).unwrap();
    assert_eq!(text, "120\ntrue\n");
}

#[test]
fn test_println_char_output() {
    let cg = linked_codegen();
    let mut iso = Isolate::new(&cg);
    PrintStream::println_char(&mut iso, 'A' as u32);
    PrintStream::println_char(&mut iso, 'é' as u32);
    PrintStream::println_char(&mut iso, '\u{20AC}' as u32);
    let text = String::from_utf8(iso.stdout_buffer().clone()).unwrap();
    assert_eq!(text, "A\né\n\u{20AC}\n");
}

#[test]
fn test_unsupported_instruction_is_fatal() {
    let mut pool_entries = Vec::new();
    pool_entries.push(yajvm::classfile::ConstEntry::Utf8("Odd".to_string()));
    pool_entries.push(yajvm::classfile::ConstEntry::ClassRef { name_index: 1 });
    pool_entries.push(yajvm::classfile::ConstEntry::Utf8("java/lang/Object".to_string()));
    pool_entries.push(yajvm::classfile::ConstEntry::ClassRef { name_index: 3 });
    pool_entries.push(yajvm::classfile::ConstEntry::Utf8("main".to_string()));
    pool_entries.push(yajvm::classfile::ConstEntry::Utf8("([Ljava/lang/String;)V".to_string()));
    let main = MethodModel {
        access_flags: yajvm::classfile::ACC_STATIC,
        name_index: 5,
        descriptor_index: 6,
        max_locals: 1,
        code: vec![
            (0, yajvm::classfile::Instruction::Unsupported("monitorenter".to_string())),
            (1, yajvm::classfile::Instruction::Return),
        ],
    };
    let model = ClassModel {
        const_pool: pool_entries,
        this_class: 2,
        super_class: 4,
        fields: vec![],
        methods: vec![main],
    };
    let mut cg = CodeGen::new("Odd");
    add_stdlib(&mut cg);
    let r = cg.compile(&model);
    match r {
        Err(yajvm::codegen::codegen_class::JitError::UnsupportedInstruction { addr, name }) => {
            assert_eq!(addr, 0);
            assert_eq!(name, "monitorenter");
        }
        other => panic!("expected an unsupported-instruction failure, got {:?}", other),
    }
}
