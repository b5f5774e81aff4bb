use yajvm::classfile::{ClassModel, ConstEntry, FieldModel, Instruction, MethodModel, ACC_STATIC};
use yajvm::codegen::codegen_class::JitError;
use yajvm::ir::{IrInst, IrProgram};
use yajvm::stdlib::add_stdlib;
use yajvm::CodeGen;

struct Pool {
    entries: Vec<ConstEntry>,
}

impl Pool {
    fn new() -> Pool {
        Pool { entries: Vec::new() }
    }

    fn push(&mut self, e: ConstEntry) -> u16 {
        self.entries.push(e);
        self.entries.len() as u16
    }

    fn utf8(&mut self, s: &str) -> u16 {
        self.push(ConstEntry::Utf8(s.to_string()))
    }

    fn class(&mut self, name: &str) -> u16 {
        let name_index = self.utf8(name);
        self.push(ConstEntry::ClassRef { name_index })
    }

    fn string(&mut self, s: &str) -> u16 {
        let string_index = self.utf8(s);
        self.push(ConstEntry::StringRef { string_index })
    }

    fn field_ref(&mut self, class: &str, name: &str, desc: &str) -> u16 {
        let class_index = self.class(class);
        let name_index = self.utf8(name);
        let descriptor_index = self.utf8(desc);
        let name_and_type_index = self.push(ConstEntry::NameAndType { name_index, descriptor_index });
        self.push(ConstEntry::FieldRef { class_index, name_and_type_index })
    }

    fn method_ref(&mut self, class: &str, name: &str, desc: &str) -> u16 {
        let class_index = self.class(class);
        let name_index = self.utf8(name);
        let descriptor_index = self.utf8(desc);
        let name_and_type_index = self.push(ConstEntry::NameAndType { name_index, descriptor_index });
        self.push(ConstEntry::MethodRef { class_index, name_and_type_index })
    }
}

fn static_method(pool: &mut Pool, name: &str, desc: &str, max_locals: u16, code: Vec<(usize, Instruction)>) -> MethodModel {
    let name_index = pool.utf8(name);
    let descriptor_index = pool.utf8(desc);
    MethodModel { access_flags: ACC_STATIC, name_index, descriptor_index, max_locals, code }
}

fn class_model(pool: Pool, this_class: u16, super_class: u16, fields: Vec<FieldModel>, methods: Vec<MethodModel>) -> ClassModel {
    ClassModel { const_pool: pool.entries, this_class, super_class, fields, methods }
}

fn run(main_class: &str, models: Vec<ClassModel>, args: Vec<&str>) -> (IrProgram, String, String) {
    let mut cg = CodeGen::new(main_class);
    cg.enable_tracing();
    add_stdlib(&mut cg);
    for m in &models {
        match cg.compile(m) {
            Ok(()) => {}
            Err(e) => panic!("compile failed: {:?}", e),
        }
    }
    match cg.done_compilation() {
        Ok(()) => {}
        Err(e) => panic!("link failed: {:?}", e),
    }
    let mut iso = yajvm::Isolate::new(&cg);
    let program = cg.into_program();
    let host: Vec<String> = args.iter().map(|s| s.to_string()).collect();
    match yajvm::interp::run_main(&program, &mut iso, &host, 1_000_000) {
        Ok(()) => {}
        Err(e) => panic!("evaluation failed: {:?}", e),
    }
    let stdout = String::from_utf8(iso.stdout_buffer().clone()).unwrap();
    let trace = String::from_utf8(iso.tracer().buffer().clone()).unwrap();
    (program, stdout, trace)
}

fn link(main_class: &str, models: Vec<ClassModel>) -> IrProgram {
    let mut cg = CodeGen::new(main_class);
    cg.enable_tracing();
    add_stdlib(&mut cg);
    for m in &models {
        match cg.compile(m) {
            Ok(()) => {}
            Err(e) => panic!("compile failed: {:?}", e),
        }
    }
    match cg.done_compilation() {
        Ok(()) => {}
        Err(e) => panic!("link failed: {:?}", e),
    }
    assert!(cg.cc.class_id_values.entries.is_empty());
    assert!(cg.cc.static_field_offset_values.entries.is_empty());
    assert!(cg.cc.virtual_method_offset_values.entries.is_empty());
    assert!(!cg.scan_has_placeholder());
    cg.into_program()
}

fn find_function<'a>(program: &'a IrProgram, symbol: &str) -> &'a yajvm::ir::IrFunction {
    program
        .functions
        .iter()
        .find(|f| f.symbol == symbol)
        .unwrap_or_else(|| panic!("no function {}", symbol))
}

fn hello_world_model() -> ClassModel {
    let mut pool = Pool::new();
    let this_class = pool.class("HelloWorld");
    let super_class = pool.class("java/lang/Object");
    let out = pool.field_ref("java/lang/System", "out", "Ljava/io/PrintStream;");
    let hello = pool.string("Hello, World!");
    let println = pool.method_ref("java/io/PrintStream", "println", "(Ljava/lang/String;)V");
    let main = static_method(
        &mut pool,
        "main",
        "([Ljava/lang/String;)V",
        1,
        vec![
            (0, Instruction::Getstatic(out)),
            (3, Instruction::Ldc(hello as u8)),
            (5, Instruction::Invokevirtual(println)),
            (8, Instruction::Return),
        ],
    );
    class_model(pool, this_class, super_class, vec![], vec![main])
}

#[test]
fn test_hello_world() {
    let (program, out, trace) = run("HelloWorld", vec![hello_world_model()], vec![]);
    assert_eq!(out, "Hello, World!\n");
    assert!(trace.starts_with("--> \"HelloWorld.main:([Ljava/lang/String;)V\"("));
    assert!(program.const_strings.iter().any(|s| s == "Hello, World!"));
    // With tracing on, the prologue interns the method symbol so the trace
    // can begin with it.
    assert!(program
        .const_strings
        .iter()
        .any(|s| s == "HelloWorld.main:([Ljava/lang/String;)V"));
    let f = find_function(&program, "HelloWorld.main:([Ljava/lang/String;)V");
    assert_eq!(f.blocks.len(), 1);
    find_function(&program, "main");
}

#[test]
fn test_print_first_arg() {
    let mut pool = Pool::new();
    let this_class = pool.class("PrintFirstArg");
    let super_class = pool.class("java/lang/Object");
    let out = pool.field_ref("java/lang/System", "out", "Ljava/io/PrintStream;");
    let println = pool.method_ref("java/io/PrintStream", "println", "(Ljava/lang/String;)V");
    let main = static_method(
        &mut pool,
        "main",
        "([Ljava/lang/String;)V",
        1,
        vec![
            (0, Instruction::Getstatic(out)),
            (3, Instruction::Aload0),
            (4, Instruction::Iconst0),
            (5, Instruction::Aaload),
            (6, Instruction::Invokevirtual(println)),
            (9, Instruction::Return),
        ],
    );
    let model = class_model(pool, this_class, super_class, vec![], vec![main]);
    let (program, out, _trace) = run("PrintFirstArg", vec![model], vec!["first", "second"]);
    assert_eq!(out, "first\n");
    let f = find_function(&program, "PrintFirstArg.main:([Ljava/lang/String;)V");
    assert!(f
        .blocks
        .iter()
        .any(|b| b.insts.iter().any(|i| matches!(i, IrInst::ArrayLoad { .. }))));
}

#[test]
fn test_print_args() {
    let mut pool = Pool::new();
    let this_class = pool.class("PrintArgs");
    let super_class = pool.class("java/lang/Object");
    let out = pool.field_ref("java/lang/System", "out", "Ljava/io/PrintStream;");
    let println = pool.method_ref("java/io/PrintStream", "println", "(Ljava/lang/String;)V");
    let main = static_method(
        &mut pool,
        "main",
        "([Ljava/lang/String;)V",
        2,
        vec![
            (0, Instruction::Iconst0),
            (1, Instruction::Istore1),
            (2, Instruction::Iload1),
            (3, Instruction::Aload0),
            (4, Instruction::Arraylength),
            (5, Instruction::IfIcmpge(18)),
            (8, Instruction::Getstatic(out)),
            (11, Instruction::Aload0),
            (12, Instruction::Iload1),
            (13, Instruction::Aaload),
            (14, Instruction::Invokevirtual(println)),
            (17, Instruction::Iinc { index: 1, value: 1 }),
            (20, Instruction::Goto(-18)),
            (23, Instruction::Return),
        ],
    );
    let model = class_model(pool, this_class, super_class, vec![], vec![main]);
    let (program, out, _trace) = run("PrintArgs", vec![model], vec!["x", "y"]);
    assert_eq!(out, "x\ny\n");
    let f = find_function(&program, "PrintArgs.main:([Ljava/lang/String;)V");
    // Blocks at 0 (entry), 2 (loop head), 8 (body), 23 (exit).
    assert_eq!(f.blocks.len(), 4);
    let loop_head = f.blocks.iter().find(|b| b.addr == 2).unwrap();
    // Two live locals (the argument array and the counter), an empty entry
    // stack: two phis, and each phi has exactly one incoming per edge -- the
    // fall-through from the entry block and the back edge from the loop
    // body.
    assert_eq!(loop_head.phis.len(), 2);
    for phi in &loop_head.phis {
        let froms: Vec<usize> = phi.incomings.iter().map(|x| x.0).collect();
        assert_eq!(froms.len(), 2);
        assert_eq!(froms, loop_head.phis[0].incomings.iter().map(|x| x.0).collect::<Vec<usize>>());
    }
}

#[test]
fn test_print_arg_len() {
    let mut pool = Pool::new();
    let this_class = pool.class("PrintArgLen");
    let super_class = pool.class("java/lang/Object");
    let out = pool.field_ref("java/lang/System", "out", "Ljava/io/PrintStream;");
    let println = pool.method_ref("java/io/PrintStream", "println", "(I)V");
    let main = static_method(
        &mut pool,
        "main",
        "([Ljava/lang/String;)V",
        1,
        vec![
            (0, Instruction::Getstatic(out)),
            (3, Instruction::Aload0),
            (4, Instruction::Arraylength),
            (5, Instruction::Invokevirtual(println)),
            (8, Instruction::Return),
        ],
    );
    let model = class_model(pool, this_class, super_class, vec![], vec![main]);
    let (program, out, _trace) = run("PrintArgLen", vec![model], vec!["a", "b", "c"]);
    assert_eq!(out, "3\n");
    let f = find_function(&program, "PrintArgLen.main:([Ljava/lang/String;)V");
    assert!(f
        .blocks
        .iter()
        .any(|b| b.insts.iter().any(|i| matches!(i, IrInst::ArrayLength { .. }))));
}

#[test]
fn test_in_class_call() {
    let mut pool = Pool::new();
    let this_class = pool.class("InClassCall");
    let super_class = pool.class("java/lang/Object");
    let out = pool.field_ref("java/lang/System", "out", "Ljava/io/PrintStream;");
    let println = pool.method_ref("java/io/PrintStream", "println", "(Ljava/lang/String;)V");
    let greet_ref = pool.method_ref("InClassCall", "greet", "()Ljava/lang/String;");
    let hi = pool.string("hi");
    let greet = static_method(
        &mut pool,
        "greet",
        "()Ljava/lang/String;",
        0,
        vec![(0, Instruction::Ldc(hi as u8)), (2, Instruction::Areturn)],
    );
    let main = static_method(
        &mut pool,
        "main",
        "([Ljava/lang/String;)V",
        1,
        vec![
            (0, Instruction::Getstatic(out)),
            (3, Instruction::Invokestatic(greet_ref)),
            (6, Instruction::Invokevirtual(println)),
            (9, Instruction::Return),
        ],
    );
    let model = class_model(pool, this_class, super_class, vec![], vec![greet, main]);
    let (program, out, _trace) = run("InClassCall", vec![model], vec![]);
    assert_eq!(out, "hi\n");
    find_function(&program, "InClassCall.greet:()Ljava/lang/String;");
    let f = find_function(&program, "InClassCall.main:([Ljava/lang/String;)V");
    assert!(f.blocks.iter().any(|b| {
        b.insts.iter().any(
            |i| matches!(i, IrInst::CallDirect { symbol, .. } if symbol == "InClassCall.greet:()Ljava/lang/String;"),
        )
    }));
}

#[test]
fn test_cross_class_static_call_is_rejected() {
    let mut pool = Pool::new();
    let this_class = pool.class("CrossCall");
    let super_class = pool.class("java/lang/Object");
    let other = pool.method_ref("Elsewhere", "helper", "()V");
    let main = static_method(
        &mut pool,
        "main",
        "([Ljava/lang/String;)V",
        1,
        vec![(0, Instruction::Invokestatic(other)), (3, Instruction::Return)],
    );
    let model = class_model(pool, this_class, super_class, vec![], vec![main]);
    let mut cg = CodeGen::new("CrossCall");
    add_stdlib(&mut cg);
    let r = cg.compile(&model);
    assert!(matches!(r, Err(JitError::NonLocalStaticCall { .. })));
}

#[test]
fn test_integers() {
    let mut pool = Pool::new();
    let this_class = pool.class("Integers");
    let super_class = pool.class("java/lang/Object");
    let out = pool.field_ref("java/lang/System", "out", "Ljava/io/PrintStream;");
    let println = pool.method_ref("java/io/PrintStream", "println", "(I)V");
    let main = static_method(
        &mut pool,
        "main",
        "([Ljava/lang/String;)V",
        2,
        vec![
            (0, Instruction::Getstatic(out)),
            (3, Instruction::Iconst2),
            (4, Instruction::Istore1),
            (5, Instruction::Iload1),
            (6, Instruction::Bipush(40)),
            (8, Instruction::Iadd),
            (9, Instruction::Invokevirtual(println)),
            (12, Instruction::Return),
        ],
    );
    let model = class_model(pool, this_class, super_class, vec![], vec![main]);
    let (program, out, _trace) = run("Integers", vec![model], vec![]);
    assert_eq!(out, "42\n");
    let f = find_function(&program, "Integers.main:([Ljava/lang/String;)V");
    assert!(f
        .blocks
        .iter()
        .any(|b| b.insts.iter().any(|i| matches!(i, IrInst::IntBin { wide: false, .. }))));
}

#[test]
fn test_integers2() {
    let mut pool = Pool::new();
    let this_class = pool.class("Integers2");
    let super_class = pool.class("java/lang/Object");
    let out = pool.field_ref("java/lang/System", "out", "Ljava/io/PrintStream;");
    let println = pool.method_ref("java/io/PrintStream", "println", "(I)V");
    let main = static_method(
        &mut pool,
        "main",
        "([Ljava/lang/String;)V",
        1,
        vec![
            (0, Instruction::Getstatic(out)),
            (3, Instruction::Sipush(2048)),
            (6, Instruction::Bipush(2)),
            (8, Instruction::Idiv),
            (9, Instruction::I2s),
            (10, Instruction::I2b),
            (11, Instruction::I2c),
            (12, Instruction::Invokevirtual(println)),
            (15, Instruction::Return),
        ],
    );
    let model = class_model(pool, this_class, super_class, vec![], vec![main]);
    let (program, out, _trace) = run("Integers2", vec![model], vec![]);
    // 2048 / 2 = 1024; i2s keeps it, i2b truncates to 0, i2c keeps 0.
    assert_eq!(out, "0\n");
    let f = find_function(&program, "Integers2.main:([Ljava/lang/String;)V");
    let insts: Vec<&IrInst> = f.blocks.iter().flat_map(|b| b.insts.iter()).collect();
    assert!(insts.iter().any(|i| matches!(i, IrInst::I2b { .. })));
    assert!(insts.iter().any(|i| matches!(i, IrInst::I2s { .. })));
    assert!(insts.iter().any(|i| matches!(i, IrInst::I2c { .. })));
}

#[test]
fn test_numerics() {
    let mut pool = Pool::new();
    let this_class = pool.class("Numerics");
    let super_class = pool.class("java/lang/Object");
    let out = pool.field_ref("java/lang/System", "out", "Ljava/io/PrintStream;");
    let println_long = pool.method_ref("java/io/PrintStream", "println", "(J)V");
    let big = pool.push(ConstEntry::Long(10_000_000_000));
    let main = static_method(
        &mut pool,
        "main",
        "([Ljava/lang/String;)V",
        1,
        vec![
            (0, Instruction::Getstatic(out)),
            (3, Instruction::Ldc2W(big)),
            (6, Instruction::Lconst1),
            (7, Instruction::Ladd),
            (8, Instruction::Invokevirtual(println_long)),
            (11, Instruction::Return),
        ],
    );
    let model = class_model(pool, this_class, super_class, vec![], vec![main]);
    let (program, out, _trace) = run("Numerics", vec![model], vec![]);
    assert_eq!(out, "10000000001\n");
    let f = find_function(&program, "Numerics.main:([Ljava/lang/String;)V");
    let insts: Vec<&IrInst> = f.blocks.iter().flat_map(|b| b.insts.iter()).collect();
    assert!(insts.iter().any(|i| matches!(i, IrInst::ConstI64 { value: 10_000_000_000, .. })));
    assert!(insts.iter().any(|i| matches!(i, IrInst::IntBin { wide: true, .. })));
}

#[test]
fn test_static_variables() {
    let mut pool = Pool::new();
    let this_class = pool.class("StaticVariables");
    let super_class = pool.class("java/lang/Object");
    let counter_name = pool.utf8("counter");
    let out = pool.field_ref("java/lang/System", "out", "Ljava/io/PrintStream;");
    let println = pool.method_ref("java/io/PrintStream", "println", "(I)V");
    let counter = pool.field_ref("StaticVariables", "counter", "I");
    let fields = vec![FieldModel { access_flags: ACC_STATIC, name_index: counter_name }];
    let main = static_method(
        &mut pool,
        "main",
        "([Ljava/lang/String;)V",
        1,
        vec![
            (0, Instruction::Bipush(7)),
            (2, Instruction::Putstatic(counter)),
            (5, Instruction::Getstatic(out)),
            (8, Instruction::Getstatic(counter)),
            (11, Instruction::Invokevirtual(println)),
            (14, Instruction::Return),
        ],
    );
    let model = class_model(pool, this_class, super_class, fields, vec![main]);

    let mut pool2 = Pool::new();
    let this2 = pool2.class("Second");
    let super2 = pool2.class("java/lang/Object");
    let counter2 = pool2.utf8("counter");
    let fields2 = vec![FieldModel { access_flags: ACC_STATIC, name_index: counter2 }];
    let model2 = class_model(pool2, this2, super2, fields2, vec![]);

    let (program, out, _trace) = run("StaticVariables", vec![model, model2], vec![]);
    assert_eq!(out, "7\n");
    let f = find_function(&program, "StaticVariables.main:([Ljava/lang/String;)V");
    let insts: Vec<&IrInst> = f.blocks.iter().flat_map(|b| b.insts.iter()).collect();
    assert!(insts.iter().any(|i| matches!(i, IrInst::StaticStore { .. })));
    assert!(insts.iter().any(|i| matches!(i, IrInst::StaticLoad { .. })));
    // Every placeholder was rewritten to a constant.
    assert!(!insts.iter().any(|i| matches!(i, IrInst::Placeholder { .. })));
}

#[test]
fn test_nested_method_calls() {
    let mut pool = Pool::new();
    let this_class = pool.class("NestedMethodCalls");
    let super_class = pool.class("java/lang/Object");
    let out = pool.field_ref("java/lang/System", "out", "Ljava/io/PrintStream;");
    let println = pool.method_ref("java/io/PrintStream", "println", "(I)V");
    let f_ref = pool.method_ref("NestedMethodCalls", "f", "(I)I");
    let g_ref = pool.method_ref("NestedMethodCalls", "g", "(I)I");
    let g = static_method(
        &mut pool,
        "g",
        "(I)I",
        1,
        vec![
            (0, Instruction::Iload0),
            (1, Instruction::Iconst2),
            (2, Instruction::Imul),
            (3, Instruction::Ireturn),
        ],
    );
    let f = static_method(
        &mut pool,
        "f",
        "(I)I",
        1,
        vec![
            (0, Instruction::Iload0),
            (1, Instruction::Invokestatic(g_ref)),
            (4, Instruction::Iconst1),
            (5, Instruction::Iadd),
            (6, Instruction::Ireturn),
        ],
    );
    let main = static_method(
        &mut pool,
        "main",
        "([Ljava/lang/String;)V",
        1,
        vec![
            (0, Instruction::Getstatic(out)),
            (3, Instruction::Bipush(3)),
            (5, Instruction::Invokestatic(f_ref)),
            (8, Instruction::Invokevirtual(println)),
            (11, Instruction::Return),
        ],
    );
    let model = class_model(pool, this_class, super_class, vec![], vec![g, f, main]);
    let (program, out, _trace) = run("NestedMethodCalls", vec![model], vec![]);
    assert_eq!(out, "7\n");
    find_function(&program, "NestedMethodCalls.f:(I)I");
    find_function(&program, "NestedMethodCalls.g:(I)I");
}

#[test]
fn test_mutual_recursion() {
    let mut pool = Pool::new();
    let this_class = pool.class("MutualRecursion");
    let super_class = pool.class("java/lang/Object");
    let out = pool.field_ref("java/lang/System", "out", "Ljava/io/PrintStream;");
    let println = pool.method_ref("java/io/PrintStream", "println", "(Z)V");
    let is_even_ref = pool.method_ref("MutualRecursion", "isEven", "(I)Z");
    let is_odd_ref = pool.method_ref("MutualRecursion", "isOdd", "(I)Z");
    let body = |other: u16, base: Instruction| {
        vec![
            (0, Instruction::Iload0),
            (1, Instruction::Ifne(6)),
            (4, base),
            (5, Instruction::Ireturn),
            (7, Instruction::Iload0),
            (8, Instruction::Iconst1),
            (9, Instruction::Isub),
            (10, Instruction::Invokestatic(other)),
            (13, Instruction::Ireturn),
        ]
    };
    let is_even = static_method(&mut pool, "isEven", "(I)Z", 1, body(is_odd_ref, Instruction::Iconst1));
    let is_odd = static_method(&mut pool, "isOdd", "(I)Z", 1, body(is_even_ref, Instruction::Iconst0));
    let main = static_method(
        &mut pool,
        "main",
        "([Ljava/lang/String;)V",
        1,
        vec![
            (0, Instruction::Getstatic(out)),
            (3, Instruction::Iconst4),
            (4, Instruction::Invokestatic(is_even_ref)),
            (7, Instruction::Invokevirtual(println)),
            (10, Instruction::Return),
        ],
    );
    let model = class_model(pool, this_class, super_class, vec![], vec![is_even, is_odd, main]);
    let (program, out, trace) = run("MutualRecursion", vec![model], vec![]);
    assert_eq!(out, "true\n");
    assert_eq!(trace.matches("--> \"MutualRecursion.isEven:(I)Z\"").count(), 3);
    assert_eq!(trace.matches("--> \"MutualRecursion.isOdd:(I)Z\"").count(), 2);
    let even = find_function(&program, "MutualRecursion.isEven:(I)Z");
    assert_eq!(even.blocks.len(), 3);
    find_function(&program, "MutualRecursion.isOdd:(I)Z");
}

#[test]
fn test_factorial_recursion() {
    let mut pool = Pool::new();
    let this_class = pool.class("FactorialRecursion");
    let super_class = pool.class("java/lang/Object");
    let out = pool.field_ref("java/lang/System", "out", "Ljava/io/PrintStream;");
    let println = pool.method_ref("java/io/PrintStream", "println", "(I)V");
    let fact_ref = pool.method_ref("FactorialRecursion", "factorial", "(I)I");
    let factorial = static_method(
        &mut pool,
        "factorial",
        "(I)I",
        1,
        vec![
            (0, Instruction::Iload0),
            (1, Instruction::Ifne(6)),
            (4, Instruction::Iconst1),
            (5, Instruction::Ireturn),
            (7, Instruction::Iload0),
            (8, Instruction::Iload0),
            (9, Instruction::Iconst1),
            (10, Instruction::Isub),
            (11, Instruction::Invokestatic(fact_ref)),
            (14, Instruction::Imul),
            (15, Instruction::Ireturn),
        ],
    );
    let main = static_method(
        &mut pool,
        "main",
        "([Ljava/lang/String;)V",
        1,
        vec![
            (0, Instruction::Getstatic(out)),
            (3, Instruction::Bipush(5)),
            (5, Instruction::Invokestatic(fact_ref)),
            (8, Instruction::Invokevirtual(println)),
            (11, Instruction::Return),
        ],
    );
    let model = class_model(pool, this_class, super_class, vec![], vec![factorial, main]);
    let (program, out, trace) = run("FactorialRecursion", vec![model], vec![]);
    assert_eq!(out, "120\n");
    // Six nested entries with descending arguments, and matching returns.
    assert_eq!(trace.matches("--> \"FactorialRecursion.factorial:(I)I\"").count(), 6);
    assert!(trace.contains("--> \"FactorialRecursion.factorial:(I)I\"(5)\n"));
    assert!(trace.contains("--> \"FactorialRecursion.factorial:(I)I\"(0)\n"));
    assert!(trace.contains("<-- 120\n"));
    assert!(trace.contains("<-- 24\n"));
    let fact = find_function(&program, "FactorialRecursion.factorial:(I)I");
    // Blocks at 0, 4 (base case) and 7 (recursive case); each non-entry
    // block has one phi for the live parameter slot and one incoming edge.
    assert_eq!(fact.blocks.len(), 3);
    for b in &fact.blocks {
        if b.addr != 0 {
            assert_eq!(b.phis.len(), 1);
            assert_eq!(b.phis[0].incomings.len(), 1);
        }
    }
    // With tracing on, both returns call the exit hook.
    let after_calls = fact
        .blocks
        .iter()
        .flat_map(|b| b.insts.iter())
        .filter(|i| matches!(i, IrInst::CallRuntime { callee: yajvm::ir::RuntimeFn::TracingAfter, .. }))
        .count();
    assert_eq!(after_calls, 2);
}

#[test]
fn test_comparisons() {
    let mut pool = Pool::new();
    let this_class = pool.class("Comparisons");
    let super_class = pool.class("java/lang/Object");
    let out = pool.field_ref("java/lang/System", "out", "Ljava/io/PrintStream;");
    let println = pool.method_ref("java/io/PrintStream", "println", "(I)V");
    let main = static_method(
        &mut pool,
        "main",
        "([Ljava/lang/String;)V",
        1,
        vec![
            (0, Instruction::Bipush(3)),
            (2, Instruction::Bipush(5)),
            (4, Instruction::IfIcmplt(11)),
            (7, Instruction::Getstatic(out)),
            (10, Instruction::Iconst0),
            (11, Instruction::Invokevirtual(println)),
            (14, Instruction::Return),
            (15, Instruction::Getstatic(out)),
            (18, Instruction::Iconst1),
            (19, Instruction::Invokevirtual(println)),
            (22, Instruction::Return),
        ],
    );
    let model = class_model(pool, this_class, super_class, vec![], vec![main]);
    let (program, out, _trace) = run("Comparisons", vec![model], vec![]);
    assert_eq!(out, "1\n");
    let f = find_function(&program, "Comparisons.main:([Ljava/lang/String;)V");
    assert_eq!(f.blocks.len(), 3);
    assert!(f
        .blocks
        .iter()
        .any(|b| b.insts.iter().any(|i| matches!(i, IrInst::ICmp { pred: yajvm::ir::IntPred::Lt, .. }))));
}

#[test]
fn test_string_const_return() {
    let mut pool = Pool::new();
    let this_class = pool.class("StringConstReturn");
    let super_class = pool.class("java/lang/Object");
    let out = pool.field_ref("java/lang/System", "out", "Ljava/io/PrintStream;");
    let println = pool.method_ref("java/io/PrintStream", "println", "(Ljava/lang/String;)V");
    let msg_ref = pool.method_ref("StringConstReturn", "msg", "()Ljava/lang/String;");
    let text = pool.string("constant text");
    let msg = static_method(
        &mut pool,
        "msg",
        "()Ljava/lang/String;",
        0,
        vec![(0, Instruction::Ldc(text as u8)), (2, Instruction::Areturn)],
    );
    let main = static_method(
        &mut pool,
        "main",
        "([Ljava/lang/String;)V",
        1,
        vec![
            (0, Instruction::Getstatic(out)),
            (3, Instruction::Invokestatic(msg_ref)),
            (6, Instruction::Invokevirtual(println)),
            (9, Instruction::Return),
        ],
    );
    let model = class_model(pool, this_class, super_class, vec![], vec![msg, main]);
    let (program, out, _trace) = run("StringConstReturn", vec![model], vec![]);
    assert_eq!(out, "constant text\n");
    assert!(program.const_strings.iter().any(|s| s == "constant text"));
    // Interning a string forward-declares the string class's v-table, and
    // linking then emits the real one.
    assert!(program.vtables.iter().any(|(name, _)| name == "java/lang/String"));
}

#[test]
fn test_string_const_arg() {
    let mut pool = Pool::new();
    let this_class = pool.class("StringConstArg");
    let super_class = pool.class("java/lang/Object");
    let out = pool.field_ref("java/lang/System", "out", "Ljava/io/PrintStream;");
    let println = pool.method_ref("java/io/PrintStream", "println", "(Ljava/lang/String;)V");
    let shout_ref = pool.method_ref("StringConstArg", "shout", "(Ljava/lang/String;)V");
    let text = pool.string("hey");
    let shout = static_method(
        &mut pool,
        "shout",
        "(Ljava/lang/String;)V",
        1,
        vec![
            (0, Instruction::Getstatic(out)),
            (3, Instruction::Aload0),
            (4, Instruction::Invokevirtual(println)),
            (7, Instruction::Return),
        ],
    );
    let main = static_method(
        &mut pool,
        "main",
        "([Ljava/lang/String;)V",
        1,
        vec![
            (0, Instruction::Ldc(text as u8)),
            (2, Instruction::Invokestatic(shout_ref)),
            (5, Instruction::Return),
        ],
    );
    let model = class_model(pool, this_class, super_class, vec![], vec![shout, main]);
    let (program, out, _trace) = run("StringConstArg", vec![model], vec![]);
    assert_eq!(out, "hey\n");
    assert!(program.const_strings.iter().any(|s| s == "hey"));
    find_function(&program, "StringConstArg.shout:(Ljava/lang/String;)V");
}

#[test]
fn test_fcmp_nan() {
    let nan: u32 = 0x7fc0_0000;
    let one: u32 = 0x3f80_0000;
    // fcmpl answers -1 on an unordered pair, fcmpg answers +1, in either
    // argument order.
    assert_eq!(yajvm::semantics::fcmp_value(nan, one, false), -1);
    assert_eq!(yajvm::semantics::fcmp_value(one, nan, false), -1);
    assert_eq!(yajvm::semantics::fcmp_value(nan, one, true), 1);
    assert_eq!(yajvm::semantics::fcmp_value(one, nan, true), 1);
    let dnan: u64 = 0x7ff8_0000_0000_0000;
    let done_bits: u64 = 0x3ff0_0000_0000_0000;
    assert_eq!(yajvm::semantics::dcmp_value(dnan, done_bits, false), -1);
    assert_eq!(yajvm::semantics::dcmp_value(done_bits, dnan, true), 1);

    let mut pool = Pool::new();
    let this_class = pool.class("FcmpNan");
    let super_class = pool.class("java/lang/Object");
    let out = pool.field_ref("java/lang/System", "out", "Ljava/io/PrintStream;");
    let println = pool.method_ref("java/io/PrintStream", "println", "(I)V");
    let nan_const = pool.push(ConstEntry::Float(nan));
    let one_const = pool.push(ConstEntry::Float(one));
    let main = static_method(
        &mut pool,
        "main",
        "([Ljava/lang/String;)V",
        1,
        vec![
            (0, Instruction::Getstatic(out)),
            (3, Instruction::Ldc(nan_const as u8)),
            (5, Instruction::Ldc(one_const as u8)),
            (7, Instruction::Fcmpg),
            (8, Instruction::Invokevirtual(println)),
            (11, Instruction::Return),
        ],
    );
    let model = class_model(pool, this_class, super_class, vec![], vec![main]);
    let (program, out, _trace) = run("FcmpNan", vec![model], vec![]);
    // fcmpg on an unordered pair answers +1.
    assert_eq!(out, "1\n");
    let f = find_function(&program, "FcmpNan.main:([Ljava/lang/String;)V");
    assert!(f
        .blocks
        .iter()
        .any(|b| b.insts.iter().any(|i| matches!(i, IrInst::Fcmp { g: true, double: false, .. }))));
}

#[test]
fn test_all_basic_types_params() {
    let mut pool = Pool::new();
    let this_class = pool.class("AllBasicTypesParams");
    let super_class = pool.class("java/lang/Object");
    let all_ref = pool.method_ref("AllBasicTypesParams", "all", "(ZBCSIJFD)V");
    let all = static_method(&mut pool, "all", "(ZBCSIJFD)V", 10, vec![(0, Instruction::Return)]);
    let main = static_method(
        &mut pool,
        "main",
        "([Ljava/lang/String;)V",
        1,
        vec![
            (0, Instruction::Iconst1),
            (1, Instruction::Bipush(7)),
            (3, Instruction::Bipush(65)),
            (5, Instruction::Sipush(9)),
            (8, Instruction::Iconst5),
            (9, Instruction::Lconst1),
            (10, Instruction::Fconst1),
            (11, Instruction::Dconst1),
            (12, Instruction::Invokestatic(all_ref)),
            (15, Instruction::Return),
        ],
    );
    let model = class_model(pool, this_class, super_class, vec![], vec![all, main]);
    let program = link("AllBasicTypesParams", vec![model]);
    let all_fn = find_function(&program, "AllBasicTypesParams.all:(ZBCSIJFD)V");
    // Isolate handle plus the eight declared parameters.
    assert_eq!(all_fn.param_tys.len(), 9);
    // With tracing on, the prologue boxes each of the eight parameters into
    // the tracer's slot vector, walking the doubled long and double slots.
    let stores = all_fn
        .blocks
        .iter()
        .flat_map(|b| b.insts.iter())
        .filter(|i| matches!(i, IrInst::TracingArgStore { .. }))
        .count();
    assert_eq!(stores, 8);
}

#[test]
fn test_basic_type_array() {
    let mut pool = Pool::new();
    let this_class = pool.class("BasicTypeArray");
    let super_class = pool.class("java/lang/Object");
    let out = pool.field_ref("java/lang/System", "out", "Ljava/io/PrintStream;");
    let println = pool.method_ref("java/io/PrintStream", "println", "(I)V");
    let main = static_method(
        &mut pool,
        "main",
        "([Ljava/lang/String;)V",
        2,
        vec![
            (0, Instruction::Getstatic(out)),
            (3, Instruction::Iconst3),
            (4, Instruction::Newarray(10)),
            (6, Instruction::Astore1),
            (7, Instruction::Aload1),
            (8, Instruction::Iconst0),
            (9, Instruction::Bipush(7)),
            (11, Instruction::Iastore),
            (12, Instruction::Aload1),
            (13, Instruction::Iconst1),
            (14, Instruction::Bipush(8)),
            (16, Instruction::Iastore),
            (17, Instruction::Aload1),
            (18, Instruction::Iconst2),
            (19, Instruction::Bipush(9)),
            (21, Instruction::Iastore),
            (22, Instruction::Aload1),
            (23, Instruction::Iconst1),
            (24, Instruction::Iaload),
            (25, Instruction::Invokevirtual(println)),
            (28, Instruction::Return),
        ],
    );
    let model = class_model(pool, this_class, super_class, vec![], vec![main]);
    let (program, out, _trace) = run("BasicTypeArray", vec![model], vec![]);
    assert_eq!(out, "8\n");
    let f = find_function(&program, "BasicTypeArray.main:([Ljava/lang/String;)V");
    let insts: Vec<&IrInst> = f.blocks.iter().flat_map(|b| b.insts.iter()).collect();
    assert!(insts.iter().any(|i| matches!(
        i,
        IrInst::CallRuntime { callee: yajvm::ir::RuntimeFn::NewIntArray, .. }
    )));
    assert_eq!(insts.iter().filter(|i| matches!(i, IrInst::ArrayStore { .. })).count(), 3);
    assert_eq!(insts.iter().filter(|i| matches!(i, IrInst::ArrayLoad { .. })).count(), 1);
}

#[test]
fn test_inc_dec() {
    let mut pool = Pool::new();
    let this_class = pool.class("IncDec");
    let super_class = pool.class("java/lang/Object");
    let out = pool.field_ref("java/lang/System", "out", "Ljava/io/PrintStream;");
    let println = pool.method_ref("java/io/PrintStream", "println", "(I)V");
    let main = static_method(
        &mut pool,
        "main",
        "([Ljava/lang/String;)V",
        2,
        vec![
            (0, Instruction::Getstatic(out)),
            (3, Instruction::Iconst5),
            (4, Instruction::Istore1),
            (5, Instruction::Iinc { index: 1, value: 1 }),
            (8, Instruction::Iinc { index: 1, value: -1 }),
            (11, Instruction::Iload1),
            (12, Instruction::Invokevirtual(println)),
            (15, Instruction::Return),
        ],
    );
    let model = class_model(pool, this_class, super_class, vec![], vec![main]);
    let (program, out, _trace) = run("IncDec", vec![model], vec![]);
    assert_eq!(out, "5\n");
    let f = find_function(&program, "IncDec.main:([Ljava/lang/String;)V");
    let incs: Vec<i32> = f
        .blocks
        .iter()
        .flat_map(|b| b.insts.iter())
        .filter_map(|i| match i {
            IrInst::ConstI32 { value, .. } if *value == 1 || *value == -1 => Some(*value),
            _ => None,
        })
        .collect();
    // The increments are sign-extended: +1 and -1 both appear as constants.
    assert!(incs.contains(&1));
    assert!(incs.contains(&-1));
}

#[test]
fn test_virtual_dispatch_overrides() {
    // Dispatch through v-table slot zero picks the receiver's override: a
    // string's `toString` answers the string itself, not the root class's
    // default (which would render as `null`).
    let mut pool = Pool::new();
    let this_class = pool.class("Dispatch");
    let super_class = pool.class("java/lang/Object");
    let out = pool.field_ref("java/lang/System", "out", "Ljava/io/PrintStream;");
    let println = pool.method_ref("java/io/PrintStream", "println", "(Ljava/lang/String;)V");
    let to_string = pool.method_ref("java/lang/Object", "toString", "()Ljava/lang/String;");
    let text = pool.string("the override answered");
    let main = static_method(
        &mut pool,
        "main",
        "([Ljava/lang/String;)V",
        1,
        vec![
            (0, Instruction::Getstatic(out)),
            (3, Instruction::Ldc(text as u8)),
            (5, Instruction::Invokevirtual(to_string)),
            (8, Instruction::Invokevirtual(println)),
            (11, Instruction::Return),
        ],
    );
    let model = class_model(pool, this_class, super_class, vec![], vec![main]);
    let (_program, out_text, _trace) = run("Dispatch", vec![model], vec![]);
    assert_eq!(out_text, "the override answered\n");
}
