use yajvm::codegen::codegen_context::PlaceholderRef;
use yajvm::ir::{VtFn, VtSlot};
use yajvm::{CodeGen, CompiledClass, StaticMethodInfo, VirtualMethodInfo};

fn vtable_offset(cg: &CodeGen, symbol: &str) -> usize {
    for (s, off) in &cg.vtable_offsets {
        if s == symbol {
            return *off;
        }
    }
    panic!("symbol not appended: {}", symbol);
}

fn dummy_java_lang_object() -> CompiledClass {
    let mut java_lang_object = CompiledClass::new("java/lang/Object", None);
    java_lang_object.virtual_methods.push(VirtualMethodInfo {
        symbol: "java/lang/Object.toString:()Ljava/lang/String;".to_string(),
        ptr: Some(yajvm::compiled_class::NativeHook::ObjectToString),
        overrides: None,
    });
    java_lang_object
}

#[test]
fn test_assign_class_ids() {
    let mut codegen = CodeGen::new("Main");
    codegen.add_class(CompiledClass::new("a", None));
    codegen.add_class(CompiledClass::new("b", None));
    codegen.add_class(CompiledClass::new("c", None));

    // A placeholder issued for each class before linking must be resolved to
    // its identifier.
    codegen
        .cc
        .get_class_id_value("b", PlaceholderRef { func: 0, value: 7 });

    assert!(codegen.assign_class_ids().is_ok());
    assert_eq!(0, codegen.class_id("a"));
    assert_eq!(1, codegen.class_id("b"));
    assert_eq!(2, codegen.class_id("c"));

    assert_eq!(codegen.cc.resolutions.len(), 1);
    assert_eq!(codegen.cc.resolutions[0].0, PlaceholderRef { func: 0, value: 7 });
    assert_eq!(codegen.cc.resolutions[0].1, 1);
    assert!(codegen.cc.class_id_values.entries.is_empty());
}

#[test]
fn test_build_inheritance_tree() {
    let mut codegen = CodeGen::new("Main");
    codegen.add_class(CompiledClass::new("java/lang/Object", None));
    codegen.add_class(CompiledClass::new("a", None));
    codegen.add_class(CompiledClass::new("c", Some("b".to_string())));
    codegen.add_class(CompiledClass::new("b", Some("a".to_string())));

    assert!(codegen.assign_class_ids().is_ok());
    assert!(codegen.build_inheritance_tree().is_ok());
    assert_eq!(codegen.java_lang_object_class_id, 3);
    assert_eq!(codegen.class_id("a"), 0);
    assert_eq!(codegen.class_id("b"), 1);
    assert_eq!(codegen.class_id("c"), 2);
    assert_eq!(codegen.class_parents[0], 3);
    assert_eq!(codegen.class_parents[1], 0);
    assert_eq!(codegen.class_parents[2], 1);
    assert_eq!(codegen.class_parents[3], 3);
}

#[test]
fn test_resolve_static_field_offsets() {
    let mut codegen = CodeGen::new("Main");
    let mut a = CompiledClass::new("a", None);
    a.static_fields = vec!["foo".to_string(), "bar".to_string(), "foobar".to_string()];
    codegen.add_class(a);
    let mut b = CompiledClass::new("b", None);
    b.static_fields = vec!["cat".to_string(), "dog".to_string()];
    codegen.add_class(b);

    codegen
        .cc
        .get_static_filed_offset_value("a", "foo", PlaceholderRef { func: 0, value: 1 });
    codegen
        .cc
        .get_static_filed_offset_value("a", "bar", PlaceholderRef { func: 0, value: 2 });
    codegen
        .cc
        .get_static_filed_offset_value("a", "foobar", PlaceholderRef { func: 0, value: 3 });
    codegen
        .cc
        .get_static_filed_offset_value("b", "dog", PlaceholderRef { func: 0, value: 4 });
    codegen
        .cc
        .get_static_filed_offset_value("b", "cat", PlaceholderRef { func: 0, value: 5 });

    assert!(codegen.assign_class_ids().is_ok());
    assert!(codegen.resolve_static_field_offsets().is_ok());

    let mut offsets = std::collections::HashMap::new();
    for (ph, value) in &codegen.cc.resolutions {
        offsets.insert(ph.value, *value);
    }
    // Fields sorted by name: bar 0, foo 8, foobar 16; cat 0, dog 8.
    assert_eq!(offsets[&2], 0);
    assert_eq!(offsets[&1], 8);
    assert_eq!(offsets[&3], 16);
    assert_eq!(offsets[&5], 0);
    assert_eq!(offsets[&4], 8);
    assert!(codegen.cc.static_field_offset_values.entries.is_empty());
}

#[test]
fn test_construct_vtables() {
    let mut codegen = CodeGen::new("Main");
    codegen.add_class(dummy_java_lang_object());

    let mut rust_class = CompiledClass::new("foo/bar/MyClass", None);
    rust_class.virtual_methods = vec![
        VirtualMethodInfo {
            symbol: "java/lang/Object.toString:()Ljava/lang/String;@foo/bar/MyClass".to_string(),
            ptr: Some(yajvm::compiled_class::NativeHook::StringToString),
            overrides: Some("java/lang/Object.toString:()Ljava/lang/String;".to_string()),
        },
        VirtualMethodInfo {
            symbol: "foo/bar/MyClass.foobar:()V".to_string(),
            ptr: Some(yajvm::compiled_class::NativeHook::PrintlnInt),
            overrides: None,
        },
        VirtualMethodInfo {
            symbol: "foo/bar/MyClass.bar:()V".to_string(),
            ptr: Some(yajvm::compiled_class::NativeHook::PrintlnLong),
            overrides: None,
        },
        VirtualMethodInfo {
            symbol: "foo/bar/MyClass.foo:()V".to_string(),
            ptr: Some(yajvm::compiled_class::NativeHook::PrintlnShort),
            overrides: None,
        },
    ];
    codegen.add_class(rust_class);
    let mut naive_class = CompiledClass::new("foo/bar/Native", None);
    naive_class.virtual_methods = vec![
        VirtualMethodInfo {
            symbol: "foo/bar/Native.ZZZZZZZZZZZZZZZ".to_string(),
            ptr: None,
            overrides: None,
        },
        VirtualMethodInfo {
            symbol: "foo/bar/Native.FFFFFFFFFF".to_string(),
            ptr: None,
            overrides: None,
        },
        VirtualMethodInfo {
            symbol: "foo/bar/Native.AAA".to_string(),
            ptr: None,
            overrides: None,
        },
        VirtualMethodInfo {
            symbol: "foo/bar/Native.CCC".to_string(),
            ptr: None,
            overrides: None,
        },
        VirtualMethodInfo {
            symbol: "foo/bar/Native.BBB".to_string(),
            ptr: None,
            overrides: None,
        },
    ];
    codegen.add_class(naive_class);

    assert!(codegen.assign_class_ids().is_ok());
    assert!(codegen.build_inheritance_tree().is_ok());
    assert!(codegen.construct_vtables().is_ok());

    assert_eq!(3, codegen.vtables.len());
    assert_eq!(
        vtable_offset(&codegen, "java/lang/Object.toString:()Ljava/lang/String;"),
        0
    );
    assert_eq!(vtable_offset(&codegen, "foo/bar/MyClass.foo:()V"), 2);
    assert_eq!(vtable_offset(&codegen, "foo/bar/MyClass.bar:()V"), 1);
    assert_eq!(vtable_offset(&codegen, "foo/bar/MyClass.foobar:()V"), 3);
    assert_eq!(vtable_offset(&codegen, "foo/bar/Native.AAA"), 1);
    assert_eq!(vtable_offset(&codegen, "foo/bar/Native.BBB"), 2);
    assert_eq!(vtable_offset(&codegen, "foo/bar/Native.CCC"), 3);

    // MyClass: the toString override replaced slot zero in place, the new
    // methods appended in symbol order.
    let my_class_id = codegen.class_id("foo/bar/MyClass") as usize;
    let table: &Vec<VtSlot> = codegen.vtables[my_class_id].as_ref().unwrap();
    assert_eq!(table.len(), 4);
    assert_eq!(
        table[0].decl_symbol,
        "java/lang/Object.toString:()Ljava/lang/String;"
    );
    assert!(matches!(
        table[0].target,
        VtFn::Native(yajvm::compiled_class::NativeHook::StringToString)
    ));
    assert_eq!(table[1].decl_symbol, "foo/bar/MyClass.bar:()V");
    assert_eq!(table[2].decl_symbol, "foo/bar/MyClass.foo:()V");
    assert_eq!(table[3].decl_symbol, "foo/bar/MyClass.foobar:()V");

    // Native: slot zero is inherited from the root untouched.
    let native_id = codegen.class_id("foo/bar/Native") as usize;
    let table: &Vec<VtSlot> = codegen.vtables[native_id].as_ref().unwrap();
    assert_eq!(table.len(), 6);
    assert_eq!(
        table[0].decl_symbol,
        "java/lang/Object.toString:()Ljava/lang/String;"
    );
    assert!(matches!(
        table[0].target,
        VtFn::Native(yajvm::compiled_class::NativeHook::ObjectToString)
    ));
    assert!(matches!(&table[1].target, VtFn::Emitted(s) if s == "foo/bar/Native.AAA"));
}

#[test]
fn test_done_compilation() {
    let mut codegen = CodeGen::new("Main");
    let mut main = CompiledClass::new("Main", None);
    main.static_methods.push(StaticMethodInfo {
        symbol: "Main.main:([Ljava/lang/String;)V".to_string(),
        ptr: Some(yajvm::compiled_class::NativeHook::ObjectToString),
    });
    codegen.add_class(dummy_java_lang_object());
    codegen.add_class(main);
    assert!(codegen.done_compilation().is_ok());

    // After linking, nothing remains registered in any placeholder multimap
    // and no placeholder instruction survives.
    assert!(codegen.cc.class_id_values.entries.is_empty());
    assert!(codegen.cc.static_field_offset_values.entries.is_empty());
    assert!(codegen.cc.virtual_method_offset_values.entries.is_empty());
    assert!(!codegen.scan_has_placeholder());

    // The synthetic main allocates the class objects, runs the barrier in
    // identifier order, converts the arguments and calls the entry point.
    let program = codegen.into_program();
    let main_fn = program
        .functions
        .iter()
        .find(|f| f.symbol == "main")
        .unwrap();
    let mut runtime_calls = Vec::new();
    for block in &main_fn.blocks {
        for inst in &block.insts {
            match inst {
                yajvm::ir::IrInst::CallRuntime { callee, .. } => {
                    runtime_calls.push(callee.symbol_name());
                }
                yajvm::ir::IrInst::CallDirect { symbol, .. } => {
                    runtime_calls.push(symbol.clone());
                }
                _ => {}
            }
        }
    }
    assert_eq!(
        runtime_calls,
        vec![
            "__yajvm_new_class_object".to_string(),
            "__yajvm_new_class_object".to_string(),
            "__yajvm_get_class_object".to_string(),
            "__yajvm_get_class_object".to_string(),
            "allocate_args".to_string(),
            "Main.main:([Ljava/lang/String;)V".to_string(),
        ]
    );
}

#[test]
fn test_add_class() {
    let mut codegen = CodeGen::new("Main");
    let mut class = CompiledClass::new("MyClass", None);
    class.clinit = Some(yajvm::compiled_class::NativeHook::SystemClinit);
    class.static_methods.push(StaticMethodInfo {
        symbol: "MyClass.staticMethod:()V".to_string(),
        ptr: Some(yajvm::compiled_class::NativeHook::PrintlnInt),
    });

    codegen.add_class(class);

    assert_eq!(
        codegen.cc.native_decls[0],
        (
            "MyClass.clinit".to_string(),
            yajvm::compiled_class::NativeHook::SystemClinit
        )
    );
    assert_eq!(
        codegen.cc.native_decls[1],
        (
            "MyClass.staticMethod:()V".to_string(),
            yajvm::compiled_class::NativeHook::PrintlnInt
        )
    );
}
