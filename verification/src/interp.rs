//! The reference evaluator of the emitted representation: the behaviour a
//! backend must give the emitted program, made executable over the runtime
//! isolate.  It covers the integer, reference, string and array subset;
//! floating-point arithmetic and formatting are host work and are rejected.
//! Evaluation is fuel-bounded: a runaway program stops with an error rather
//! than spinning.

use vstd::prelude::*;
use vstd::string::*;
use crate::compiled_class::{BoxKind, NativeHook};
use crate::ir::{ArithOp, IntPred, IrFunction, IrInst, IrProgram, IrType, RuntimeFn, Terminator, VtFn};
use crate::isolate::{out_extends, HeapValue, InitAction, Isolate};
use crate::semantics::{dcmp_value, fcmp_value, i2b_value, i2c_value, i2s_value, lcmp_value};
use crate::stdlib::java_io::PrintStream;
use crate::stdlib::java_lang_number::i64_to_string;
use crate::tracing::MAX_TRACING_ARGS;

verus! {

broadcast use crate::isolate::lemma_out_extends_refl, crate::isolate::lemma_out_extends_append, crate::isolate::lemma_out_extends_trans;

/// Why evaluation stopped.
#[derive(Debug)]
pub enum EvalError {
    MissingMain,
    MissingFunction,
    MissingBlock,
    MissingClass,
    BadRegister,
    BadValue,
    HeapFault,
    DivisionByZero,
    TraceFault,
    UnsupportedOperation,
    OutOfFuel,
}

/// A runtime value of the evaluator.
#[derive(Clone, Copy, Debug)]
pub enum RtVal {
    Unit,
    I32(i32),
    I64(i64),
    F32(u32),
    F64(u64),
    Ref(u64),
    Null,
    StrIdx(usize),
    ClassObj(u32),
    VtableOf(u32),
    Code(usize),
    NativeFn(NativeHook),
    HostArgs,
}

fn find_function_index(program: &IrProgram, symbol: &str) -> (r: Option<usize>)
    ensures
        (r matches Some(i) ==> i < program.functions@.len()
            && program.functions@[i as int].symbol@ == symbol@),
        r is None ==> forall|i: int| 0 <= i < program.functions@.len()
            ==> (#[trigger] program.functions@[i]).symbol@ != symbol@,
{
    let n = program.functions.len();
    let mut i: usize = 0;
    while i < n
        invariant
            i <= n,
            n == program.functions@.len(),
            forall|k: int| 0 <= k < i
                ==> (#[trigger] program.functions@[k]).symbol@ != symbol@,
        decreases n - i,
    {
        if program.functions[i].symbol == symbol.to_owned() {
            return Some(i);
        }
        i = i + 1;
    }
    None
}

fn find_native_hook(program: &IrProgram, symbol: &str) -> (r: Option<NativeHook>)
{
    let n = program.native_decls.len();
    let mut i: usize = 0;
    while i < n
        invariant
            i <= n,
            n == program.native_decls@.len(),
        decreases n - i,
    {
        if program.native_decls[i].0 == symbol.to_owned() {
            return Some(program.native_decls[i].1);
        }
        i = i + 1;
    }
    None
}

fn find_vtable_index(program: &IrProgram, class_name: &str) -> (r: Option<usize>)
    ensures
        r matches Some(i) ==> i < program.vtables@.len(),
{
    let n = program.vtables.len();
    let mut i: usize = 0;
    while i < n
        invariant
            i <= n,
            n == program.vtables@.len(),
        decreases n - i,
    {
        if program.vtables[i].0 == class_name.to_owned() {
            return Some(i);
        }
        i = i + 1;
    }
    None
}

fn find_block_index(f: &IrFunction, addr: usize) -> (r: Option<usize>)
    ensures
        r matches Some(b) ==> b < f.blocks@.len(),
{
    let n = f.blocks.len();
    let mut b: usize = 0;
    while b < n
        invariant
            b <= n,
            n == f.blocks@.len(),
        decreases n - b,
    {
        if f.blocks[b].addr == addr {
            return Some(b);
        }
        b = b + 1;
    }
    None
}

fn reg_get(regs: &Vec<Option<RtVal>>, id: u32) -> (r: Result<RtVal, EvalError>)
{
    let i = id as usize;
    if i >= regs.len() {
        return Err(EvalError::BadRegister);
    }
    match &regs[i] {
        Some(v) => Ok(*v),
        None => Err(EvalError::BadRegister),
    }
}

fn reg_set(regs: &mut Vec<Option<RtVal>>, id: u32, v: RtVal) -> (r: Result<(), EvalError>)
{
    let i = id as usize;
    if i >= regs.len() {
        return Err(EvalError::BadRegister);
    }
    regs[i] = Some(v);
    Ok(())
}

fn as_i32(v: RtVal) -> (r: Result<i32, EvalError>)
{
    match v {
        RtVal::I32(x) => Ok(x),
        _ => Err(EvalError::BadValue),
    }
}

fn as_i64(v: RtVal) -> (r: Result<i64, EvalError>)
{
    match v {
        RtVal::I64(x) => Ok(x),
        _ => Err(EvalError::BadValue),
    }
}

/// The eight-byte slot representation of a value.
fn to_slot(v: RtVal) -> (r: Result<u64, EvalError>)
{
    match v {
        RtVal::I32(x) => Ok((x as u32) as u64),
        RtVal::I64(x) => Ok(x as u64),
        RtVal::F32(bits) => Ok(bits as u64),
        RtVal::F64(bits) => Ok(bits),
        RtVal::Ref(h) => Ok(h),
        RtVal::Null => Ok(0),
        _ => Err(EvalError::BadValue),
    }
}

/// Reads an eight-byte slot back at the given representation type.
fn from_slot(ty: IrType, u: u64) -> (r: RtVal)
{
    match ty {
        IrType::I32 => RtVal::I32(#[verifier::truncate] ((u as u32) as i32)),
        IrType::I64 => RtVal::I64(u as i64),
        IrType::F32 => RtVal::F32(#[verifier::truncate] (u as u32)),
        IrType::F64 => RtVal::F64(u),
        IrType::Ptr => RtVal::Ref(u),
    }
}

/// Renders a value the way the tracer shows it: strings verbatim, boxed
/// integers in decimal, booleans as `true` or `false`.
fn render_value(program: &IrProgram, iso: &Isolate, v: RtVal) -> (r: Result<String, EvalError>)
{
    match v {
        RtVal::StrIdx(g) => {
            if g >= program.const_strings.len() {
                return Err(EvalError::HeapFault);
            }
            Ok(program.const_strings[g].clone())
        },
        RtVal::Null => Ok("null".to_owned()),
        RtVal::Ref(h) => {
            let i = h as usize;
            if i >= iso.heap.len() {
                return Err(EvalError::HeapFault);
            }
            match &iso.heap[i] {
                HeapValue::Str(s) => Ok(s.clone()),
                HeapValue::Boxed { kind, bits } => match kind {
                    BoxKind::Boolean => {
                        if *bits == 1 {
                            Ok("true".to_owned())
                        } else {
                            Ok("false".to_owned())
                        }
                    },
                    BoxKind::Byte | BoxKind::Short | BoxKind::Int | BoxKind::Long => Ok(
                        i64_to_string(*bits),
                    ),
                    _ => Err(EvalError::UnsupportedOperation),
                },
                HeapValue::Arr { class, data } => render_array(iso, *class, data),
                _ => Err(EvalError::UnsupportedOperation),
            }
        },
        _ => Err(EvalError::BadValue),
    }
}

/// Renders an array the way the tracer shows it: every element quoted and
/// joined with a comma.
fn render_array(iso: &Isolate, class: u32, data: &Vec<u64>) -> (r: Result<String, EvalError>)
{
    let is_ref = match iso.try_class_id("Array") {
        Some(c) => c == class,
        None => false,
    };
    let is_int = match iso.try_class_id("ArrayInt") {
        Some(c) => c == class,
        None => false,
    };
    let is_long = match iso.try_class_id("ArrayLong") {
        Some(c) => c == class,
        None => false,
    };
    let is_bool = match iso.try_class_id("ArrayBoolean") {
        Some(c) => c == class,
        None => false,
    };
    let mut pieces: Vec<String> = Vec::new();
    let n = data.len();
    let mut k: usize = 0;
    while k < n
        invariant
            k <= n,
            n == data@.len(),
        decreases n - k,
    {
        let u = data[k];
        let piece: String = if is_ref {
            let hi = u as usize;
            if hi >= iso.heap.len() {
                return Err(EvalError::HeapFault);
            }
            match &iso.heap[hi] {
                HeapValue::Str(s) => s.clone(),
                _ => {
                    return Err(EvalError::UnsupportedOperation);
                },
            }
        } else if is_int {
            i64_to_string((#[verifier::truncate] ((u as u32) as i32)) as i64)
        } else if is_long {
            i64_to_string(u as i64)
        } else if is_bool {
            if u == 1 {
                "true".to_owned()
            } else {
                "false".to_owned()
            }
        } else {
            return Err(EvalError::UnsupportedOperation);
        };
        pieces.push(piece);
        k = k + 1;
    }
    let mut out = "[\"".to_owned();
    let np = pieces.len();
    let mut q: usize = 0;
    while q < np
        invariant
            q <= np,
            np == pieces@.len(),
        decreases np - q,
    {
        if q > 0 {
            out.append("\", \"");
        }
        out.append(pieces[q].as_str());
        q = q + 1;
    }
    out.append("\"]");
    Ok(out)
}

/// The class identifier (and so the v-table) a heap value dispatches
/// through.
fn class_of_heap(iso: &Isolate, h: u64) -> (r: Result<u32, EvalError>)
{
    let i = h as usize;
    if i >= iso.heap.len() {
        return Err(EvalError::HeapFault);
    }
    match &iso.heap[i] {
        HeapValue::Str(_) => match iso.try_class_id("java/lang/String") {
            Some(c) => Ok(c),
            None => Err(EvalError::MissingClass),
        },
        HeapValue::Boxed { kind, .. } => {
            let name = match kind {
                BoxKind::Byte => "java/lang/Byte",
                BoxKind::Char => "java/lang/Char",
                BoxKind::Short => "java/lang/Short",
                BoxKind::Int => "java/lang/Integer",
                BoxKind::Long => "java/lang/Long",
                BoxKind::Float => "java/lang/Float",
                BoxKind::Double => "java/lang/Double",
                BoxKind::Boolean => "java/lang/Boolean",
            };
            match iso.try_class_id(name) {
                Some(c) => Ok(c),
                None => Err(EvalError::MissingClass),
            }
        },
        HeapValue::Arr { class, .. } => Ok(*class),
        HeapValue::Instance { class } => Ok(*class),
    }
}

/// The array class the `newarray` runtime entry allocates for.
fn array_class_name(callee: RuntimeFn) -> (r: &'static str)
{
    match callee {
        RuntimeFn::NewBooleanArray => "ArrayBoolean",
        RuntimeFn::NewByteArray => "ArrayByte",
        RuntimeFn::NewCharArray => "ArrayChar",
        RuntimeFn::NewShortArray => "ArrayShort",
        RuntimeFn::NewIntArray => "ArrayInt",
        RuntimeFn::NewLongArray => "ArrayLong",
        RuntimeFn::NewFloatArray => "ArrayFloat",
        RuntimeFn::NewDoubleArray => "ArrayDouble",
        _ => "Array",
    }
}

/// Runs a class initializer hook, then marks the class initialized.
fn run_clinit(iso: &mut Isolate, hook: NativeHook, class_id: u32) -> (r: Result<(), EvalError>)
    ensures
        final(iso).out == old(iso).out,
        final(iso).class_ids == old(iso).class_ids,
{
    match hook {
        NativeHook::SystemClinit => {
            let sys = match iso.try_class_id("java/lang/System") {
                Some(c) => c,
                None => return Err(EvalError::MissingClass),
            };
            let ps = match iso.try_class_id("java/io/PrintStream") {
                Some(c) => c,
                None => return Err(EvalError::MissingClass),
            };
            if sys as usize >= iso.class_objects.len() || ps as usize >= iso.class_objects.len() {
                return Err(EvalError::MissingClass);
            }
            if iso.class_objects[sys as usize].static_fields.len() < 1 {
                return Err(EvalError::HeapFault);
            }
            if !(iso.heap.len() < 0xffff_0000usize) {
                return Err(EvalError::HeapFault);
            }
            crate::stdlib::java_lang_system::clinit(iso);
        },
        _ => {
            return Err(EvalError::UnsupportedOperation);
        },
    }
    if (class_id as usize) < iso.class_objects.len() {
        iso.mark_initialized(class_id);
        Ok(())
    } else {
        Err(EvalError::MissingClass)
    }
}

/// Calls a native virtual method: the built-in `println` family and the
/// `toString` implementations.
fn call_native_virtual(program: &IrProgram, iso: &mut Isolate, hook: NativeHook, argv: &Vec<RtVal>) -> (r: Result<
    Option<RtVal>,
    EvalError,
>)
    requires
        old(iso).heap@.len() < 0xffff_0000,
    ensures
        final(iso).heap@.len() <= old(iso).heap@.len() + 1,
        out_extends(old(iso).out.buf@, final(iso).out.buf@),
        final(iso).class_ids == old(iso).class_ids,
{
    match hook {
        NativeHook::PrintlnString => {
            if argv.len() < 3 {
                return Err(EvalError::BadValue);
            }
            let s = match render_value(program, iso, argv[2]) {
                Ok(s) => s,
                Err(e) => return Err(e),
            };
            PrintStream::println_string(iso, &s);
            Ok(None)
        },
        NativeHook::PrintlnInt => {
            if argv.len() < 3 {
                return Err(EvalError::BadValue);
            }
            let v = match as_i32(argv[2]) {
                Ok(v) => v,
                Err(e) => return Err(e),
            };
            PrintStream::println_int(iso, v);
            Ok(None)
        },
        NativeHook::PrintlnLong => {
            if argv.len() < 3 {
                return Err(EvalError::BadValue);
            }
            let v = match as_i64(argv[2]) {
                Ok(v) => v,
                Err(e) => return Err(e),
            };
            PrintStream::println_long(iso, v);
            Ok(None)
        },
        NativeHook::PrintlnShort => {
            if argv.len() < 3 {
                return Err(EvalError::BadValue);
            }
            let v = match as_i32(argv[2]) {
                Ok(v) => v,
                Err(e) => return Err(e),
            };
            PrintStream::println_short(iso, #[verifier::truncate] (v as i16));
            Ok(None)
        },
        NativeHook::PrintlnByte => {
            if argv.len() < 3 {
                return Err(EvalError::BadValue);
            }
            let v = match as_i32(argv[2]) {
                Ok(v) => v,
                Err(e) => return Err(e),
            };
            PrintStream::println_byte(iso, #[verifier::truncate] (v as u8));
            Ok(None)
        },
        NativeHook::PrintlnBoolean => {
            if argv.len() < 3 {
                return Err(EvalError::BadValue);
            }
            let v = match as_i32(argv[2]) {
                Ok(v) => v,
                Err(e) => return Err(e),
            };
            PrintStream::println_boolean(iso, #[verifier::truncate] (v as u32));
            Ok(None)
        },
        NativeHook::PrintlnChar => {
            if argv.len() < 3 {
                return Err(EvalError::BadValue);
            }
            let v = match as_i32(argv[2]) {
                Ok(v) => v,
                Err(e) => return Err(e),
            };
            let u: u32 = #[verifier::truncate] (v as u32);
            if u <= 0x10FFFF && !(0xD800 <= u && u <= 0xDFFF) {
                let ghost pre = iso.out.buf@;
                PrintStream::println_char(iso, u);
                proof {
                    crate::isolate::lemma_out_extends_append(
                        pre,
                        vstd::utf8::encode_scalar(u),
                    );
                    crate::isolate::lemma_out_extends_append(
                        pre + vstd::utf8::encode_scalar(u),
                        vstd::utf8::encode_utf8("\n"@),
                    );
                }
                Ok(None)
            } else {
                Err(EvalError::BadValue)
            }
        },
        NativeHook::StringToString => {
            if argv.len() < 2 {
                return Err(EvalError::BadValue);
            }
            Ok(Some(argv[1]))
        },
        NativeHook::ObjectToString => Ok(Some(RtVal::Null)),
        NativeHook::ArrayToString(_) => {
            if argv.len() < 2 {
                return Err(EvalError::BadValue);
            }
            let h = match argv[1] {
                RtVal::Ref(h) => h,
                _ => return Err(EvalError::BadValue),
            };
            let i = h as usize;
            if i >= iso.heap.len() {
                return Err(EvalError::HeapFault);
            }
            let (class, data) = match &iso.heap[i] {
                HeapValue::Arr { class, data } => (*class, data.clone()),
                _ => return Err(EvalError::BadValue),
            };
            let s = match render_array(iso, class, &data) {
                Ok(s) => s,
                Err(e) => return Err(e),
            };
            if !(iso.heap.len() < 0xffff_0000usize) {
                return Err(EvalError::HeapFault);
            }
            let nh = iso.new_java_string(&s);
            Ok(Some(RtVal::Ref(nh)))
        },
        NativeHook::BoxToString(_) => {
            if argv.len() < 2 {
                return Err(EvalError::BadValue);
            }
            let s = match render_value(program, iso, argv[1]) {
                Ok(s) => s,
                Err(e) => return Err(e),
            };
            if !(iso.heap.len() < 0xffff_0000usize) {
                return Err(EvalError::HeapFault);
            }
            let h = iso.new_java_string(&s);
            Ok(Some(RtVal::Ref(h)))
        },
        _ => Err(EvalError::UnsupportedOperation),
    }
}

/// Calls a native static method: the boxed-wrapper constructors.
fn call_native_static(iso: &mut Isolate, hook: NativeHook, argv: &Vec<RtVal>) -> (r: Result<
    Option<RtVal>,
    EvalError,
>)
    ensures
        final(iso).out == old(iso).out,
        final(iso).class_ids == old(iso).class_ids,
{
    match hook {
        NativeHook::BoxInit(kind) => {
            if argv.len() < 2 {
                return Err(EvalError::BadValue);
            }
            let h = match argv[0] {
                RtVal::Ref(h) => h,
                _ => return Err(EvalError::BadValue),
            };
            let bits: i64 = match kind {
                BoxKind::Long => match as_i64(argv[1]) {
                    Ok(v) => v,
                    Err(e) => return Err(e),
                },
                BoxKind::Byte => {
                    let v = match as_i32(argv[1]) {
                        Ok(v) => v,
                        Err(e) => return Err(e),
                    };
                    (#[verifier::truncate] (v as i8)) as i64
                },
                BoxKind::Short => {
                    let v = match as_i32(argv[1]) {
                        Ok(v) => v,
                        Err(e) => return Err(e),
                    };
                    (#[verifier::truncate] (v as i16)) as i64
                },
                BoxKind::Int | BoxKind::Boolean | BoxKind::Char => {
                    let v = match as_i32(argv[1]) {
                        Ok(v) => v,
                        Err(e) => return Err(e),
                    };
                    v as i64
                },
                _ => {
                    return Err(EvalError::UnsupportedOperation);
                },
            };
            let i = h as usize;
            if i >= iso.heap.len() {
                return Err(EvalError::HeapFault);
            }
            iso.heap[i] = HeapValue::Boxed { kind, bits };
            Ok(None)
        },
        _ => Err(EvalError::UnsupportedOperation),
    }
}

/// Runs the linked program's `main` against the isolate with the given host
/// arguments, within `fuel` evaluation steps.
pub fn run_main(program: &IrProgram, iso: &mut Isolate, host_args: &Vec<String>, fuel: u64) -> (r: Result<
    (),
    EvalError,
>)
    ensures
        out_extends(old(iso).out.buf@, final(iso).out.buf@),
        final(iso).class_ids == old(iso).class_ids,
        // without an entry point nothing runs: the isolate is untouched
        (forall|i: int| 0 <= i < program.functions@.len()
            ==> (#[trigger] program.functions@[i]).symbol@ != "main"@)
            ==> r == Err::<(), EvalError>(EvalError::MissingMain)
                && *final(iso) == *old(iso),
{
    let main = match find_function_index(program, "main") {
        Some(i) => i,
        None => return Err(EvalError::MissingMain),
    };
    let mut argv: Vec<RtVal> = Vec::new();
    argv.push(RtVal::Unit);
    argv.push(RtVal::HostArgs);
    match call_function(program, iso, main, argv, host_args, fuel) {
        Ok(_) => Ok(()),
        Err(e) => Err(e),
    }
}

/// Evaluates one emitted function.
#[verifier::loop_isolation(false)]
fn call_function(program: &IrProgram, iso: &mut Isolate, fidx: usize, argv: Vec<RtVal>, host_args: &Vec<String>, fuel: u64) -> (r: Result<
    Option<RtVal>,
    EvalError,
>)
    requires
        fidx < program.functions@.len(),
    ensures
        out_extends(old(iso).out.buf@, final(iso).out.buf@),
        final(iso).class_ids == old(iso).class_ids,
    decreases fuel, 0int,
{
    if fuel == 0 {
        return Err(EvalError::OutOfFuel);
    }
    let mut gas: u64 = fuel - 1;
    let f = &program.functions[fidx];
    let nregs = f.next_value as usize;
    let mut regs: Vec<Option<RtVal>> = Vec::new();
    let mut z: usize = 0;
    while z < nregs
        invariant
            z <= nregs,
            regs@.len() == z,
        decreases nregs - z,
    {
        regs.push(None);
        z = z + 1;
    }
    let na = argv.len();
    let mut a: usize = 0;
    while a < na
        invariant
            a <= na,
            na == argv@.len(),
        decreases na - a,
    {
        if a < regs.len() {
            regs[a] = Some(argv[a]);
        }
        a = a + 1;
    }
    let mut cur: usize = match find_block_index(f, 0) {
        Some(b) => b,
        None => return Err(EvalError::MissingBlock),
    };
    let mut prev_addr: usize = 0;
    loop
        invariant
            cur < f.blocks@.len(),
            fidx < program.functions@.len(),
            gas < fuel,
            out_extends(old(iso).out.buf@, iso.out.buf@),
            iso.class_ids == old(iso).class_ids,
        decreases gas,
    {
        if gas == 0 {
            return Err(EvalError::OutOfFuel);
        }
        gas = gas - 1;
        let blk = &f.blocks[cur];
        // Phi nodes: all of them read their incoming values together.
        let np = blk.phis.len();
        let mut staged: Vec<(u32, RtVal)> = Vec::new();
        let mut p: usize = 0;
        while p < np
            invariant
                p <= np,
                cur < f.blocks@.len(),
                np == f.blocks@[cur as int].phis@.len(),
            decreases np - p,
        {
            let phi = &blk.phis[p];
            let ni = phi.incomings.len();
            let mut found = false;
            let mut q: usize = 0;
            while q < ni
                invariant
                    q <= ni,
                    cur < f.blocks@.len(),
                    p < f.blocks@[cur as int].phis@.len(),
                    ni == f.blocks@[cur as int].phis@[p as int].incomings@.len(),
                decreases ni - q,
            {
                if phi.incomings[q].0 == prev_addr {
                    let v = match reg_get(&regs, phi.incomings[q].1) {
                        Ok(v) => v,
                        Err(e) => return Err(e),
                    };
                    staged.push((phi.dest, v));
                    found = true;
                    q = ni;
                } else {
                    q = q + 1;
                }
            }
            if !found {
                return Err(EvalError::BadRegister);
            }
            p = p + 1;
        }
        let ns = staged.len();
        let mut si: usize = 0;
        while si < ns
            invariant
                si <= ns,
                ns == staged@.len(),
            decreases ns - si,
        {
            match reg_set(&mut regs, staged[si].0, staged[si].1) {
                Ok(()) => {},
                Err(e) => return Err(e),
            }
            si = si + 1;
        }
        // Straight-line instructions.
        let ni = blk.insts.len();
        let mut k: usize = 0;
        while k < ni
            invariant
                k <= ni,
                cur < f.blocks@.len(),
                ni == f.blocks@[cur as int].insts@.len(),
                gas < fuel,
                out_extends(old(iso).out.buf@, iso.out.buf@),
                iso.class_ids == old(iso).class_ids,
            decreases ni - k,
        {
            match eval_inst(program, iso, f, &blk.insts[k], &mut regs, host_args, gas) {
                Ok(()) => {},
                Err(e) => return Err(e),
            }
            k = k + 1;
        }
        // Terminator.
        match &blk.term {
            None => {
                return Err(EvalError::MissingBlock);
            },
            Some(Terminator::Ret { value }) => {
                match value {
                    Some(v) => {
                        let rv = match reg_get(&regs, *v) {
                            Ok(rv) => rv,
                            Err(e) => return Err(e),
                        };
                        return Ok(Some(rv));
                    },
                    None => {
                        return Ok(None);
                    },
                }
            },
            Some(Terminator::Br { target }) => {
                prev_addr = blk.addr;
                cur = match find_block_index(f, *target) {
                    Some(b) => b,
                    None => return Err(EvalError::MissingBlock),
                };
            },
            Some(Terminator::CondBr { cond, if_true, if_false }) => {
                let c = match reg_get(&regs, *cond) {
                    Ok(v) => v,
                    Err(e) => return Err(e),
                };
                let taken = match as_i32(c) {
                    Ok(x) => x != 0,
                    Err(e) => return Err(e),
                };
                prev_addr = blk.addr;
                let tgt = if taken {
                    *if_true
                } else {
                    *if_false
                };
                cur = match find_block_index(f, tgt) {
                    Some(b) => b,
                    None => return Err(EvalError::MissingBlock),
                };
            },
        }
    }
}

/// Evaluates one non-terminator instruction.
#[verifier::rlimit(60)]
fn eval_inst(program: &IrProgram, iso: &mut Isolate, f: &IrFunction, inst: &IrInst, regs: &mut Vec<
    Option<RtVal>,
>, host_args: &Vec<String>, gas: u64) -> (r: Result<(), EvalError>)
    ensures
        out_extends(old(iso).out.buf@, final(iso).out.buf@),
        final(iso).class_ids == old(iso).class_ids,
    decreases gas, 1int,
{
    match inst {
        IrInst::ConstI32 { dest, value } => reg_set(regs, *dest, RtVal::I32(*value)),
        IrInst::ConstI64 { dest, value } => reg_set(regs, *dest, RtVal::I64(*value)),
        IrInst::ConstF32 { dest, bits } => reg_set(regs, *dest, RtVal::F32(*bits)),
        IrInst::ConstF64 { dest, bits } => reg_set(regs, *dest, RtVal::F64(*bits)),
        IrInst::ConstNull { dest } => reg_set(regs, *dest, RtVal::Null),
        IrInst::ConstString { dest, global } => reg_set(regs, *dest, RtVal::StrIdx(*global)),
        IrInst::Placeholder { .. } => Err(EvalError::UnsupportedOperation),
        IrInst::VtableAddr { dest, class_name } => {
            match find_vtable_index(program, class_name.as_str()) {
                Some(i) => reg_set(regs, *dest, RtVal::VtableOf(#[verifier::truncate] (i as u32))),
                None => Err(EvalError::MissingClass),
            }
        },
        IrInst::FunctionAddr { dest, symbol } => {
            match find_function_index(program, symbol.as_str()) {
                Some(i) => reg_set(regs, *dest, RtVal::Code(i)),
                None => match find_native_hook(program, symbol.as_str()) {
                    Some(h) => reg_set(regs, *dest, RtVal::NativeFn(h)),
                    None => Err(EvalError::MissingFunction),
                },
            }
        },
        IrInst::IntBin { dest, op, wide, a, b } => {
            let va = match reg_get(regs, *a) {
                Ok(v) => v,
                Err(e) => return Err(e),
            };
            let vb = match reg_get(regs, *b) {
                Ok(v) => v,
                Err(e) => return Err(e),
            };
            if *wide {
                let xa = match as_i64(va) {
                    Ok(x) => x,
                    Err(e) => return Err(e),
                };
                let xb = match as_i64(vb) {
                    Ok(x) => x,
                    Err(e) => return Err(e),
                };
                let x = match op {
                    ArithOp::Add => xa.wrapping_add(xb),
                    ArithOp::Sub => xa.wrapping_sub(xb),
                    ArithOp::Mul => xa.wrapping_mul(xb),
                    ArithOp::Div => {
                        if xb == 0 {
                            return Err(EvalError::DivisionByZero);
                        }
                        if xa == -0x8000_0000_0000_0000i64 && xb == -1 {
                            xa
                        } else {
                            xa / xb
                        }
                    },
                };
                reg_set(regs, *dest, RtVal::I64(x))
            } else {
                let xa = match as_i32(va) {
                    Ok(x) => x,
                    Err(e) => return Err(e),
                };
                let xb = match as_i32(vb) {
                    Ok(x) => x,
                    Err(e) => return Err(e),
                };
                let x = match op {
                    ArithOp::Add => xa.wrapping_add(xb),
                    ArithOp::Sub => xa.wrapping_sub(xb),
                    ArithOp::Mul => xa.wrapping_mul(xb),
                    ArithOp::Div => {
                        if xb == 0 {
                            return Err(EvalError::DivisionByZero);
                        }
                        if xa == -0x8000_0000i32 && xb == -1 {
                            xa
                        } else {
                            xa / xb
                        }
                    },
                };
                reg_set(regs, *dest, RtVal::I32(x))
            }
        },
        IrInst::FloatBin { .. } => Err(EvalError::UnsupportedOperation),
        IrInst::I2b { dest, src } => {
            let v = match reg_get(regs, *src) {
                Ok(v) => v,
                Err(e) => return Err(e),
            };
            let x = match as_i32(v) {
                Ok(x) => x,
                Err(e) => return Err(e),
            };
            reg_set(regs, *dest, RtVal::I32(i2b_value(x)))
        },
        IrInst::I2s { dest, src } => {
            let v = match reg_get(regs, *src) {
                Ok(v) => v,
                Err(e) => return Err(e),
            };
            let x = match as_i32(v) {
                Ok(x) => x,
                Err(e) => return Err(e),
            };
            reg_set(regs, *dest, RtVal::I32(i2s_value(x)))
        },
        IrInst::I2c { dest, src } => {
            let v = match reg_get(regs, *src) {
                Ok(v) => v,
                Err(e) => return Err(e),
            };
            let x = match as_i32(v) {
                Ok(x) => x,
                Err(e) => return Err(e),
            };
            reg_set(regs, *dest, RtVal::I32(i2c_value(x)))
        },
        IrInst::ICmp { dest, pred, a, b } => {
            let xa = match reg_get(regs, *a) {
                Ok(v) => match as_i32(v) {
                    Ok(x) => x,
                    Err(e) => return Err(e),
                },
                Err(e) => return Err(e),
            };
            let xb = match reg_get(regs, *b) {
                Ok(v) => match as_i32(v) {
                    Ok(x) => x,
                    Err(e) => return Err(e),
                },
                Err(e) => return Err(e),
            };
            let c = match pred {
                IntPred::Eq => xa == xb,
                IntPred::Ne => xa != xb,
                IntPred::Lt => xa < xb,
                IntPred::Le => xa <= xb,
                IntPred::Gt => xa > xb,
                IntPred::Ge => xa >= xb,
            };
            reg_set(regs, *dest, RtVal::I32(if c {
                1
            } else {
                0
            }))
        },
        IrInst::Lcmp { dest, a, b } => {
            let xa = match reg_get(regs, *a) {
                Ok(v) => match as_i64(v) {
                    Ok(x) => x,
                    Err(e) => return Err(e),
                },
                Err(e) => return Err(e),
            };
            let xb = match reg_get(regs, *b) {
                Ok(v) => match as_i64(v) {
                    Ok(x) => x,
                    Err(e) => return Err(e),
                },
                Err(e) => return Err(e),
            };
            reg_set(regs, *dest, RtVal::I32(lcmp_value(xa, xb)))
        },
        IrInst::Fcmp { dest, double, g, a, b } => {
            let va = match reg_get(regs, *a) {
                Ok(v) => v,
                Err(e) => return Err(e),
            };
            let vb = match reg_get(regs, *b) {
                Ok(v) => v,
                Err(e) => return Err(e),
            };
            let x = if *double {
                match (va, vb) {
                    (RtVal::F64(ba), RtVal::F64(bb)) => dcmp_value(ba, bb, *g),
                    _ => return Err(EvalError::BadValue),
                }
            } else {
                match (va, vb) {
                    (RtVal::F32(ba), RtVal::F32(bb)) => fcmp_value(ba, bb, *g),
                    _ => return Err(EvalError::BadValue),
                }
            };
            reg_set(regs, *dest, RtVal::I32(x))
        },
        IrInst::ArrayLoad { dest, ty, arr, idx } => {
            let h = match reg_get(regs, *arr) {
                Ok(RtVal::Ref(h)) => h,
                Ok(_) => return Err(EvalError::BadValue),
                Err(e) => return Err(e),
            };
            let i = match reg_get(regs, *idx) {
                Ok(v) => match as_i32(v) {
                    Ok(x) => x,
                    Err(e) => return Err(e),
                },
                Err(e) => return Err(e),
            };
            if i < 0 {
                return Err(EvalError::HeapFault);
            }
            let hi = h as usize;
            if hi >= iso.heap.len() {
                return Err(EvalError::HeapFault);
            }
            let u = match &iso.heap[hi] {
                HeapValue::Arr { data, .. } => {
                    let ii = i as usize;
                    if ii >= data.len() {
                        return Err(EvalError::HeapFault);
                    }
                    data[ii]
                },
                _ => return Err(EvalError::BadValue),
            };
            reg_set(regs, *dest, from_slot(*ty, u))
        },
        IrInst::ArrayStore { arr, idx, value } => {
            let h = match reg_get(regs, *arr) {
                Ok(RtVal::Ref(h)) => h,
                Ok(_) => return Err(EvalError::BadValue),
                Err(e) => return Err(e),
            };
            let i = match reg_get(regs, *idx) {
                Ok(v) => match as_i32(v) {
                    Ok(x) => x,
                    Err(e) => return Err(e),
                },
                Err(e) => return Err(e),
            };
            if i < 0 {
                return Err(EvalError::HeapFault);
            }
            let v = match reg_get(regs, *value) {
                Ok(v) => v,
                Err(e) => return Err(e),
            };
            let u = match to_slot(v) {
                Ok(u) => u,
                Err(e) => return Err(e),
            };
            let hi = h as usize;
            if hi >= iso.heap.len() {
                return Err(EvalError::HeapFault);
            }
            match &mut iso.heap[hi] {
                HeapValue::Arr { data, .. } => {
                    let ii = i as usize;
                    if ii >= data.len() {
                        return Err(EvalError::HeapFault);
                    }
                    data[ii] = u;
                    Ok(())
                },
                _ => Err(EvalError::BadValue),
            }
        },
        IrInst::ArrayLength { dest, arr } => {
            let h = match reg_get(regs, *arr) {
                Ok(RtVal::Ref(h)) => h,
                Ok(_) => return Err(EvalError::BadValue),
                Err(e) => return Err(e),
            };
            let hi = h as usize;
            if hi >= iso.heap.len() {
                return Err(EvalError::HeapFault);
            }
            match &iso.heap[hi] {
                HeapValue::Arr { data, .. } => {
                    let n = data.len();
                    if n > 0x7fff_ffffusize {
                        return Err(EvalError::HeapFault);
                    }
                    reg_set(regs, *dest, RtVal::I32(n as i32))
                },
                _ => Err(EvalError::BadValue),
            }
        },
        IrInst::StaticLoad { dest, ty, class_obj, offset } => {
            let c = match reg_get(regs, *class_obj) {
                Ok(RtVal::ClassObj(c)) => c,
                Ok(_) => return Err(EvalError::BadValue),
                Err(e) => return Err(e),
            };
            let o = match reg_get(regs, *offset) {
                Ok(v) => match as_i32(v) {
                    Ok(x) => x,
                    Err(e) => return Err(e),
                },
                Err(e) => return Err(e),
            };
            if o < 0 {
                return Err(EvalError::HeapFault);
            }
            let ci = c as usize;
            if ci >= iso.class_objects.len() {
                return Err(EvalError::HeapFault);
            }
            let slot = (o as usize) / 8;
            if slot >= iso.class_objects[ci].static_fields.len() {
                return Err(EvalError::HeapFault);
            }
            let u = iso.class_objects[ci].static_fields[slot];
            reg_set(regs, *dest, from_slot(*ty, u))
        },
        IrInst::StaticStore { class_obj, offset, value } => {
            let c = match reg_get(regs, *class_obj) {
                Ok(RtVal::ClassObj(c)) => c,
                Ok(_) => return Err(EvalError::BadValue),
                Err(e) => return Err(e),
            };
            let o = match reg_get(regs, *offset) {
                Ok(v) => match as_i32(v) {
                    Ok(x) => x,
                    Err(e) => return Err(e),
                },
                Err(e) => return Err(e),
            };
            if o < 0 {
                return Err(EvalError::HeapFault);
            }
            let v = match reg_get(regs, *value) {
                Ok(v) => v,
                Err(e) => return Err(e),
            };
            let u = match to_slot(v) {
                Ok(u) => u,
                Err(e) => return Err(e),
            };
            let ci = c as usize;
            if ci >= iso.class_objects.len() {
                return Err(EvalError::HeapFault);
            }
            let slot = (o as usize) / 8;
            if slot >= iso.class_objects[ci].static_fields.len() {
                return Err(EvalError::HeapFault);
            }
            iso.class_objects[ci].static_fields[slot] = u;
            Ok(())
        },
        IrInst::VtableLookup { dest, obj, slot } => {
            let h = match reg_get(regs, *obj) {
                Ok(RtVal::Ref(h)) => h,
                Ok(RtVal::StrIdx(g)) => {
                    // A string constant used as a receiver: materialize it.
                    if g >= program.const_strings.len() {
                        return Err(EvalError::HeapFault);
                    }
                    if !(iso.heap.len() < 0xffff_0000usize) {
                        return Err(EvalError::HeapFault);
                    }
                    let s = program.const_strings[g].clone();
                    let nh = iso.new_java_string(&s);
                    match reg_set(regs, *obj, RtVal::Ref(nh)) {
                        Ok(()) => {},
                        Err(e) => return Err(e),
                    }
                    nh
                },
                Ok(_) => return Err(EvalError::BadValue),
                Err(e) => return Err(e),
            };
            let c = match class_of_heap(iso, h) {
                Ok(c) => c,
                Err(e) => return Err(e),
            };
            let s = match reg_get(regs, *slot) {
                Ok(v) => match as_i32(v) {
                    Ok(x) => x,
                    Err(e) => return Err(e),
                },
                Err(e) => return Err(e),
            };
            if s < 0 {
                return Err(EvalError::HeapFault);
            }
            let ci = c as usize;
            if ci >= program.vtables.len() {
                return Err(EvalError::MissingClass);
            }
            let si = s as usize;
            if si >= program.vtables[ci].1.len() {
                return Err(EvalError::MissingFunction);
            }
            match &program.vtables[ci].1[si].target {
                VtFn::Emitted(sym) => match find_function_index(program, sym.as_str()) {
                    Some(i) => reg_set(regs, *dest, RtVal::Code(i)),
                    None => Err(EvalError::MissingFunction),
                },
                VtFn::Native(hook) => reg_set(regs, *dest, RtVal::NativeFn(*hook)),
            }
        },
        IrInst::TracingArgStore { index, value } => {
            let v = match reg_get(regs, *value) {
                Ok(v) => v,
                Err(e) => return Err(e),
            };
            let rendered = match render_value(program, iso, v) {
                Ok(s) => s,
                Err(e) => return Err(e),
            };
            let i = *index as usize;
            if i >= MAX_TRACING_ARGS {
                return Err(EvalError::TraceFault);
            }
            let t = iso.tracer();
            t.set_arg(i, rendered);
            Ok(())
        },
        IrInst::CallRuntime { dest, callee, args } => eval_runtime_call(
            program,
            iso,
            regs,
            host_args,
            *dest,
            *callee,
            args,
        ),
        IrInst::CallDirect { dest, symbol, args } => {
            let na = args.len();
            let mut argv: Vec<RtVal> = Vec::new();
            let mut a: usize = 0;
            while a < na
                invariant
                    a <= na,
                    na == args@.len(),
                decreases na - a,
            {
                let v = match reg_get(regs, args[a]) {
                    Ok(v) => v,
                    Err(e) => return Err(e),
                };
                argv.push(v);
                a = a + 1;
            }
            match find_function_index(program, symbol.as_str()) {
                Some(i) => {
                    let ret = match call_function(program, iso, i, argv, host_args, gas) {
                        Ok(r) => r,
                        Err(e) => return Err(e),
                    };
                    match (dest, ret) {
                        (Some(d), Some(v)) => reg_set(regs, *d, v),
                        (Some(_), None) => Err(EvalError::BadValue),
                        (None, _) => Ok(()),
                    }
                },
                None => match find_native_hook(program, symbol.as_str()) {
                    Some(hook) => {
                        let ret = match call_native_static(iso, hook, &argv) {
                            Ok(r) => r,
                            Err(e) => return Err(e),
                        };
                        match (dest, ret) {
                            (Some(d), Some(v)) => reg_set(regs, *d, v),
                            (Some(_), None) => Err(EvalError::BadValue),
                            (None, _) => Ok(()),
                        }
                    },
                    None => Err(EvalError::MissingFunction),
                },
            }
        },
        IrInst::CallIndirect { dest, target, args } => {
            let na = args.len();
            let mut argv: Vec<RtVal> = Vec::new();
            let mut a: usize = 0;
            while a < na
                invariant
                    a <= na,
                    na == args@.len(),
                decreases na - a,
            {
                let v = match reg_get(regs, args[a]) {
                    Ok(v) => v,
                    Err(e) => return Err(e),
                };
                argv.push(v);
                a = a + 1;
            }
            let t = match reg_get(regs, *target) {
                Ok(t) => t,
                Err(e) => return Err(e),
            };
            let ret = match t {
                RtVal::Code(i) => {
                    if i >= program.functions.len() {
                        return Err(EvalError::MissingFunction);
                    }
                    match call_function(program, iso, i, argv, host_args, gas) {
                        Ok(r) => r,
                        Err(e) => return Err(e),
                    }
                },
                RtVal::NativeFn(hook) => {
                    if !(iso.heap.len() < 0xffff_0000usize) {
                        return Err(EvalError::HeapFault);
                    }
                    match call_native_virtual(program, iso, hook, &argv) {
                        Ok(r) => r,
                        Err(e) => return Err(e),
                    }
                },
                _ => return Err(EvalError::BadValue),
            };
            match (dest, ret) {
                (Some(d), Some(v)) => reg_set(regs, *d, v),
                (Some(_), None) => Err(EvalError::BadValue),
                (None, _) => Ok(()),
            }
        },
    }
}

/// Evaluates one runtime-ABI call.
fn eval_runtime_call(program: &IrProgram, iso: &mut Isolate, regs: &mut Vec<Option<RtVal>>, host_args: &Vec<
    String,
>, dest: Option<u32>, callee: RuntimeFn, args: &Vec<u32>) -> (r: Result<(), EvalError>)
    ensures
        final(iso).out == old(iso).out,
        final(iso).class_ids == old(iso).class_ids,
{
    match callee {
        RuntimeFn::NewClassObject => {
            if args.len() < 6 {
                return Err(EvalError::BadValue);
            }
            let cid = match reg_get(regs, args[1]) {
                Ok(v) => match as_i32(v) {
                    Ok(x) => x,
                    Err(e) => return Err(e),
                },
                Err(e) => return Err(e),
            };
            let sfs = match reg_get(regs, args[2]) {
                Ok(v) => match as_i32(v) {
                    Ok(x) => x,
                    Err(e) => return Err(e),
                },
                Err(e) => return Err(e),
            };
            let isz = match reg_get(regs, args[3]) {
                Ok(v) => match as_i32(v) {
                    Ok(x) => x,
                    Err(e) => return Err(e),
                },
                Err(e) => return Err(e),
            };
            let vt = match reg_get(regs, args[4]) {
                Ok(RtVal::VtableOf(c)) => c,
                Ok(_) => return Err(EvalError::BadValue),
                Err(e) => return Err(e),
            };
            let clinit = match reg_get(regs, args[5]) {
                Ok(RtVal::NativeFn(h)) => Some(h),
                Ok(RtVal::Null) => None,
                Ok(RtVal::Code(_)) => None,
                Ok(_) => return Err(EvalError::BadValue),
                Err(e) => return Err(e),
            };
            if cid < 0 || sfs < 0 || isz < 0 {
                return Err(EvalError::BadValue);
            }
            if (cid as usize) >= iso.class_objects.len() {
                return Err(EvalError::MissingClass);
            }
            iso.new_class_object(
                #[verifier::truncate] (cid as u32),
                #[verifier::truncate] (sfs as u32),
                #[verifier::truncate] (isz as u32),
                vt,
                clinit,
            );
            Ok(())
        },
        RuntimeFn::GetClassObject => {
            if args.len() < 3 {
                return Err(EvalError::BadValue);
            }
            let cid = match reg_get(regs, args[1]) {
                Ok(v) => match as_i32(v) {
                    Ok(x) => x,
                    Err(e) => return Err(e),
                },
                Err(e) => return Err(e),
            };
            let need = match reg_get(regs, args[2]) {
                Ok(v) => match as_i32(v) {
                    Ok(x) => x != 0,
                    Err(e) => return Err(e),
                },
                Err(e) => return Err(e),
            };
            if cid < 0 || (cid as usize) >= iso.class_objects.len() {
                return Err(EvalError::MissingClass);
            }
            let c: u32 = #[verifier::truncate] (cid as u32);
            match iso.get_class_object(c, need) {
                InitAction::RunClinit(hook) => {
                    match run_clinit(iso, hook, c) {
                        Ok(()) => {},
                        Err(e) => return Err(e),
                    }
                },
                InitAction::Nothing => {
                    if need && (c as usize) < iso.class_objects.len() {
                        iso.mark_initialized(c);
                    }
                },
            }
            match dest {
                Some(d) => reg_set(regs, d, RtVal::ClassObj(c)),
                None => Ok(()),
            }
        },
        RuntimeFn::NewInstance => {
            if args.len() < 2 {
                return Err(EvalError::BadValue);
            }
            let cid = match reg_get(regs, args[1]) {
                Ok(v) => match as_i32(v) {
                    Ok(x) => x,
                    Err(e) => return Err(e),
                },
                Err(e) => return Err(e),
            };
            if cid < 0 || (cid as usize) >= iso.class_objects.len() {
                return Err(EvalError::MissingClass);
            }
            if !(iso.heap.len() < 0xffff_0000usize) {
                return Err(EvalError::HeapFault);
            }
            let h = iso.new_instance(#[verifier::truncate] (cid as u32));
            match dest {
                Some(d) => reg_set(regs, d, RtVal::Ref(h)),
                None => Ok(()),
            }
        },
        RuntimeFn::AllocateArgs => {
            let arr_class = match iso.try_class_id("Array") {
                Some(c) => c,
                None => return Err(EvalError::MissingClass),
            };
            if !(iso.heap.len() < 0xffff_0000usize) || host_args.len() >= 0xffff_0000usize {
                return Err(EvalError::HeapFault);
            }
            let h = iso.allocate_args(host_args, arr_class);
            match dest {
                Some(d) => reg_set(regs, d, RtVal::Ref(h)),
                None => Ok(()),
            }
        },
        RuntimeFn::TracingBefore => {
            if args.len() < 3 {
                return Err(EvalError::BadValue);
            }
            let symv = match reg_get(regs, args[1]) {
                Ok(v) => v,
                Err(e) => return Err(e),
            };
            let sym = match render_value(program, iso, symv) {
                Ok(s) => s,
                Err(e) => return Err(e),
            };
            let n = match reg_get(regs, args[2]) {
                Ok(v) => match as_i32(v) {
                    Ok(x) => x,
                    Err(e) => return Err(e),
                },
                Err(e) => return Err(e),
            };
            if n < 0 {
                return Err(EvalError::TraceFault);
            }
            let shown: usize = if n as usize > MAX_TRACING_ARGS {
                MAX_TRACING_ARGS
            } else {
                n as usize
            };
            let t = iso.tracer();
            if t.args_result_vec.len() < shown {
                return Err(EvalError::TraceFault);
            }
            if t.depth == usize::MAX {
                return Err(EvalError::TraceFault);
            }
            t.before(sym.as_str(), #[verifier::truncate] (n as u32));
            Ok(())
        },
        RuntimeFn::TracingAfter => {
            if args.len() < 3 {
                return Err(EvalError::BadValue);
            }
            let symv = match reg_get(regs, args[1]) {
                Ok(v) => v,
                Err(e) => return Err(e),
            };
            let sym = match render_value(program, iso, symv) {
                Ok(s) => s,
                Err(e) => return Err(e),
            };
            let retv = match reg_get(regs, args[2]) {
                Ok(v) => v,
                Err(e) => return Err(e),
            };
            let rendered: Option<String> = match retv {
                RtVal::Null => None,
                v => match render_value(program, iso, v) {
                    Ok(s) => Some(s),
                    Err(e) => return Err(e),
                },
            };
            let t = iso.tracer();
            if t.depth == 0 {
                return Err(EvalError::TraceFault);
            }
            match &rendered {
                Some(s) => t.after(sym.as_str(), Some(s.as_str())),
                None => t.after(sym.as_str(), None),
            }
            Ok(())
        },
        _ => {
            // The array allocators.
            if args.len() < 2 {
                return Err(EvalError::BadValue);
            }
            let len = match reg_get(regs, args[1]) {
                Ok(v) => match as_i32(v) {
                    Ok(x) => x,
                    Err(e) => return Err(e),
                },
                Err(e) => return Err(e),
            };
            if len < 0 {
                return Err(EvalError::HeapFault);
            }
            let name = array_class_name(callee);
            let cid = match iso.try_class_id(name) {
                Some(c) => c,
                None => return Err(EvalError::MissingClass),
            };
            if !(iso.heap.len() < 0xffff_0000usize) {
                return Err(EvalError::HeapFault);
            }
            let h = iso.new_java_array(cid, len as usize);
            match dest {
                Some(d) => reg_set(regs, d, RtVal::Ref(h)),
                None => Ok(()),
            }
        },
    }
}

} // verus!
