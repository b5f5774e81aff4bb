//! The typed SSA intermediate representation the compiler emits.  A backend
//! collaborator consumes an `IrProgram`; the library itself only constructs
//! and rewrites it.
//!
//! Values are numbered per function.  A `Placeholder` instruction stands for
//! a 32-bit integer constant that only linking can supply; the linker
//! rewrites each one to `ConstI32` and no placeholder survives in a linked
//! program.

use vstd::prelude::*;
use crate::compiled_class::NativeHook;

verus! {

pub type ValueId = u32;

#[derive(PartialEq, Eq, Structural, Clone, Copy, Debug)]
pub enum IrType {
    I32,
    I64,
    F32,
    F64,
    Ptr,
}

/// The runtime entry points callable from emitted code.
#[derive(PartialEq, Eq, Structural, Clone, Copy, Debug)]
pub enum RuntimeFn {
    NewClassObject,
    GetClassObject,
    NewInstance,
    NewRefArray,
    NewBooleanArray,
    NewByteArray,
    NewCharArray,
    NewShortArray,
    NewIntArray,
    NewLongArray,
    NewFloatArray,
    NewDoubleArray,
    TracingBefore,
    TracingAfter,
    AllocateArgs,
}

impl RuntimeFn {
    /// The external symbol the runtime registers for this entry point.
    pub fn symbol_name(&self) -> String {
        match self {
            RuntimeFn::NewClassObject => "__yajvm_new_class_object".to_owned(),
            RuntimeFn::GetClassObject => "__yajvm_get_class_object".to_owned(),
            RuntimeFn::NewInstance => "__yajvm_new_instance".to_owned(),
            RuntimeFn::NewRefArray => "__yajvm_new_java_array".to_owned(),
            RuntimeFn::NewBooleanArray => "__yajvm_new_boolean_array".to_owned(),
            RuntimeFn::NewByteArray => "__yajvm_new_byte_array".to_owned(),
            RuntimeFn::NewCharArray => "__yajvm_new_char_array".to_owned(),
            RuntimeFn::NewShortArray => "__yajvm_new_short_array".to_owned(),
            RuntimeFn::NewIntArray => "__yajvm_new_int_array".to_owned(),
            RuntimeFn::NewLongArray => "__yajvm_new_long_array".to_owned(),
            RuntimeFn::NewFloatArray => "__yajvm_new_float_array".to_owned(),
            RuntimeFn::NewDoubleArray => "__yajvm_new_double_array".to_owned(),
            RuntimeFn::TracingBefore => "___yajvm_tracing_before".to_owned(),
            RuntimeFn::TracingAfter => "___yajvm_tracing_after".to_owned(),
            RuntimeFn::AllocateArgs => "allocate_args".to_owned(),
        }
    }
}

#[derive(PartialEq, Eq, Structural, Clone, Copy, Debug)]
pub enum ArithOp {
    Add,
    Sub,
    Mul,
    Div,
}

#[derive(PartialEq, Eq, Structural, Clone, Copy, Debug)]
pub enum IntPred {
    Eq,
    Ne,
    Lt,
    Le,
    Gt,
    Ge,
}

#[derive(Debug)]
pub enum IrInst {
    ConstI32 { dest: ValueId, value: i32 },
    ConstI64 { dest: ValueId, value: i64 },
    ConstF32 { dest: ValueId, bits: u32 },
    ConstF64 { dest: ValueId, bits: u64 },
    ConstNull { dest: ValueId },
    /// The address of an interned string object (an index into
    /// `IrProgram::const_strings`).
    ConstString { dest: ValueId, global: usize },
    /// An unresolved 32-bit symbolic constant; the linker rewrites it.
    Placeholder { dest: ValueId },
    IntBin { dest: ValueId, op: ArithOp, wide: bool, a: ValueId, b: ValueId },
    FloatBin { dest: ValueId, op: ArithOp, double: bool, a: ValueId, b: ValueId },
    /// Truncate to 8 bits then sign-extend back to 32.
    I2b { dest: ValueId, src: ValueId },
    /// Truncate to 16 bits then sign-extend back to 32.
    I2s { dest: ValueId, src: ValueId },
    /// Truncate to 16 bits then zero-extend back to 32.
    I2c { dest: ValueId, src: ValueId },
    ICmp { dest: ValueId, pred: IntPred, a: ValueId, b: ValueId },
    Lcmp { dest: ValueId, a: ValueId, b: ValueId },
    /// Three-way float compare; `g` picks the result on an unordered pair.
    Fcmp { dest: ValueId, double: bool, g: bool, a: ValueId, b: ValueId },
    ArrayLoad { dest: ValueId, ty: IrType, arr: ValueId, idx: ValueId },
    ArrayStore { arr: ValueId, idx: ValueId, value: ValueId },
    ArrayLength { dest: ValueId, arr: ValueId },
    /// Reads a static field: `class_obj` is the class-object pointer,
    /// `offset` the byte offset into its static-field buffer.
    StaticLoad { dest: ValueId, ty: IrType, class_obj: ValueId, offset: ValueId },
    StaticStore { class_obj: ValueId, offset: ValueId, value: ValueId },
    /// Loads the function pointer at `slot` of the v-table of `obj`.
    VtableLookup { dest: ValueId, obj: ValueId, slot: ValueId },
    /// The address of a class's v-table global (possibly forward declared).
    VtableAddr { dest: ValueId, class_name: String },
    /// The address of an emitted or declared function.
    FunctionAddr { dest: ValueId, symbol: String },
    CallRuntime { dest: Option<ValueId>, callee: RuntimeFn, args: Vec<ValueId> },
    CallDirect { dest: Option<ValueId>, symbol: String, args: Vec<ValueId> },
    CallIndirect { dest: Option<ValueId>, target: ValueId, args: Vec<ValueId> },
    /// Stores a boxed argument pointer into the tracer's slot vector.
    TracingArgStore { index: u32, value: ValueId },
}

#[derive(Debug)]
pub enum Terminator {
    Br { target: usize },
    CondBr { cond: ValueId, if_true: usize, if_false: usize },
    Ret { value: Option<ValueId> },
}

/// One phi node at a block head; incomings pair a predecessor block address
/// with the value flowing in along that edge.
#[derive(Debug)]
pub struct IrPhi {
    pub dest: ValueId,
    pub ty: IrType,
    pub incomings: Vec<(usize, ValueId)>,
}

#[derive(Debug)]
pub struct IrBlock {
    pub addr: usize,
    pub phis: Vec<IrPhi>,
    pub insts: Vec<IrInst>,
    pub term: Option<Terminator>,
}

#[derive(Debug)]
pub struct IrFunction {
    pub symbol: String,
    pub is_static: bool,
    /// Parameter types, isolate handle (and receiver, for virtual methods)
    /// included; parameters take value ids `0..param_tys.len()`.
    pub param_tys: Vec<IrType>,
    pub ret_ty: Option<IrType>,
    pub blocks: Vec<IrBlock>,
    pub next_value: ValueId,
}

/// The target of one v-table slot.
#[derive(Debug)]
pub enum VtFn {
    /// A function emitted by the compiler, by symbol.
    Emitted(String),
    /// A built-in native function.
    Native(NativeHook),
}

/// One v-table slot: the declaring (unsuffixed) symbol that allocated the
/// slot, and the function installed in it.
#[derive(Debug)]
pub struct VtSlot {
    pub decl_symbol: String,
    pub target: VtFn,
}

/// The linked program handed to the backend collaborator.
#[derive(Debug)]
pub struct IrProgram {
    /// Interned string literals; `ConstString` refers here by index.
    pub const_strings: Vec<String>,
    /// Declared native functions: symbol and hook.
    pub native_decls: Vec<(String, NativeHook)>,
    pub functions: Vec<IrFunction>,
    /// Emitted v-table globals, one per class in class-identifier order.
    pub vtables: Vec<(String, Vec<VtSlot>)>,
}

} // verus!
