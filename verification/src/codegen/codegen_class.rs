//! Compiling one parsed class: the abstract-interpretation pre-pass that
//! discovers basic-block boundaries and per-slot types, and the lowering
//! pass that emits the typed intermediate representation with phi nodes at
//! every join point.

use vstd::prelude::*;
use vstd::string::*;
use crate::classfile::{ACC_STATIC, ClassModel, ConstEntry, Instruction, MethodModel};
use crate::codegen::codegen_context::{CodegenContext, PlaceholderRef, ir_type_from_field_type, ir_signature_from_method_type};
use crate::codegen::descriptor::{BaseType, FieldType, MethodType, try_parse_field_type_descriptor, try_parse_method_descriptor};
use crate::compiled_class::{CompiledClass, StaticMethodInfo};
use crate::ir::{ArithOp, IntPred, IrBlock, IrFunction, IrInst, IrPhi, IrType, RuntimeFn, Terminator, ValueId};

verus! {

/// A fatal compilation failure: malformed input or a construct outside the
/// supported subset.
#[derive(Debug)]
pub enum JitError {
    BadConstantPool { index: u16 },
    BadDescriptor,
    UnsupportedInstruction { addr: usize, name: String },
    UnsupportedConstant { addr: usize },
    StackUnderflow { addr: usize },
    StackNotEmpty,
    MissingLocalType { addr: usize },
    BadBranch { addr: usize },
    NonLocalStaticCall { class_name: String },
    MissingBlock { addr: usize },
    PhiMismatch { addr: usize },
    CapacityExceeded,
}

impl FieldType {
    /// A structural copy.
    pub fn duplicate(&self) -> (r: FieldType)
        ensures
            r == *self,
        decreases self,
    {
        match self {
            FieldType::BaseType(b) => FieldType::BaseType(*b),
            FieldType::ObjectTypeJavaLangByte => FieldType::ObjectTypeJavaLangByte,
            FieldType::ObjectTypeJavaLangChar => FieldType::ObjectTypeJavaLangChar,
            FieldType::ObjectTypeJavaLangDouble => FieldType::ObjectTypeJavaLangDouble,
            FieldType::ObjectTypeJavaLangFloat => FieldType::ObjectTypeJavaLangFloat,
            FieldType::ObjectTypeJavaLangInteger => FieldType::ObjectTypeJavaLangInteger,
            FieldType::ObjectTypeJavaLangLong => FieldType::ObjectTypeJavaLangLong,
            FieldType::ObjectTypeJavaLangShort => FieldType::ObjectTypeJavaLangShort,
            FieldType::ObjectTypeJavaLangBoolean => FieldType::ObjectTypeJavaLangBoolean,
            FieldType::ObjectType(name) => FieldType::ObjectType(name.clone()),
            FieldType::ArrayType(inner) => FieldType::ArrayType(Box::new((**inner).duplicate())),
        }
    }
}

fn dup_types(v: &Vec<FieldType>) -> (r: Vec<FieldType>)
    ensures
        r@ == v@,
{
    let n = v.len();
    let mut out: Vec<FieldType> = Vec::new();
    let mut i: usize = 0;
    while i < n
        invariant
            i <= n,
            n == v@.len(),
            out@ =~= v@.subrange(0, i as int),
        decreases n - i,
    {
        out.push(v[i].duplicate());
        proof {
            assert(out@ =~= v@.subrange(0, i as int + 1));
        }
        i = i + 1;
    }
    proof {
        assert(v@.subrange(0, n as int) =~= v@);
    }
    out
}

// ------------------------------------------------------------------
// Constant-pool access.  Indexes are 1-based.
// ------------------------------------------------------------------

/// The UTF-8 string at 1-based pool index `index`.
fn pool_utf8(cls: &ClassModel, index: u16) -> (r: Result<String, JitError>)
    ensures
        r matches Err(e) ==> !(e is UnsupportedInstruction),
        r matches Ok(s) ==> 1 <= index && (index as int) <= cls.const_pool@.len()
            && (cls.const_pool@[index as int - 1] matches ConstEntry::Utf8(u) && s@ == u@),
{
    let i = index as usize;
    if i == 0 || i > cls.const_pool.len() {
        return Err(JitError::BadConstantPool { index });
    }
    match &cls.const_pool[i - 1] {
        ConstEntry::Utf8(u) => Ok(u.clone()),
        _ => Err(JitError::BadConstantPool { index }),
    }
}

/// The name of the class named by the `ClassRef` at pool index `index`.
fn pool_class_name(cls: &ClassModel, index: u16) -> (r: Result<String, JitError>)
    ensures
        r matches Err(e) ==> !(e is UnsupportedInstruction),
{
    let i = index as usize;
    if i == 0 || i > cls.const_pool.len() {
        return Err(JitError::BadConstantPool { index });
    }
    let name_index = match &cls.const_pool[i - 1] {
        ConstEntry::ClassRef { name_index } => *name_index,
        _ => {
            return Err(JitError::BadConstantPool { index });
        },
    };
    pool_utf8(cls, name_index)
}

/// Resolves a field or method reference: the class name, the member name,
/// and the member descriptor.
fn resolve_class_field(cls: &ClassModel, class_index: u16, name_and_type_index: u16) -> (r: Result<
    (String, String, String),
    JitError,
>)
    ensures
        r matches Err(e) ==> !(e is UnsupportedInstruction),
{
    let class_name = match pool_class_name(cls, class_index) {
        Ok(n) => n,
        Err(e) => return Err(e),
    };
    let i = name_and_type_index as usize;
    if i == 0 || i > cls.const_pool.len() {
        return Err(JitError::BadConstantPool { index: name_and_type_index });
    }
    let (name_index, descriptor_index) = match &cls.const_pool[i - 1] {
        ConstEntry::NameAndType { name_index, descriptor_index } => (*name_index, *descriptor_index),
        _ => {
            return Err(JitError::BadConstantPool { index: name_and_type_index });
        },
    };
    let member = match pool_utf8(cls, name_index) {
        Ok(n) => n,
        Err(e) => return Err(e),
    };
    let descriptor = match pool_utf8(cls, descriptor_index) {
        Ok(n) => n,
        Err(e) => return Err(e),
    };
    Ok((class_name, member, descriptor))
}

/// The method reference at pool index `index`.
fn pool_method_ref(cls: &ClassModel, index: u16) -> (r: Result<(String, String, String), JitError>)
    ensures
        r matches Err(e) ==> !(e is UnsupportedInstruction),
{
    let i = index as usize;
    if i == 0 || i > cls.const_pool.len() {
        return Err(JitError::BadConstantPool { index });
    }
    let (class_index, name_and_type_index) = match &cls.const_pool[i - 1] {
        ConstEntry::MethodRef { class_index, name_and_type_index } => (*class_index, *name_and_type_index),
        _ => {
            return Err(JitError::BadConstantPool { index });
        },
    };
    resolve_class_field(cls, class_index, name_and_type_index)
}

/// The field reference at pool index `index`.
fn pool_field_ref(cls: &ClassModel, index: u16) -> (r: Result<(String, String, String), JitError>)
    ensures
        r matches Err(e) ==> !(e is UnsupportedInstruction),
{
    let i = index as usize;
    if i == 0 || i > cls.const_pool.len() {
        return Err(JitError::BadConstantPool { index });
    }
    let (class_index, name_and_type_index) = match &cls.const_pool[i - 1] {
        ConstEntry::FieldRef { class_index, name_and_type_index } => (*class_index, *name_and_type_index),
        _ => {
            return Err(JitError::BadConstantPool { index });
        },
    };
    resolve_class_field(cls, class_index, name_and_type_index)
}

/// `<class>.<member>:<descriptor>`.
fn make_symbol(class_name: &str, member: &str, descriptor: &str) -> (r: String)
    ensures
        r@ == class_name@ + "."@ + member@ + ":"@ + descriptor@,
{
    let mut s = class_name.to_owned();
    s.append(".");
    s.append(member);
    s.append(":");
    s.append(descriptor);
    s
}

// ------------------------------------------------------------------
// The abstract interpreter.
// ------------------------------------------------------------------

/// What the pre-pass learned about one method: its symbol and signature, the
/// basic-block starts, each block's entry operand-stack snapshot, the type
/// of every touched local slot, and the erased instruction addresses.
pub struct MethodAnalysis {
    pub symbol: String,
    pub descriptor: MethodType,
    pub descriptor_string: String,
    pub is_static: bool,
    pub param_count: usize,
    pub labels: Vec<usize>,
    pub label_stacks: Vec<(usize, Vec<FieldType>)>,
    pub locals_types: Vec<Option<FieldType>>,
    pub ignored: Vec<usize>,
}

/// The branch targets an instruction registers as block starts.
pub open spec fn instr_targets(addr: int, instr: Instruction) -> Seq<int> {
    match instr {
        Instruction::Goto(d) => seq![addr + d as int],
        Instruction::IfIcmpeq(d) => seq![addr + d as int, addr + 3],
        Instruction::IfIcmpne(d) => seq![addr + d as int, addr + 3],
        Instruction::IfIcmplt(d) => seq![addr + d as int, addr + 3],
        Instruction::IfIcmpge(d) => seq![addr + d as int, addr + 3],
        Instruction::IfIcmpgt(d) => seq![addr + d as int, addr + 3],
        Instruction::IfIcmple(d) => seq![addr + d as int, addr + 3],
        Instruction::Ifeq(d) => seq![addr + d as int, addr + 3],
        Instruction::Ifne(d) => seq![addr + d as int, addr + 3],
        Instruction::Ifgt(d) => seq![addr + d as int, addr + 3],
        Instruction::Ifge(d) => seq![addr + d as int, addr + 3],
        Instruction::Ifle(d) => seq![addr + d as int, addr + 3],
        _ => Seq::empty(),
    }
}

/// Whether some registered block start equals `target`.
pub open spec fn label_has(labels: Seq<usize>, target: int) -> bool {
    exists|l: int| 0 <= l < labels.len() && #[trigger] labels[l] as int == target
}

/// Every branch target of every instruction is a known block start.
pub open spec fn targets_covered(code: Seq<(usize, Instruction)>, labels: Seq<usize>) -> bool {
    forall|q: int, t: int|
        0 <= q < code.len() && 0 <= t < instr_targets(code[q].0 as int, code[q].1).len()
            ==> label_has(labels, #[trigger] instr_targets(code[q].0 as int, code[q].1)[t])
}

struct AbsState {
    stack: Vec<FieldType>,
    locals: Vec<Option<FieldType>>,
    labels: Vec<usize>,
    label_stacks: Vec<(usize, Vec<FieldType>)>,
    ignored: Vec<usize>,
}

impl AbsState {
    /// Every recorded entry snapshot belongs to a known block start.
    spec fn labels_wf(&self) -> bool {
        forall|k: int| 0 <= k < self.label_stacks@.len()
            ==> self.labels@.contains((#[trigger] self.label_stacks@[k]).0)
    }

    /// Registers `target` as a block start, remembering the current stack as
    /// its entry snapshot if it is new.
    fn ensure_label(&mut self, target: usize)
        requires
            old(self).labels_wf(),
        ensures
            final(self).labels_wf(),
            final(self).labels@.contains(target),
            forall|x: usize| old(self).labels@.contains(x) ==> final(self).labels@.contains(x),
            final(self).stack == old(self).stack,
            final(self).locals == old(self).locals,
            final(self).ignored == old(self).ignored,
    {
        let n = self.labels.len();
        let mut i: usize = 0;
        while i < n
            invariant
                i <= n,
                n == self.labels@.len(),
                self.labels == old(self).labels,
                self.label_stacks == old(self).label_stacks,
                self.stack == old(self).stack,
                self.locals == old(self).locals,
                self.ignored == old(self).ignored,
                old(self).labels_wf(),
            decreases n - i,
        {
            if self.labels[i] == target {
                proof {
                    assert(self.labels@[i as int] == target);
                }
                return;
            }
            i = i + 1;
        }
        let snapshot = dup_types(&self.stack);
        self.labels.push(target);
        self.label_stacks.push((target, snapshot));
        proof {
            assert(self.labels@[self.labels@.len() - 1] == target);
            assert forall|x: usize| old(self).labels@.contains(x)
                implies self.labels@.contains(x) by {
                let w = choose|w: int| 0 <= w < old(self).labels@.len() && old(self).labels@[w] == x;
                assert(self.labels@[w] == x);
            }
            assert forall|k: int| 0 <= k < self.label_stacks@.len()
                implies self.labels@.contains((#[trigger] self.label_stacks@[k]).0) by {
                if k < old(self).label_stacks@.len() {
                    assert(old(self).labels@.contains(old(self).label_stacks@[k].0));
                } else {
                    assert(self.label_stacks@[k].0 == target);
                }
            }
        }
    }

    /// Extends the local table to `count` slots.
    fn initialize_local_capacity(&mut self, count: usize)
        ensures
            final(self).stack == old(self).stack,
            final(self).labels == old(self).labels,
            final(self).label_stacks == old(self).label_stacks,
            final(self).ignored == old(self).ignored,
    {
        let mut n = self.locals.len();
        while n < count
            invariant
                n == self.locals@.len(),
                self.stack == old(self).stack,
                self.labels == old(self).labels,
                self.label_stacks == old(self).label_stacks,
                self.ignored == old(self).ignored,
            decreases count - n,
        {
            self.locals.push(None);
            n = n + 1;
        }
    }

    /// The recorded entry snapshot for `addr`, if one exists.
    fn find_label_stack(&self, addr: usize) -> (r: Option<usize>)
        ensures
            r matches Some(i) ==> i < self.label_stacks@.len() && self.label_stacks@[i as int].0 == addr,
    {
        let n = self.label_stacks.len();
        let mut i: usize = 0;
        while i < n
            invariant
                i <= n,
                n == self.label_stacks@.len(),
            decreases n - i,
        {
            if self.label_stacks[i].0 == addr {
                return Some(i);
            }
            i = i + 1;
        }
        None
    }

    fn pop(&mut self, addr: usize) -> (r: Result<FieldType, JitError>)
        ensures
            r matches Err(e) ==> !(e is UnsupportedInstruction),
            final(self).locals == old(self).locals,
            final(self).labels == old(self).labels,
            final(self).label_stacks == old(self).label_stacks,
            final(self).ignored == old(self).ignored,
    {
        match self.stack.pop() {
            Some(t) => Ok(t),
            None => Err(JitError::StackUnderflow { addr }),
        }
    }

    /// Records the type of a local slot the first time it is seen.
    fn initialize_local(&mut self, index: usize, field_type: FieldType)
        requires
            index < 0xffff_ffffusize,
        ensures
            final(self).stack == old(self).stack,
            final(self).labels == old(self).labels,
            final(self).label_stacks == old(self).label_stacks,
            final(self).ignored == old(self).ignored,
    {
        let mut n = self.locals.len();
        while n < index + 1
            invariant
                n == self.locals@.len(),
                index < 0xffff_ffffusize,
                self.stack == old(self).stack,
                self.labels == old(self).labels,
                self.label_stacks == old(self).label_stacks,
                self.ignored == old(self).ignored,
            decreases index + 1 - n,
        {
            self.locals.push(None);
            n = n + 1;
        }
        let cur_is_none = match &self.locals[index] {
            None => true,
            Some(_) => false,
        };
        if cur_is_none {
            self.locals[index] = Some(field_type);
        }
    }
}

/// Installs the method parameters into the local slots: the receiver (for a
/// virtual method) is slot zero, and long or double parameters occupy two
/// consecutive slots.
fn install_parameters(state: &mut AbsState, descriptor: &MethodType, is_static: bool, class_name: &str) -> (r: Result<usize, JitError>)
    ensures
        r matches Err(e) ==> !(e is UnsupportedInstruction),
        final(state).stack == old(state).stack,
        final(state).labels == old(state).labels,
        final(state).label_stacks == old(state).label_stacks,
        final(state).ignored == old(state).ignored,
{
    let mut local_index: usize = 0;
    let mut count: usize = 0;
    if !is_static {
        state.initialize_local(0, FieldType::ObjectType(class_name.to_owned()));
        local_index = 1;
        count = 1;
    }
    let np = descriptor.parameter_types.len();
    if np > 0xffffusize {
        return Err(JitError::CapacityExceeded);
    }
    let mut k: usize = 0;
    while k < np
        invariant
            k <= np,
            np == descriptor.parameter_types@.len(),
            np <= 0xffff,
            local_index <= 1 + 2 * k,
            count <= 1 + k,
            state.stack == old(state).stack,
            state.labels == old(state).labels,
            state.label_stacks == old(state).label_stacks,
            state.ignored == old(state).ignored,
        decreases np - k,
    {
        let t = descriptor.parameter_types[k].duplicate();
        let two_slots = match &t {
            FieldType::BaseType(BaseType::Double) => true,
            FieldType::BaseType(BaseType::Long) => true,
            _ => false,
        };
        state.initialize_local(local_index, t);
        if two_slots {
            let t2 = descriptor.parameter_types[k].duplicate();
            state.initialize_local(local_index + 1, t2);
            local_index = local_index + 2;
        } else {
            local_index = local_index + 1;
        }
        count = count + 1;
        k = k + 1;
    }
    Ok(count)
}

/// Checked branch-target computation.
fn branch_target(addr: usize, diff: i16) -> (r: Result<usize, JitError>)
    requires
        addr <= 0x0fff_ffff,
    ensures
        r matches Err(e) ==> !(e is UnsupportedInstruction),
        r matches Ok(t) ==> t as int == addr + diff as int,
{
    let base = addr as i64;
    let t = base + diff as i64;
    if t < 0 || t > 0xffff_ffffi64 {
        return Err(JitError::BadBranch { addr });
    }
    Ok(t as usize)
}

/// The abstract-interpretation pre-pass over one method: a linear scan at
/// byte addresses that discovers every basic-block boundary with its entry
/// operand-stack snapshot, the type of every local slot, and the erased
/// identity conversions.  On success every branch target of the method is a
/// known block start and the abstract stack is empty at the end.
#[verifier::rlimit(60)]
pub fn analyze_method(cls: &ClassModel, class_name: &str, method: &MethodModel) -> (r: Result<
    MethodAnalysis,
    JitError,
>)
    ensures
        // an unsupported-opcode failure names a real instruction address
        (r matches Err(JitError::UnsupportedInstruction { addr, name: _ })
            ==> exists|q: int| 0 <= q < method.code@.len()
                && (#[trigger] method.code@[q]).0 == addr),
        r matches Ok(a) ==> {
            &&& (forall|q: int| 0 <= q < method.code@.len()
                ==> !((#[trigger] method.code@[q]).1 is Unsupported))
            &&& a.labels@.contains(0usize)
            &&& targets_covered(method.code@, a.labels@)
            &&& forall|k: int| 0 <= k < a.label_stacks@.len()
                ==> a.labels@.contains((#[trigger] a.label_stacks@[k]).0)
            &&& a.is_static == (method.access_flags & ACC_STATIC != 0)
            &&& 1 <= method.name_index
            &&& (method.name_index as int) <= cls.const_pool@.len()
            &&& 1 <= method.descriptor_index
            &&& (method.descriptor_index as int) <= cls.const_pool@.len()
            &&& (cls.const_pool@[method.name_index - 1] matches ConstEntry::Utf8(nm)
                && cls.const_pool@[method.descriptor_index - 1] matches ConstEntry::Utf8(ds)
                && a.symbol@ == class_name@ + "."@ + nm@ + ":"@ + ds@
                && a.descriptor_string@ == ds@
                && crate::codegen::descriptor::spec_parse_method(ds@) == Some(a.descriptor@))
        },
{
    let method_name = match pool_utf8(cls, method.name_index) {
        Ok(n) => n,
        Err(e) => return Err(e),
    };
    let descriptor_string = match pool_utf8(cls, method.descriptor_index) {
        Ok(n) => n,
        Err(e) => return Err(e),
    };
    let descriptor = match try_parse_method_descriptor(&descriptor_string) {
        Some(d) => d,
        None => return Err(JitError::BadDescriptor),
    };
    let is_static = method.access_flags & ACC_STATIC != 0;
    let symbol = make_symbol(class_name, method_name.as_str(), descriptor_string.as_str());

    let mut state = AbsState {
        stack: Vec::new(),
        locals: Vec::new(),
        labels: Vec::new(),
        label_stacks: Vec::new(),
        ignored: Vec::new(),
    };
    let param_count = match install_parameters(&mut state, &descriptor, is_static, class_name) {
        Ok(c) => c,
        Err(e) => return Err(e),
    };
    // Reserve the declared local count up front.
    if method.max_locals > 0 {
        state.initialize_local_capacity(method.max_locals as usize);
    }
    state.labels.push(0);
    proof {
        assert(state.labels@[state.labels@.len() - 1] == 0usize);
        assert(state.labels@.contains(0usize));
    }

    let has_return = match &descriptor.return_type {
        Some(_) => true,
        None => false,
    };

    let nc = method.code.len();
    let mut qi: usize = 0;
    while qi < nc
        invariant
            qi <= nc,
            nc == method.code@.len(),
            state.labels@.contains(0usize),
            state.labels_wf(),
            forall|q: int| 0 <= q < qi
                ==> !((#[trigger] method.code@[q]).1 is Unsupported),
            forall|q: int, t: int|
                0 <= q < qi && 0 <= t < instr_targets(method.code@[q].0 as int, method.code@[q].1).len()
                    ==> label_has(state.labels@,
                        #[trigger] instr_targets(method.code@[q].0 as int, method.code@[q].1)[t]),
        decreases nc - qi,
    {
        let ghost labels_top = state.labels@;
        let addr = method.code[qi].0;
        // On reaching a known block start, replace the abstract stack with
        // that block's recorded entry snapshot.
        match state.find_label_stack(addr) {
            Some(si) => {
                let snap = dup_types(&state.label_stacks[si].1);
                state.stack = snap;
            },
            None => {},
        }
        let mut branch_diffs: Vec<i16> = Vec::new();
        let mut conditional = false;
        match &method.code[qi].1 {
            Instruction::Aaload => {
                let _idx = match state.pop(addr) {
                    Ok(t) => t,
                    Err(e) => return Err(e),
                };
                let arr = match state.pop(addr) {
                    Ok(t) => t,
                    Err(e) => return Err(e),
                };
                match arr {
                    FieldType::ArrayType(inner) => {
                        state.stack.push(*inner);
                    },
                    _ => {
                        return Err(JitError::StackUnderflow { addr });
                    },
                }
            },
            Instruction::Iload0 | Instruction::Iload1 | Instruction::Iload2 | Instruction::Iload3
            | Instruction::Iload(_) => {
                let index: usize = match &method.code[qi].1 {
                    Instruction::Iload0 => 0,
                    Instruction::Iload1 => 1,
                    Instruction::Iload2 => 2,
                    Instruction::Iload3 => 3,
                    Instruction::Iload(x) => *x as usize,
                    _ => 0,
                };
                state.stack.push(FieldType::BaseType(BaseType::Int));
                state.initialize_local(index, FieldType::BaseType(BaseType::Int));
            },
            Instruction::Lload0 | Instruction::Lload1 | Instruction::Lload2 | Instruction::Lload3
            | Instruction::Lload(_) => {
                let index: usize = match &method.code[qi].1 {
                    Instruction::Lload0 => 0,
                    Instruction::Lload1 => 1,
                    Instruction::Lload2 => 2,
                    Instruction::Lload3 => 3,
                    Instruction::Lload(x) => *x as usize,
                    _ => 0,
                };
                state.stack.push(FieldType::BaseType(BaseType::Long));
                state.initialize_local(index, FieldType::BaseType(BaseType::Long));
                state.initialize_local(index + 1, FieldType::BaseType(BaseType::Long));
            },
            Instruction::Fload0 | Instruction::Fload1 | Instruction::Fload2 | Instruction::Fload3
            | Instruction::Fload(_) => {
                let index: usize = match &method.code[qi].1 {
                    Instruction::Fload0 => 0,
                    Instruction::Fload1 => 1,
                    Instruction::Fload2 => 2,
                    Instruction::Fload3 => 3,
                    Instruction::Fload(x) => *x as usize,
                    _ => 0,
                };
                state.stack.push(FieldType::BaseType(BaseType::Float));
                state.initialize_local(index, FieldType::BaseType(BaseType::Float));
            },
            Instruction::Dload0 | Instruction::Dload1 | Instruction::Dload2 | Instruction::Dload3
            | Instruction::Dload(_) => {
                let index: usize = match &method.code[qi].1 {
                    Instruction::Dload0 => 0,
                    Instruction::Dload1 => 1,
                    Instruction::Dload2 => 2,
                    Instruction::Dload3 => 3,
                    Instruction::Dload(x) => *x as usize,
                    _ => 0,
                };
                state.stack.push(FieldType::BaseType(BaseType::Double));
                state.initialize_local(index, FieldType::BaseType(BaseType::Double));
                state.initialize_local(index + 1, FieldType::BaseType(BaseType::Double));
            },
            Instruction::Arraylength => {
                match state.pop(addr) {
                    Ok(_) => {},
                    Err(e) => return Err(e),
                }
                state.stack.push(FieldType::BaseType(BaseType::Int));
            },
            Instruction::Iconst0 | Instruction::Iconst1 | Instruction::Iconst2
            | Instruction::Iconst3 | Instruction::Iconst4 | Instruction::Iconst5
            | Instruction::Iconstm1 | Instruction::Bipush(_) | Instruction::Sipush(_) => {
                state.stack.push(FieldType::BaseType(BaseType::Int));
            },
            Instruction::Fconst0 | Instruction::Fconst1 | Instruction::Fconst2 => {
                state.stack.push(FieldType::BaseType(BaseType::Float));
            },
            Instruction::Lconst0 | Instruction::Lconst1 => {
                state.stack.push(FieldType::BaseType(BaseType::Long));
            },
            Instruction::Dconst0 | Instruction::Dconst1 => {
                state.stack.push(FieldType::BaseType(BaseType::Double));
            },
            Instruction::Istore0 | Instruction::Istore1 | Instruction::Istore2
            | Instruction::Istore3 | Instruction::Istore(_)
            | Instruction::Lstore0 | Instruction::Lstore1 | Instruction::Lstore2
            | Instruction::Lstore3 | Instruction::Lstore(_)
            | Instruction::Fstore0 | Instruction::Fstore1 | Instruction::Fstore2
            | Instruction::Fstore3 | Instruction::Fstore(_)
            | Instruction::Dstore0 | Instruction::Dstore1 | Instruction::Dstore2
            | Instruction::Dstore3 | Instruction::Dstore(_)
            | Instruction::Astore0 | Instruction::Astore1 | Instruction::Astore2
            | Instruction::Astore3 => {
                let index: usize = match &method.code[qi].1 {
                    Instruction::Istore0 | Instruction::Lstore0 | Instruction::Fstore0
                    | Instruction::Dstore0 | Instruction::Astore0 => 0,
                    Instruction::Istore1 | Instruction::Lstore1 | Instruction::Fstore1
                    | Instruction::Dstore1 | Instruction::Astore1 => 1,
                    Instruction::Istore2 | Instruction::Lstore2 | Instruction::Fstore2
                    | Instruction::Dstore2 | Instruction::Astore2 => 2,
                    Instruction::Istore3 | Instruction::Lstore3 | Instruction::Fstore3
                    | Instruction::Dstore3 | Instruction::Astore3 => 3,
                    Instruction::Istore(x) | Instruction::Lstore(x) | Instruction::Fstore(x)
                    | Instruction::Dstore(x) => *x as usize,
                    _ => 0,
                };
                let field_type = match state.pop(addr) {
                    Ok(t) => t,
                    Err(e) => return Err(e),
                };
                state.initialize_local(index, field_type);
            },
            Instruction::Invokevirtual(index) => {
                let (callee_class, callee_name, desc_str) = match pool_method_ref(cls, *index) {
                    Ok(t) => t,
                    Err(e) => return Err(e),
                };
                if callee_class == String::from_str("java/lang/Integer") {
                    if callee_name == String::from_str("intValue") {
                        state.ignored.push(addr);
                    } else {
                        return Err(JitError::UnsupportedInstruction { addr, name: callee_name });
                    }
                }
                let sig = match try_parse_method_descriptor(&desc_str) {
                    Some(d) => d,
                    None => return Err(JitError::BadDescriptor),
                };
                let np = sig.parameter_types.len();
                if np > 0xffffusize {
                    return Err(JitError::CapacityExceeded);
                }
                let mut k: usize = 0;
                while k < np + 1
                    invariant
                        np <= 0xffff,
                        state.labels_wf(),
                        state.labels@ == labels_top,
                    decreases np + 1 - k,
                {
                    match state.pop(addr) {
                        Ok(_) => {},
                        Err(e) => return Err(e),
                    }
                    k = k + 1;
                }
                match sig.return_type {
                    Some(t) => state.stack.push(t),
                    None => {},
                }
            },
            Instruction::Invokespecial(index) => {
                let (_c, _n, desc_str) = match pool_method_ref(cls, *index) {
                    Ok(t) => t,
                    Err(e) => return Err(e),
                };
                let sig = match try_parse_method_descriptor(&desc_str) {
                    Some(d) => d,
                    None => return Err(JitError::BadDescriptor),
                };
                let np = sig.parameter_types.len();
                if np > 0xffffusize {
                    return Err(JitError::CapacityExceeded);
                }
                let mut k: usize = 0;
                while k < np + 1
                    invariant
                        np <= 0xffff,
                        state.labels_wf(),
                        state.labels@ == labels_top,
                    decreases np + 1 - k,
                {
                    match state.pop(addr) {
                        Ok(_) => {},
                        Err(e) => return Err(e),
                    }
                    k = k + 1;
                }
                match sig.return_type {
                    Some(t) => state.stack.push(t),
                    None => {},
                }
            },
            Instruction::Invokestatic(index) => {
                let (callee_class, callee_name, desc_str) = match pool_method_ref(cls, *index) {
                    Ok(t) => t,
                    Err(e) => return Err(e),
                };
                if callee_class == String::from_str("java/lang/Integer") {
                    if callee_name == String::from_str("valueOf") {
                        state.ignored.push(addr);
                    } else {
                        return Err(JitError::UnsupportedInstruction { addr, name: callee_name });
                    }
                }
                let sig = match try_parse_method_descriptor(&desc_str) {
                    Some(d) => d,
                    None => return Err(JitError::BadDescriptor),
                };
                let np = sig.parameter_types.len();
                let mut k: usize = 0;
                while k < np
                    invariant
                        state.labels_wf(),
                        state.labels@ == labels_top,
                    decreases np - k,
                {
                    match state.pop(addr) {
                        Ok(_) => {},
                        Err(e) => return Err(e),
                    }
                    k = k + 1;
                }
                match sig.return_type {
                    Some(t) => state.stack.push(t),
                    None => {},
                }
            },
            Instruction::Getstatic(index) => {
                let (_c, _f, desc_str) = match pool_field_ref(cls, *index) {
                    Ok(t) => t,
                    Err(e) => return Err(e),
                };
                let t = match try_parse_field_type_descriptor(&desc_str) {
                    Some(t) => t,
                    None => return Err(JitError::BadDescriptor),
                };
                state.stack.push(t);
            },
            Instruction::Putstatic(index) => {
                let (_c, _f, desc_str) = match pool_field_ref(cls, *index) {
                    Ok(t) => t,
                    Err(e) => return Err(e),
                };
                match try_parse_field_type_descriptor(&desc_str) {
                    Some(_) => {},
                    None => return Err(JitError::BadDescriptor),
                }
                match state.pop(addr) {
                    Ok(_) => {},
                    Err(e) => return Err(e),
                }
            },
            Instruction::Iinc { index, value: _ } => {
                state.initialize_local(*index as usize, FieldType::BaseType(BaseType::Int));
            },
            Instruction::Ldc(index) => {
                let i16index = *index as u16;
                match analyze_load_constant(cls, addr, i16index) {
                    Ok(t) => state.stack.push(t),
                    Err(e) => return Err(e),
                }
            },
            Instruction::Ldc2W(index) => {
                match analyze_load_constant(cls, addr, *index) {
                    Ok(t) => state.stack.push(t),
                    Err(e) => return Err(e),
                }
            },
            Instruction::Imul | Instruction::Iadd | Instruction::Isub | Instruction::Idiv => {
                match state.pop(addr) {
                    Ok(_) => {},
                    Err(e) => return Err(e),
                }
                match state.pop(addr) {
                    Ok(_) => {},
                    Err(e) => return Err(e),
                }
                state.stack.push(FieldType::BaseType(BaseType::Int));
            },
            Instruction::Lmul | Instruction::Ladd | Instruction::Lsub | Instruction::Ldiv => {
                match state.pop(addr) {
                    Ok(_) => {},
                    Err(e) => return Err(e),
                }
                match state.pop(addr) {
                    Ok(_) => {},
                    Err(e) => return Err(e),
                }
                state.stack.push(FieldType::BaseType(BaseType::Long));
            },
            Instruction::Fmul | Instruction::Fadd | Instruction::Fsub | Instruction::Fdiv => {
                match state.pop(addr) {
                    Ok(_) => {},
                    Err(e) => return Err(e),
                }
                match state.pop(addr) {
                    Ok(_) => {},
                    Err(e) => return Err(e),
                }
                state.stack.push(FieldType::BaseType(BaseType::Float));
            },
            Instruction::Dmul | Instruction::Dadd | Instruction::Dsub | Instruction::Ddiv => {
                match state.pop(addr) {
                    Ok(_) => {},
                    Err(e) => return Err(e),
                }
                match state.pop(addr) {
                    Ok(_) => {},
                    Err(e) => return Err(e),
                }
                state.stack.push(FieldType::BaseType(BaseType::Double));
            },
            Instruction::I2b | Instruction::I2c | Instruction::I2s => {
                match state.pop(addr) {
                    Ok(_) => {},
                    Err(e) => return Err(e),
                }
                state.stack.push(FieldType::BaseType(BaseType::Int));
            },
            Instruction::Goto(diff) => {
                branch_diffs.push(*diff);
            },
            Instruction::Ireturn | Instruction::Areturn => {
                match state.pop(addr) {
                    Ok(_) => {},
                    Err(e) => return Err(e),
                }
            },
            Instruction::Return => {
                if has_return {
                    match state.pop(addr) {
                        Ok(_) => {},
                        Err(e) => return Err(e),
                    }
                }
            },
            Instruction::IfIcmpge(diff) | Instruction::IfIcmpne(diff) | Instruction::IfIcmple(diff)
            | Instruction::IfIcmplt(diff) | Instruction::IfIcmpeq(diff)
            | Instruction::IfIcmpgt(diff) => {
                match state.pop(addr) {
                    Ok(_) => {},
                    Err(e) => return Err(e),
                }
                match state.pop(addr) {
                    Ok(_) => {},
                    Err(e) => return Err(e),
                }
                branch_diffs.push(*diff);
                conditional = true;
            },
            Instruction::Ifne(diff) | Instruction::Ifeq(diff) | Instruction::Ifgt(diff)
            | Instruction::Ifge(diff) | Instruction::Ifle(diff) => {
                match state.pop(addr) {
                    Ok(_) => {},
                    Err(e) => return Err(e),
                }
                branch_diffs.push(*diff);
                conditional = true;
            },
            Instruction::Lcmp | Instruction::Fcmpl | Instruction::Fcmpg | Instruction::Dcmpl
            | Instruction::Dcmpg => {
                match state.pop(addr) {
                    Ok(_) => {},
                    Err(e) => return Err(e),
                }
                match state.pop(addr) {
                    Ok(_) => {},
                    Err(e) => return Err(e),
                }
                state.stack.push(FieldType::BaseType(BaseType::Int));
            },
            Instruction::Newarray(atype) => {
                let base = match newarray_base_type(*atype) {
                    Some(b) => b,
                    None => {
                        return Err(JitError::UnsupportedInstruction {
                            addr,
                            name: "newarray".to_owned(),
                        });
                    },
                };
                match state.pop(addr) {
                    Ok(_) => {},
                    Err(e) => return Err(e),
                }
                state.stack.push(FieldType::ArrayType(Box::new(FieldType::BaseType(base))));
            },
            Instruction::Aload0 | Instruction::Aload1 | Instruction::Aload2
            | Instruction::Aload3 => {
                let index: usize = match &method.code[qi].1 {
                    Instruction::Aload0 => 0,
                    Instruction::Aload1 => 1,
                    Instruction::Aload2 => 2,
                    Instruction::Aload3 => 3,
                    _ => 0,
                };
                if index >= state.locals.len() {
                    return Err(JitError::MissingLocalType { addr });
                }
                let t = match &state.locals[index] {
                    Some(t) => t.duplicate(),
                    None => {
                        return Err(JitError::MissingLocalType { addr });
                    },
                };
                state.stack.push(t);
            },
            Instruction::Iastore | Instruction::Bastore | Instruction::Sastore
            | Instruction::Castore | Instruction::Lastore | Instruction::Fastore
            | Instruction::Dastore => {
                let mut k: usize = 0;
                while k < 3
                    invariant
                        state.labels_wf(),
                        state.labels@ == labels_top,
                    decreases 3 - k,
                {
                    match state.pop(addr) {
                        Ok(_) => {},
                        Err(e) => return Err(e),
                    }
                    k = k + 1;
                }
            },
            Instruction::Iaload | Instruction::Baload | Instruction::Saload
            | Instruction::Caload => {
                match state.pop(addr) {
                    Ok(_) => {},
                    Err(e) => return Err(e),
                }
                match state.pop(addr) {
                    Ok(_) => {},
                    Err(e) => return Err(e),
                }
                state.stack.push(FieldType::BaseType(BaseType::Int));
            },
            Instruction::Laload => {
                match state.pop(addr) {
                    Ok(_) => {},
                    Err(e) => return Err(e),
                }
                match state.pop(addr) {
                    Ok(_) => {},
                    Err(e) => return Err(e),
                }
                state.stack.push(FieldType::BaseType(BaseType::Long));
            },
            Instruction::Faload => {
                match state.pop(addr) {
                    Ok(_) => {},
                    Err(e) => return Err(e),
                }
                match state.pop(addr) {
                    Ok(_) => {},
                    Err(e) => return Err(e),
                }
                state.stack.push(FieldType::BaseType(BaseType::Float));
            },
            Instruction::Daload => {
                match state.pop(addr) {
                    Ok(_) => {},
                    Err(e) => return Err(e),
                }
                match state.pop(addr) {
                    Ok(_) => {},
                    Err(e) => return Err(e),
                }
                state.stack.push(FieldType::BaseType(BaseType::Double));
            },
            Instruction::Unsupported(name) => {
                return Err(JitError::UnsupportedInstruction { addr, name: name.clone() });
            },
        }
        // Register the branch targets of this instruction as block starts.
        if branch_diffs.len() > 0 {
            if addr > 0x0fff_ffffusize {
                return Err(JitError::BadBranch { addr });
            }
            let d = branch_diffs[0];
            let tgt = match branch_target(addr, d) {
                Ok(t) => t,
                Err(e) => return Err(e),
            };
            state.ensure_label(tgt);
            if conditional {
                state.ensure_label(addr + 3);
            }
        }
        proof {
            let code = method.code@;
            assert forall|q: int, t: int|
                0 <= q < qi + 1 && 0 <= t < instr_targets(code[q].0 as int, code[q].1).len()
                implies label_has(state.labels@,
                    #[trigger] instr_targets(code[q].0 as int, code[q].1)[t]) by {
                if q < qi {
                    assert(label_has(labels_top, instr_targets(code[q].0 as int, code[q].1)[t]));
                    let l = choose|l: int| 0 <= l < labels_top.len()
                        && #[trigger] labels_top[l] as int == instr_targets(code[q].0 as int, code[q].1)[t];
                    assert(labels_top.contains(labels_top[l]));
                    assert(state.labels@.contains(labels_top[l]));
                    let l2 = choose|l2: int| 0 <= l2 < state.labels@.len()
                        && state.labels@[l2] == labels_top[l];
                    assert(state.labels@[l2] as int == instr_targets(code[q].0 as int, code[q].1)[t]);
                } else {
                    assert(instr_targets(code[q].0 as int, code[q].1).len() <= 2);
                }
            }
        }
        qi = qi + 1;
    }
    if state.stack.len() > 0 {
        return Err(JitError::StackNotEmpty);
    }
    Ok(MethodAnalysis {
        symbol,
        descriptor,
        descriptor_string,
        is_static,
        param_count,
        labels: state.labels,
        label_stacks: state.label_stacks,
        locals_types: state.locals,
        ignored: state.ignored,
    })
}

/// The constant kinds `ldc` and `ldc2_w` may push.
fn analyze_load_constant(cls: &ClassModel, addr: usize, index: u16) -> (r: Result<FieldType, JitError>)
    ensures
        r matches Err(e) ==> !(e is UnsupportedInstruction),
{
    let i = index as usize;
    if i == 0 || i > cls.const_pool.len() {
        return Err(JitError::BadConstantPool { index });
    }
    match &cls.const_pool[i - 1] {
        ConstEntry::StringRef { .. } => Ok(FieldType::ObjectType("java/lang/String".to_owned())),
        ConstEntry::Integer(_) => Ok(FieldType::BaseType(BaseType::Int)),
        ConstEntry::Float(_) => Ok(FieldType::BaseType(BaseType::Float)),
        ConstEntry::Long(_) => Ok(FieldType::BaseType(BaseType::Long)),
        ConstEntry::Double(_) => Ok(FieldType::BaseType(BaseType::Double)),
        _ => Err(JitError::UnsupportedConstant { addr }),
    }
}

/// The element type a `newarray` operand denotes.
fn newarray_base_type(atype: u8) -> (r: Option<BaseType>)
{
    if atype == 4 {
        Some(BaseType::Boolean)
    } else if atype == 5 {
        Some(BaseType::Char)
    } else if atype == 6 {
        Some(BaseType::Float)
    } else if atype == 7 {
        Some(BaseType::Double)
    } else if atype == 8 {
        Some(BaseType::Byte)
    } else if atype == 9 {
        Some(BaseType::Short)
    } else if atype == 10 {
        Some(BaseType::Int)
    } else if atype == 11 {
        Some(BaseType::Long)
    } else {
        None
    }
}

// ------------------------------------------------------------------
// The lowering pass.
// ------------------------------------------------------------------

/// Every phi of a block has incoming values from exactly the same
/// predecessor edges, in the same order: fall-through and jump edges each
/// contribute exactly one incoming value per phi.
pub open spec fn phis_harmonious(blocks: Seq<IrBlock>) -> bool {
    forall|b: int, p: int, q: int|
        0 <= b < blocks.len() && 0 <= p < blocks[b].phis@.len() && 0 <= q < blocks[b].phis@.len()
            ==> (#[trigger] blocks[b].phis@[p]).incomings@.map_values(|x: (usize, ValueId)| x.0)
                == (#[trigger] blocks[b].phis@[q]).incomings@.map_values(|x: (usize, ValueId)| x.0)
}

struct FuncState {
    next: u32,
    blocks: Vec<IrBlock>,
    cur: usize,
    value_stack: Vec<ValueId>,
    locals: Vec<Option<ValueId>>,
}

impl FuncState {
    spec fn wf(&self) -> bool {
        &&& self.cur < self.blocks@.len()
        &&& phis_harmonious(self.blocks@)
    }

    fn fresh(&mut self) -> (r: Result<ValueId, JitError>)
        ensures
            r is Err ==> r == Err::<ValueId, JitError>(JitError::CapacityExceeded),
            final(self).blocks == old(self).blocks,
            final(self).cur == old(self).cur,
            final(self).value_stack == old(self).value_stack,
            final(self).locals == old(self).locals,
    {
        if self.next == 0xffff_ffffu32 {
            return Err(JitError::CapacityExceeded);
        }
        let v = self.next;
        self.next = self.next + 1;
        Ok(v)
    }

    /// Appends an instruction to the current block.
    fn emit(&mut self, inst: IrInst)
        requires
            old(self).wf(),
        ensures
            final(self).wf(),
            final(self).blocks@.len() == old(self).blocks@.len(),
            final(self).cur == old(self).cur,
            final(self).next == old(self).next,
            final(self).value_stack == old(self).value_stack,
            final(self).locals == old(self).locals,
            final(self).blocks@[old(self).cur as int].insts@
                == old(self).blocks@[old(self).cur as int].insts@.push(inst),
            forall|b: int| 0 <= b < final(self).blocks@.len() && b != old(self).cur
                ==> #[trigger] final(self).blocks@[b] == old(self).blocks@[b],
            forall|b: int| 0 <= b < final(self).blocks@.len()
                ==> (#[trigger] final(self).blocks@[b]).phis == old(self).blocks@[b].phis
                    && final(self).blocks@[b].addr == old(self).blocks@[b].addr
                    && final(self).blocks@[b].term == old(self).blocks@[b].term,
    {
        let cur = self.cur;
        let blk = &mut self.blocks[cur];
        blk.insts.push(inst);
    }

    /// Sets the current block's terminator.
    fn set_term(&mut self, t: Terminator)
        requires
            old(self).wf(),
        ensures
            final(self).wf(),
            final(self).blocks@.len() == old(self).blocks@.len(),
            final(self).cur == old(self).cur,
            final(self).next == old(self).next,
            final(self).value_stack == old(self).value_stack,
            final(self).locals == old(self).locals,
            forall|b: int| 0 <= b < final(self).blocks@.len()
                ==> (#[trigger] final(self).blocks@[b]).phis == old(self).blocks@[b].phis
                    && final(self).blocks@[b].addr == old(self).blocks@[b].addr,
    {
        let cur = self.cur;
        let blk = &mut self.blocks[cur];
        blk.term = Some(t);
    }

    fn pop_value(&mut self, addr: usize) -> (r: Result<ValueId, JitError>)
        ensures
            final(self).blocks == old(self).blocks,
            final(self).cur == old(self).cur,
            final(self).next == old(self).next,
            final(self).locals == old(self).locals,
    {
        match self.value_stack.pop() {
            Some(v) => Ok(v),
            None => Err(JitError::StackUnderflow { addr }),
        }
    }

    /// The block starting at `addr`, if any.
    fn find_block(&self, addr: usize) -> (r: Option<usize>)
        ensures
            r matches Some(b) ==> b < self.blocks@.len() && self.blocks@[b as int].addr == addr,
    {
        let n = self.blocks.len();
        let mut b: usize = 0;
        while b < n
            invariant
                b <= n,
                n == self.blocks@.len(),
            decreases n - b,
        {
            if self.blocks[b].addr == addr {
                return Some(b);
            }
            b = b + 1;
        }
        None
    }

    /// Registers the current local and stack values as one incoming edge to
    /// every phi of the target block.
    fn add_edges(&mut self, target: usize, from_addr: usize, vals: &Vec<ValueId>)
        requires
            old(self).wf(),
            target < old(self).blocks@.len(),
            vals@.len() == old(self).blocks@[target as int].phis@.len(),
        ensures
            final(self).wf(),
            final(self).blocks@.len() == old(self).blocks@.len(),
            final(self).cur == old(self).cur,
            final(self).next == old(self).next,
            final(self).value_stack == old(self).value_stack,
            final(self).locals == old(self).locals,
            forall|b: int| 0 <= b < final(self).blocks@.len()
                ==> (#[trigger] final(self).blocks@[b]).phis@.len() == old(self).blocks@[b].phis@.len()
                    && final(self).blocks@[b].addr == old(self).blocks@[b].addr
                    && final(self).blocks@[b].term == old(self).blocks@[b].term,
            forall|b: int, p: int| 0 <= b < final(self).blocks@.len()
                && 0 <= p < final(self).blocks@[b].phis@.len()
                ==> (#[trigger] final(self).blocks@[b].phis@[p]).dest
                        == old(self).blocks@[b].phis@[p].dest
                    && final(self).blocks@[b].phis@[p].ty == old(self).blocks@[b].phis@[p].ty,
            // Exactly one (predecessor, value) pair joins each phi of the
            // target; every other phi list is untouched.
            forall|p: int| 0 <= p < final(self).blocks@[target as int].phis@.len()
                ==> (#[trigger] final(self).blocks@[target as int].phis@[p]).incomings@
                    == old(self).blocks@[target as int].phis@[p].incomings@.push(
                        (from_addr, vals@[p]),
                    ),
            forall|b: int, p: int| 0 <= b < final(self).blocks@.len() && b != target
                && 0 <= p < final(self).blocks@[b].phis@.len()
                ==> (#[trigger] final(self).blocks@[b].phis@[p]).incomings
                    == old(self).blocks@[b].phis@[p].incomings,
    {
        let blk = &mut self.blocks[target];
        let np = blk.phis.len();
        let ghost old_phis = blk.phis@;
        let mut p: usize = 0;
        while p < np
            invariant
                p <= np,
                np == blk.phis@.len(),
                np == old_phis.len(),
                np == vals@.len(),
                blk.addr == old(self).blocks@[target as int].addr,
                blk.term == old(self).blocks@[target as int].term,
                blk.insts == old(self).blocks@[target as int].insts,
                target < old(self).blocks@.len(),
                forall|k: int| 0 <= k < np ==> (#[trigger] blk.phis@[k]).dest == old_phis[k].dest
                    && blk.phis@[k].ty == old_phis[k].ty,
                forall|k: int| 0 <= k < p
                    ==> (#[trigger] blk.phis@[k]).incomings@
                        == old_phis[k].incomings@.push((from_addr, vals@[k])),
                forall|k: int| p <= k < np
                    ==> (#[trigger] blk.phis@[k]).incomings@ == old_phis[k].incomings@,
            decreases np - p,
        {
            let ph = &mut blk.phis[p];
            ph.incomings.push((from_addr, vals[p]));
            p = p + 1;
        }
        proof {
            let m = |x: (usize, ValueId)| x.0;
            assert forall|b: int, pp: int, qq: int|
                0 <= b < self.blocks@.len() && 0 <= pp < self.blocks@[b].phis@.len()
                    && 0 <= qq < self.blocks@[b].phis@.len()
                implies (#[trigger] self.blocks@[b].phis@[pp]).incomings@.map_values(m)
                    == (#[trigger] self.blocks@[b].phis@[qq]).incomings@.map_values(m) by {
                if b == target {
                    assert(old_phis[pp].incomings@.map_values(m) == old_phis[qq].incomings@.map_values(m));
                    assert(self.blocks@[b].phis@[pp].incomings@.map_values(m)
                        =~= old_phis[pp].incomings@.map_values(m).push(from_addr));
                    assert(self.blocks@[b].phis@[qq].incomings@.map_values(m)
                        =~= old_phis[qq].incomings@.map_values(m).push(from_addr));
                } else {
                    assert(self.blocks@[b].phis@[pp] == old(self).blocks@[b].phis@[pp]);
                    assert(self.blocks@[b].phis@[qq] == old(self).blocks@[b].phis@[qq]);
                }
            }
        }
    }
}

/// The number of live slots among the first `upto` local types.
pub open spec fn live_count(lt: Seq<Option<FieldType>>, upto: int) -> int
    decreases upto when 0 <= upto <= lt.len()
{
    if upto <= 0 {
        0
    } else {
        live_count(lt, upto - 1) + (if lt[upto - 1] is Some {
            1int
        } else {
            0int
        })
    }
}

fn count_live(locals_types: &Vec<Option<FieldType>>) -> (r: usize)
    ensures
        r == live_count(locals_types@, locals_types@.len() as int),
        r <= locals_types@.len(),
{
    let n = locals_types.len();
    let mut count: usize = 0;
    let mut k: usize = 0;
    while k < n
        invariant
            k <= n,
            count == live_count(locals_types@, k as int),
            count <= k,
            n == locals_types@.len(),
        decreases n - k,
    {
        match &locals_types[k] {
            Some(_) => {
                count = count + 1;
            },
            None => {},
        }
        k = k + 1;
    }
    count
}

/// Gathers the values flowing along one edge into the target block: one per
/// live local slot, then the bottom of the operand stack up to the target's
/// recorded entry depth.
fn collect_edge_values(fs: &FuncState, locals_types: &Vec<Option<FieldType>>, target: usize, addr: usize) -> (r: Result<Vec<ValueId>, JitError>)
    requires
        target < fs.blocks@.len(),
    ensures
        r matches Ok(vals) ==> vals@.len() == fs.blocks@[target as int].phis@.len(),
{
    let nphis = fs.blocks[target].phis.len();
    let nlive = count_live(locals_types);
    if nphis < nlive {
        return Err(JitError::PhiMismatch { addr });
    }
    let nstack = nphis - nlive;
    if fs.value_stack.len() < nstack {
        return Err(JitError::PhiMismatch { addr });
    }
    let mut vals: Vec<ValueId> = Vec::new();
    let n = locals_types.len();
    let mut k: usize = 0;
    while k < n
        invariant
            k <= n,
            n == locals_types@.len(),
            vals@.len() == live_count(locals_types@, k as int),
        decreases n - k,
    {
        let is_live = match &locals_types[k] {
            Some(_) => true,
            None => false,
        };
        if is_live {
            if k >= fs.locals.len() {
                return Err(JitError::MissingLocalType { addr });
            }
            match &fs.locals[k] {
                Some(v) => {
                    vals.push(*v);
                },
                None => {
                    return Err(JitError::MissingLocalType { addr });
                },
            }
        }
        k = k + 1;
    }
    proof {
        assert(vals@.len() == nlive);
    }
    let mut j: usize = 0;
    while j < nstack
        invariant
            j <= nstack,
            nstack <= fs.value_stack@.len(),
            vals@.len() == nlive + j,
        decreases nstack - j,
    {
        vals.push(fs.value_stack[j]);
        j = j + 1;
    }
    Ok(vals)
}

/// Enters a block: the live locals and the operand stack are reloaded from
/// its phi nodes.
fn switch_to_block(fs: &mut FuncState, locals_types: &Vec<Option<FieldType>>, b: usize, addr: usize) -> (r: Result<(), JitError>)
    requires
        old(fs).wf(),
        b < old(fs).blocks@.len(),
    ensures
        final(fs).wf(),
        final(fs).blocks == old(fs).blocks,
        final(fs).next == old(fs).next,
        r is Ok ==> final(fs).cur == b,
{
    let nphis = fs.blocks[b].phis.len();
    if nphis == 0 {
        fs.value_stack = Vec::new();
        fs.cur = b;
        return Ok(());
    }
    let nlive = count_live(locals_types);
    if nphis < nlive {
        return Err(JitError::PhiMismatch { addr });
    }
    let mut dests: Vec<ValueId> = Vec::new();
    let mut p: usize = 0;
    while p < nphis
        invariant
            p <= nphis,
            b < fs.blocks@.len(),
            nphis == fs.blocks@[b as int].phis@.len(),
            dests@.len() == p,
            fs.blocks == old(fs).blocks,
            fs.next == old(fs).next,
            fs.cur == old(fs).cur,
            old(fs).wf(),
            fs.wf(),
        decreases nphis - p,
    {
        dests.push(fs.blocks[b].phis[p].dest);
        p = p + 1;
    }
    let n = locals_types.len();
    let mut locals: Vec<Option<ValueId>> = Vec::new();
    let mut li: usize = 0;
    let mut k: usize = 0;
    while k < n
        invariant
            k <= n,
            n == locals_types@.len(),
            li == live_count(locals_types@, k as int),
            li <= nlive,
            nlive == live_count(locals_types@, n as int),
            nlive <= nphis,
            dests@.len() == nphis,
            locals@.len() == k,
        decreases n - k,
    {
        let is_live = match &locals_types[k] {
            Some(_) => true,
            None => false,
        };
        if is_live {
            proof {
                lemma_live_count_mono(locals_types@, k as int + 1, n as int);
            }
            locals.push(Some(dests[li]));
            li = li + 1;
        } else {
            locals.push(None);
        }
        k = k + 1;
    }
    let mut stack: Vec<ValueId> = Vec::new();
    let mut j: usize = nlive;
    while j < nphis
        invariant
            nlive <= j <= nphis,
            dests@.len() == nphis,
        decreases nphis - j,
    {
        stack.push(dests[j]);
        j = j + 1;
    }
    fs.locals = locals;
    fs.value_stack = stack;
    fs.cur = b;
    Ok(())
}

/// Live counts only grow with the prefix.
proof fn lemma_live_count_mono(lt: Seq<Option<FieldType>>, a: int, b: int)
    requires
        0 <= a <= b <= lt.len(),
    ensures
        live_count(lt, a) <= live_count(lt, b),
    decreases b - a,
{
    if a < b {
        lemma_live_count_mono(lt, a, b - 1);
    }
}

/// The boxed wrapper class and constructor symbol a primitive type boxes
/// through; reference and void types box through nothing.
pub open spec fn box_symbols(t: crate::codegen::descriptor::GFieldType) -> Option<(Seq<char>, Seq<char>)> {
    if t.dims > 0 {
        None
    } else {
        match t.elem {
            crate::codegen::descriptor::GElemType::Base(BaseType::Byte)
            | crate::codegen::descriptor::GElemType::JavaLangByte => Some(
                ("java/lang/Byte"@, "java/lang/Byte.init:(B)V"@),
            ),
            crate::codegen::descriptor::GElemType::Base(BaseType::Char)
            | crate::codegen::descriptor::GElemType::JavaLangChar => Some(
                ("java/lang/Char"@, "java/lang/Char.init:(C)V"@),
            ),
            crate::codegen::descriptor::GElemType::Base(BaseType::Double)
            | crate::codegen::descriptor::GElemType::JavaLangDouble => Some(
                ("java/lang/Double"@, "java/lang/Double.init:(D)V"@),
            ),
            crate::codegen::descriptor::GElemType::Base(BaseType::Float)
            | crate::codegen::descriptor::GElemType::JavaLangFloat => Some(
                ("java/lang/Float"@, "java/lang/Float.init:(F)V"@),
            ),
            crate::codegen::descriptor::GElemType::Base(BaseType::Int)
            | crate::codegen::descriptor::GElemType::JavaLangInteger => Some(
                ("java/lang/Integer"@, "java/lang/Integer.init:(I)V"@),
            ),
            crate::codegen::descriptor::GElemType::Base(BaseType::Long)
            | crate::codegen::descriptor::GElemType::JavaLangLong => Some(
                ("java/lang/Long"@, "java/lang/Long.init:(J)V"@),
            ),
            crate::codegen::descriptor::GElemType::Base(BaseType::Short)
            | crate::codegen::descriptor::GElemType::JavaLangShort => Some(
                ("java/lang/Short"@, "java/lang/Short.init:(S)V"@),
            ),
            crate::codegen::descriptor::GElemType::Base(BaseType::Boolean)
            | crate::codegen::descriptor::GElemType::JavaLangBoolean => Some(
                ("java/lang/Boolean"@, "java/lang/Boolean.init:(Z)V"@),
            ),
            _ => None,
        }
    }
}

/// The boxed wrapper class and constructor for a primitive type.
fn box_class_of(t: &FieldType) -> (r: Option<(String, String)>)
    ensures
        (match r {
            Some((c, i)) => box_symbols(t@) matches Some(p) && p.0 == c@ && p.1 == i@,
            None => box_symbols(t@) is None,
        }),
{
    match t {
        FieldType::BaseType(BaseType::Byte) | FieldType::ObjectTypeJavaLangByte => Some((
            "java/lang/Byte".to_owned(),
            "java/lang/Byte.init:(B)V".to_owned(),
        )),
        FieldType::BaseType(BaseType::Char) | FieldType::ObjectTypeJavaLangChar => Some((
            "java/lang/Char".to_owned(),
            "java/lang/Char.init:(C)V".to_owned(),
        )),
        FieldType::BaseType(BaseType::Double) | FieldType::ObjectTypeJavaLangDouble => Some((
            "java/lang/Double".to_owned(),
            "java/lang/Double.init:(D)V".to_owned(),
        )),
        FieldType::BaseType(BaseType::Float) | FieldType::ObjectTypeJavaLangFloat => Some((
            "java/lang/Float".to_owned(),
            "java/lang/Float.init:(F)V".to_owned(),
        )),
        FieldType::BaseType(BaseType::Int) | FieldType::ObjectTypeJavaLangInteger => Some((
            "java/lang/Integer".to_owned(),
            "java/lang/Integer.init:(I)V".to_owned(),
        )),
        FieldType::BaseType(BaseType::Long) | FieldType::ObjectTypeJavaLangLong => Some((
            "java/lang/Long".to_owned(),
            "java/lang/Long.init:(J)V".to_owned(),
        )),
        FieldType::BaseType(BaseType::Short) | FieldType::ObjectTypeJavaLangShort => Some((
            "java/lang/Short".to_owned(),
            "java/lang/Short.init:(S)V".to_owned(),
        )),
        FieldType::BaseType(BaseType::Boolean) | FieldType::ObjectTypeJavaLangBoolean => Some((
            "java/lang/Boolean".to_owned(),
            "java/lang/Boolean.init:(Z)V".to_owned(),
        )),
        _ => {
            proof {
                match t {
                    FieldType::ArrayType(inner) => {
                        assert(t@.dims == (**inner)@.dims + 1);
                    },
                    _ => {},
                }
            }
            None
        },
    }
}

/// Boxes a primitive argument or return value into a freshly allocated
/// wrapper object so the tracer can render it through `toString`; reference
/// values pass through unchanged.
fn emit_box(cc: &mut CodegenContext, fs: &mut FuncState, fidx: usize, t: &FieldType, value: ValueId) -> (r: Result<ValueId, JitError>)
    requires
        old(cc).wf(),
        old(fs).wf(),
    ensures
        final(cc).wf(),
        final(fs).wf(),
        final(cc).functions == old(cc).functions,
        final(cc).resolutions == old(cc).resolutions,
        final(cc).native_decls == old(cc).native_decls,
        final(cc).const_strings == old(cc).const_strings,
        final(cc).forward_vtables == old(cc).forward_vtables,
        final(cc).static_field_offset_values == old(cc).static_field_offset_values,
        final(cc).virtual_method_offset_values == old(cc).virtual_method_offset_values,
        final(fs).blocks@.len() == old(fs).blocks@.len(),
        final(fs).cur == old(fs).cur,
        final(fs).value_stack == old(fs).value_stack,
        final(fs).locals == old(fs).locals,
        forall|b: int| 0 <= b < final(fs).blocks@.len()
            ==> (#[trigger] final(fs).blocks@[b]).phis == old(fs).blocks@[b].phis
                && final(fs).blocks@[b].addr == old(fs).blocks@[b].addr
                && final(fs).blocks@[b].term == old(fs).blocks@[b].term,
        r is Err ==> r == Err::<ValueId, JitError>(JitError::CapacityExceeded),
        // a reference passes through untouched; a primitive is boxed by a
        // fresh instance of its wrapper class and a call of the wrapper's
        // constructor with the value
        (match box_symbols(t@) {
            None => r == Ok::<ValueId, JitError>(value) && final(fs).blocks == old(fs).blocks
                && *final(cc) == *old(cc),
            Some(syms) => r matches Ok(obj) ==> ({
                let insts0 = old(fs).blocks@[old(fs).cur as int].insts@;
                let insts1 = final(fs).blocks@[old(fs).cur as int].insts@;
                &&& insts1.len() == insts0.len() + 3
                &&& insts1.subrange(0, insts0.len() as int) == insts0
                &&& (insts1[insts0.len() as int] matches IrInst::Placeholder { dest: p }
                    && (insts1[insts0.len() as int + 1] matches IrInst::CallRuntime {
                        dest: d1,
                        callee,
                        args,
                    } && d1 == Some(obj) && callee == RuntimeFn::NewInstance
                        && args@ == seq![0u32, p]))
                &&& (insts1[insts0.len() as int + 2] matches IrInst::CallDirect {
                    dest: d2,
                    symbol,
                    args,
                } && d2 is None && symbol@ == syms.1 && args@ == seq![obj, value])
                &&& final(cc).class_id_values.has_key(syms.0)
            }),
        }),
{
    let pair = box_class_of(t);
    match pair {
        None => Ok(value),
        Some((class_name, init_symbol)) => {
            let v_ph = match fs.fresh() {
                Ok(v) => v,
                Err(e) => return Err(e),
            };
            fs.emit(IrInst::Placeholder { dest: v_ph });
            cc.get_class_id_value(class_name.as_str(), PlaceholderRef { func: fidx, value: v_ph });
            let v_obj = match fs.fresh() {
                Ok(v) => v,
                Err(e) => return Err(e),
            };
            let mut args: Vec<ValueId> = Vec::new();
            args.push(0);
            args.push(v_ph);
            fs.emit(IrInst::CallRuntime { dest: Some(v_obj), callee: RuntimeFn::NewInstance, args });
            let mut cargs: Vec<ValueId> = Vec::new();
            cargs.push(v_obj);
            cargs.push(value);
            fs.emit(IrInst::CallDirect { dest: None, symbol: init_symbol, args: cargs });
            proof {
                let cur = old(fs).cur as int;
                let insts0 = old(fs).blocks@[cur].insts@;
                let insts1 = fs.blocks@[cur].insts@;
                assert(insts1.subrange(0, insts0.len() as int) =~= insts0);
            }
            Ok(v_obj)
        },
    }
}

/// How many tracer-slot stores a block holds.
pub open spec fn count_arg_stores(s: Seq<IrInst>) -> int
    decreases s.len(),
{
    if s.len() == 0 {
        0
    } else {
        count_arg_stores(s.drop_last()) + (if s.last() is TracingArgStore {
            1int
        } else {
            0int
        })
    }
}

proof fn lemma_count_arg_stores_push(s: Seq<IrInst>, x: IrInst)
    ensures
        count_arg_stores(s.push(x)) == count_arg_stores(s) + (if x is TracingArgStore {
            1int
        } else {
            0int
        }),
{
    assert(s.push(x).drop_last() =~= s);
    assert(s.push(x).last() == x);
}

/// Emits the tracing prologue: boxes up to `MAX_TRACING_ARGS` parameters
/// into the tracer's slot vector and calls the runtime's entry hook.
fn emit_tracing_before(cc: &mut CodegenContext, fs: &mut FuncState, fidx: usize, analysis: &MethodAnalysis) -> (r: Result<(), JitError>)
    requires
        old(cc).wf(),
        old(fs).wf(),
    ensures
        final(cc).wf(),
        final(fs).wf(),
        final(cc).functions == old(cc).functions,
        final(cc).resolutions == old(cc).resolutions,
        final(cc).native_decls == old(cc).native_decls,
        final(fs).blocks@.len() == old(fs).blocks@.len(),
        final(fs).cur == old(fs).cur,
        forall|b: int| 0 <= b < final(fs).blocks@.len()
            ==> (#[trigger] final(fs).blocks@[b]).phis == old(fs).blocks@[b].phis
                && final(fs).blocks@[b].addr == old(fs).blocks@[b].addr
                && final(fs).blocks@[b].term == old(fs).blocks@[b].term,
        // the prologue keeps what was emitted, stores one boxed argument
        // per traced parameter, and ends with the entry hook carrying the
        // interned symbol and the argument count
        r is Ok ==> ({
            let insts0 = old(fs).blocks@[old(fs).cur as int].insts@;
            let insts1 = final(fs).blocks@[old(fs).cur as int].insts@;
            &&& insts1.len() >= insts0.len() + 3
            &&& insts1.subrange(0, insts0.len() as int) == insts0
            &&& count_arg_stores(insts1) == count_arg_stores(insts0)
                + (if analysis.param_count > 20 {
                    20int
                } else {
                    analysis.param_count as int
                })
            &&& (insts1[insts1.len() - 3] matches IrInst::ConstString { dest: ds, global }
                && (global as int) < final(cc).const_strings@.len()
                && final(cc).const_strings@[global as int]@ == analysis.symbol@
                && (insts1[insts1.len() - 1] matches IrInst::CallRuntime { dest: dc, callee, args }
                    && dc is None && callee == RuntimeFn::TracingBefore && args@.len() == 3
                    && args@[0] == 0 && args@[1] == ds))
            &&& (insts1[insts1.len() - 2] matches IrInst::ConstI32 { dest: dn, value: pv }
                && pv == analysis.param_count
                && (insts1[insts1.len() - 1] matches IrInst::CallRuntime { dest: dc2, callee: c2, args }
                    && dc2 is None && c2 == RuntimeFn::TracingBefore && args@[2] == dn))
        }),
{
    let params = analysis.param_count;
    let take = if params > 20 {
        20
    } else {
        params
    };
    let mut local_index: usize = 0;
    let mut i: usize = 0;
    proof {
        assert(fs.blocks@[fs.cur as int].insts@.subrange(
            0,
            old(fs).blocks@[old(fs).cur as int].insts@.len() as int,
        ) =~= old(fs).blocks@[old(fs).cur as int].insts@);
    }
    while i < take
        invariant
            i <= take,
            take <= 20,
            take == (if analysis.param_count > 20 {
                20int
            } else {
                analysis.param_count as int
            }),
            cc.wf(),
            fs.wf(),
            cc.functions == old(cc).functions,
            cc.resolutions == old(cc).resolutions,
            cc.native_decls == old(cc).native_decls,
            fs.blocks@.len() == old(fs).blocks@.len(),
            fs.cur == old(fs).cur,
            fs.blocks@[fs.cur as int].insts@.len()
                >= old(fs).blocks@[old(fs).cur as int].insts@.len(),
            fs.blocks@[fs.cur as int].insts@.subrange(
                0,
                old(fs).blocks@[old(fs).cur as int].insts@.len() as int,
            ) == old(fs).blocks@[old(fs).cur as int].insts@,
            count_arg_stores(fs.blocks@[fs.cur as int].insts@)
                == count_arg_stores(old(fs).blocks@[old(fs).cur as int].insts@) + i,
            forall|b: int| 0 <= b < fs.blocks@.len()
                ==> (#[trigger] fs.blocks@[b]).phis == old(fs).blocks@[b].phis
                    && fs.blocks@[b].addr == old(fs).blocks@[b].addr
                    && fs.blocks@[b].term == old(fs).blocks@[b].term,
        decreases take - i,
    {
        if local_index >= analysis.locals_types.len() {
            return Err(JitError::MissingLocalType { addr: 0 });
        }
        let t = match &analysis.locals_types[local_index] {
            Some(t) => t.duplicate(),
            None => {
                return Err(JitError::MissingLocalType { addr: 0 });
            },
        };
        if i >= 0xffff_fffeusize {
            return Err(JitError::CapacityExceeded);
        }
        let param_value: ValueId = (i + 1) as ValueId;
        let ghost pre_insts = fs.blocks@[fs.cur as int].insts@;
        let boxed = match emit_box(cc, fs, fidx, &t, param_value) {
            Ok(v) => v,
            Err(e) => return Err(e),
        };
        proof {
            // boxing adds no tracer-slot store
            let mid_insts = fs.blocks@[fs.cur as int].insts@;
            match box_symbols(t@) {
                None => {
                    assert(mid_insts == pre_insts);
                },
                Some(_) => {
                    assert(mid_insts =~= pre_insts.push(mid_insts[pre_insts.len() as int]).push(
                        mid_insts[pre_insts.len() as int + 1],
                    ).push(mid_insts[pre_insts.len() as int + 2]));
                    lemma_count_arg_stores_push(pre_insts, mid_insts[pre_insts.len() as int]);
                    lemma_count_arg_stores_push(
                        pre_insts.push(mid_insts[pre_insts.len() as int]),
                        mid_insts[pre_insts.len() as int + 1],
                    );
                    lemma_count_arg_stores_push(
                        pre_insts.push(mid_insts[pre_insts.len() as int]).push(
                            mid_insts[pre_insts.len() as int + 1],
                        ),
                        mid_insts[pre_insts.len() as int + 2],
                    );
                    assert(mid_insts.subrange(0, pre_insts.len() as int) == pre_insts);
                    assert(fs.blocks@[fs.cur as int].insts@.subrange(
                        0,
                        old(fs).blocks@[old(fs).cur as int].insts@.len() as int,
                    ) =~= old(fs).blocks@[old(fs).cur as int].insts@);
                },
            }
        }
        let ghost mid2 = fs.blocks@[fs.cur as int].insts@;
        fs.emit(IrInst::TracingArgStore { index: i as u32, value: boxed });
        proof {
            lemma_count_arg_stores_push(
                mid2,
                IrInst::TracingArgStore { index: i as u32, value: boxed },
            );
            assert(fs.blocks@[fs.cur as int].insts@.subrange(
                0,
                old(fs).blocks@[old(fs).cur as int].insts@.len() as int,
            ) =~= old(fs).blocks@[old(fs).cur as int].insts@);
        }
        let wide = match &t {
            FieldType::BaseType(BaseType::Double) => true,
            FieldType::BaseType(BaseType::Long) => true,
            _ => false,
        };
        if local_index >= 0xffff_fffeusize {
            return Err(JitError::CapacityExceeded);
        }
        if wide {
            local_index = local_index + 2;
        } else {
            local_index = local_index + 1;
        }
        i = i + 1;
    }
    let g = cc.get_const_string_global(analysis.symbol.as_str());
    let v_sym = match fs.fresh() {
        Ok(v) => v,
        Err(e) => return Err(e),
    };
    let ghost tail0 = fs.blocks@[fs.cur as int].insts@;
    fs.emit(IrInst::ConstString { dest: v_sym, global: g });
    let v_n = match fs.fresh() {
        Ok(v) => v,
        Err(e) => return Err(e),
    };
    if params > 0x7fff_ffffusize {
        return Err(JitError::CapacityExceeded);
    }
    fs.emit(IrInst::ConstI32 { dest: v_n, value: params as i32 });
    let mut args: Vec<ValueId> = Vec::new();
    args.push(0);
    args.push(v_sym);
    args.push(v_n);
    fs.emit(IrInst::CallRuntime { dest: None, callee: RuntimeFn::TracingBefore, args });
    proof {
        let cur = old(fs).cur as int;
        let insts0 = old(fs).blocks@[cur].insts@;
        let insts1 = fs.blocks@[cur].insts@;
        lemma_count_arg_stores_push(tail0, IrInst::ConstString { dest: v_sym, global: g });
        lemma_count_arg_stores_push(
            tail0.push(IrInst::ConstString { dest: v_sym, global: g }),
            insts1[insts1.len() - 2],
        );
        lemma_count_arg_stores_push(
            tail0.push(IrInst::ConstString { dest: v_sym, global: g }).push(
                insts1[insts1.len() - 2],
            ),
            insts1[insts1.len() - 1],
        );
        assert(insts1 =~= tail0.push(IrInst::ConstString { dest: v_sym, global: g }).push(
            insts1[insts1.len() - 2],
        ).push(insts1[insts1.len() - 1]));
        assert(insts1.subrange(0, insts0.len() as int) =~= insts0);
    }
    Ok(())
}

/// Emits the tracing epilogue just before a return: boxes the return value,
/// if any, and calls the runtime's exit hook.
fn emit_tracing_after(cc: &mut CodegenContext, fs: &mut FuncState, fidx: usize, analysis: &MethodAnalysis, addr: usize) -> (r: Result<(), JitError>)
    requires
        old(cc).wf(),
        old(fs).wf(),
    ensures
        final(cc).wf(),
        final(fs).wf(),
        final(cc).functions == old(cc).functions,
        final(cc).resolutions == old(cc).resolutions,
        final(cc).native_decls == old(cc).native_decls,
        final(fs).blocks@.len() == old(fs).blocks@.len(),
        final(fs).cur == old(fs).cur,
        final(fs).value_stack == old(fs).value_stack,
        final(fs).locals == old(fs).locals,
        forall|b: int| 0 <= b < final(fs).blocks@.len()
            ==> (#[trigger] final(fs).blocks@[b]).phis == old(fs).blocks@[b].phis
                && final(fs).blocks@[b].addr == old(fs).blocks@[b].addr
                && final(fs).blocks@[b].term == old(fs).blocks@[b].term,
        // the epilogue keeps what was emitted and ends with the exit hook
        // carrying the interned symbol and the (boxed) return value
        r is Ok ==> ({
            let insts0 = old(fs).blocks@[old(fs).cur as int].insts@;
            let insts1 = final(fs).blocks@[old(fs).cur as int].insts@;
            &&& insts1.len() >= insts0.len() + 2
            &&& insts1.subrange(0, insts0.len() as int) == insts0
            &&& (insts1[insts0.len() as int] matches IrInst::ConstString { dest: ds, global }
                && (global as int) < final(cc).const_strings@.len()
                && final(cc).const_strings@[global as int]@ == analysis.symbol@
                && (insts1.last() matches IrInst::CallRuntime { dest: dc, callee, args }
                    && dc is None && callee == RuntimeFn::TracingAfter && args@.len() == 3
                    && args@[0] == 0 && args@[1] == ds))
        }),
{
    let g = cc.get_const_string_global(analysis.symbol.as_str());
    let v_sym = match fs.fresh() {
        Ok(v) => v,
        Err(e) => return Err(e),
    };
    fs.emit(IrInst::ConstString { dest: v_sym, global: g });
    let ghost s1 = fs.blocks@[fs.cur as int].insts@;
    let ret_ptr = match &analysis.descriptor.return_type {
        Some(t) => {
            let top = match fs.value_stack.last() {
                Some(v) => *v,
                None => {
                    return Err(JitError::StackUnderflow { addr });
                },
            };
            let t2 = t.duplicate();
            match emit_box(cc, fs, fidx, &t2, top) {
                Ok(v) => v,
                Err(e) => return Err(e),
            }
        },
        None => {
            let v_null = match fs.fresh() {
                Ok(v) => v,
                Err(e) => return Err(e),
            };
            fs.emit(IrInst::ConstNull { dest: v_null });
            v_null
        },
    };
    let ghost s2 = fs.blocks@[fs.cur as int].insts@;
    let mut args: Vec<ValueId> = Vec::new();
    args.push(0);
    args.push(v_sym);
    args.push(ret_ptr);
    fs.emit(IrInst::CallRuntime { dest: None, callee: RuntimeFn::TracingAfter, args });
    proof {
        let cur = old(fs).cur as int;
        let s0 = old(fs).blocks@[cur].insts@;
        let s3 = fs.blocks@[cur].insts@;
        assert(s1 == s0.push(IrInst::ConstString { dest: v_sym, global: g }));
        assert(s2.len() >= s1.len());
        assert forall|k: int| 0 <= k < s1.len() implies #[trigger] s2[k] == s1[k] by {
            if s2 == s1 {
            } else {
                assert(s2.subrange(0, s1.len() as int)[k] == s1[k]);
            }
        }
        assert forall|k: int| 0 <= k < s0.len()
            implies #[trigger] s3.subrange(0, s0.len() as int)[k] == s0[k] by {
            assert(s3[k] == s2[k]);
            assert(s2[k] == s1[k]);
            assert(s1[k] == s0[k]);
        }
        assert(s3.subrange(0, s0.len() as int) =~= s0);
        assert(s3[s0.len() as int] == s2[s0.len() as int]);
        assert(s2[s0.len() as int] == s1[s0.len() as int]);
        assert(s1[s0.len() as int] == (IrInst::ConstString { dest: v_sym, global: g }));
    }
    Ok(())
}

fn vec_contains_usize(v: &Vec<usize>, x: usize) -> (r: bool)
    ensures
        r == v@.contains(x),
{
    let n = v.len();
    let mut i: usize = 0;
    while i < n
        invariant
            i <= n,
            n == v@.len(),
            forall|k: int| 0 <= k < i ==> v@[k] != x,
        decreases n - i,
    {
        if v[i] == x {
            proof {
                assert(v@[i as int] == x);
            }
            return true;
        }
        i = i + 1;
    }
    proof {
        if v@.contains(x) {
            let w = choose|w: int| 0 <= w < v@.len() && v@[w] == x;
            assert(false);
        }
    }
    false
}

/// Lowers one bytecode instruction into the current block.  Returns whether
/// the instruction terminated the block.
#[verifier::rlimit(80)]
fn lower_instruction(
    cc: &mut CodegenContext,
    fs: &mut FuncState,
    fidx: usize,
    cls: &ClassModel,
    class_name: &str,
    analysis: &MethodAnalysis,
    addr: usize,
    instr: &Instruction,
    tracing: bool,
    has_return: bool,
) -> (r: Result<bool, JitError>)
    requires
        old(cc).wf(),
        old(fs).wf(),
    ensures
        final(cc).wf(),
        final(fs).wf(),
        final(cc).functions == old(cc).functions,
        final(cc).resolutions == old(cc).resolutions,
        final(cc).native_decls == old(cc).native_decls,
        final(fs).blocks@.len() == old(fs).blocks@.len(),
        final(fs).cur == old(fs).cur,
{
    match instr {
        Instruction::Newarray(atype) => {
            let callee = if *atype == 4 {
                RuntimeFn::NewBooleanArray
            } else if *atype == 5 {
                RuntimeFn::NewCharArray
            } else if *atype == 6 {
                RuntimeFn::NewFloatArray
            } else if *atype == 7 {
                RuntimeFn::NewDoubleArray
            } else if *atype == 8 {
                RuntimeFn::NewByteArray
            } else if *atype == 9 {
                RuntimeFn::NewShortArray
            } else if *atype == 10 {
                RuntimeFn::NewIntArray
            } else if *atype == 11 {
                RuntimeFn::NewLongArray
            } else {
                return Err(JitError::UnsupportedInstruction { addr, name: "newarray".to_owned() });
            };
            let size = match fs.pop_value(addr) {
                Ok(v) => v,
                Err(e) => return Err(e),
            };
            let dest = match fs.fresh() {
                Ok(v) => v,
                Err(e) => return Err(e),
            };
            let mut args: Vec<ValueId> = Vec::new();
            args.push(0);
            args.push(size);
            fs.emit(IrInst::CallRuntime { dest: Some(dest), callee, args });
            fs.value_stack.push(dest);
            Ok(false)
        },
        Instruction::Iconstm1 => {
            let dest = match fs.fresh() {
                Ok(v) => v,
                Err(e) => return Err(e),
            };
            fs.emit(IrInst::ConstI32 { dest, value: -1 });
            fs.value_stack.push(dest);
            Ok(false)
        },
        Instruction::Iconst0 | Instruction::Iconst1 | Instruction::Iconst2 | Instruction::Iconst3
        | Instruction::Iconst4 | Instruction::Iconst5 => {
            let value: i32 = match instr {
                Instruction::Iconst0 => 0,
                Instruction::Iconst1 => 1,
                Instruction::Iconst2 => 2,
                Instruction::Iconst3 => 3,
                Instruction::Iconst4 => 4,
                _ => 5,
            };
            let dest = match fs.fresh() {
                Ok(v) => v,
                Err(e) => return Err(e),
            };
            fs.emit(IrInst::ConstI32 { dest, value });
            fs.value_stack.push(dest);
            Ok(false)
        },
        Instruction::Fconst0 | Instruction::Fconst1 | Instruction::Fconst2 => {
            // IEEE bit patterns of 0.0, 1.0 and 2.0.
            let bits: u32 = match instr {
                Instruction::Fconst0 => 0,
                Instruction::Fconst1 => 0x3f80_0000,
                _ => 0x4000_0000,
            };
            let dest = match fs.fresh() {
                Ok(v) => v,
                Err(e) => return Err(e),
            };
            fs.emit(IrInst::ConstF32 { dest, bits });
            fs.value_stack.push(dest);
            Ok(false)
        },
        Instruction::Lconst0 | Instruction::Lconst1 => {
            let value: i64 = match instr {
                Instruction::Lconst0 => 0,
                _ => 1,
            };
            let dest = match fs.fresh() {
                Ok(v) => v,
                Err(e) => return Err(e),
            };
            fs.emit(IrInst::ConstI64 { dest, value });
            fs.value_stack.push(dest);
            Ok(false)
        },
        Instruction::Dconst0 | Instruction::Dconst1 => {
            // IEEE bit patterns of 0.0 and 1.0.
            let bits: u64 = match instr {
                Instruction::Dconst0 => 0,
                _ => 0x3ff0_0000_0000_0000,
            };
            let dest = match fs.fresh() {
                Ok(v) => v,
                Err(e) => return Err(e),
            };
            fs.emit(IrInst::ConstF64 { dest, bits });
            fs.value_stack.push(dest);
            Ok(false)
        },
        Instruction::Bipush(value) => {
            // Sign-extend the byte to 32 bits.
            let dest = match fs.fresh() {
                Ok(v) => v,
                Err(e) => return Err(e),
            };
            fs.emit(IrInst::ConstI32 { dest, value: *value as i32 });
            fs.value_stack.push(dest);
            Ok(false)
        },
        Instruction::Sipush(value) => {
            // Sign-extend the short to 32 bits.
            let dest = match fs.fresh() {
                Ok(v) => v,
                Err(e) => return Err(e),
            };
            fs.emit(IrInst::ConstI32 { dest, value: *value as i32 });
            fs.value_stack.push(dest);
            Ok(false)
        },
        Instruction::Iload0 | Instruction::Iload1 | Instruction::Iload2 | Instruction::Iload3
        | Instruction::Lload0 | Instruction::Lload1 | Instruction::Lload2 | Instruction::Lload3
        | Instruction::Fload0 | Instruction::Fload1 | Instruction::Fload2 | Instruction::Fload3
        | Instruction::Dload0 | Instruction::Dload1 | Instruction::Dload2 | Instruction::Dload3
        | Instruction::Iload(_) | Instruction::Lload(_) | Instruction::Fload(_)
        | Instruction::Dload(_) | Instruction::Aload0 | Instruction::Aload1 | Instruction::Aload2
        | Instruction::Aload3 => {
            let index: usize = match instr {
                Instruction::Iload0 | Instruction::Lload0 | Instruction::Fload0
                | Instruction::Dload0 | Instruction::Aload0 => 0,
                Instruction::Iload1 | Instruction::Lload1 | Instruction::Fload1
                | Instruction::Dload1 | Instruction::Aload1 => 1,
                Instruction::Iload2 | Instruction::Lload2 | Instruction::Fload2
                | Instruction::Dload2 | Instruction::Aload2 => 2,
                Instruction::Iload3 | Instruction::Lload3 | Instruction::Fload3
                | Instruction::Dload3 | Instruction::Aload3 => 3,
                Instruction::Iload(x) | Instruction::Lload(x) | Instruction::Fload(x)
                | Instruction::Dload(x) => *x as usize,
                _ => 0,
            };
            if index >= fs.locals.len() {
                return Err(JitError::MissingLocalType { addr });
            }
            let v = match &fs.locals[index] {
                Some(v) => *v,
                None => {
                    return Err(JitError::MissingLocalType { addr });
                },
            };
            fs.value_stack.push(v);
            Ok(false)
        },
        Instruction::Astore0 | Instruction::Astore1 | Instruction::Astore2 | Instruction::Astore3
        | Instruction::Istore0 | Instruction::Istore1 | Instruction::Istore2
        | Instruction::Istore3 | Instruction::Lstore0 | Instruction::Lstore1
        | Instruction::Lstore2 | Instruction::Lstore3 | Instruction::Fstore0
        | Instruction::Fstore1 | Instruction::Fstore2 | Instruction::Fstore3
        | Instruction::Dstore0 | Instruction::Dstore1 | Instruction::Dstore2
        | Instruction::Dstore3 | Instruction::Istore(_) | Instruction::Lstore(_)
        | Instruction::Fstore(_) | Instruction::Dstore(_) => {
            let index: usize = match instr {
                Instruction::Istore0 | Instruction::Lstore0 | Instruction::Fstore0
                | Instruction::Dstore0 | Instruction::Astore0 => 0,
                Instruction::Istore1 | Instruction::Lstore1 | Instruction::Fstore1
                | Instruction::Dstore1 | Instruction::Astore1 => 1,
                Instruction::Istore2 | Instruction::Lstore2 | Instruction::Fstore2
                | Instruction::Dstore2 | Instruction::Astore2 => 2,
                Instruction::Istore3 | Instruction::Lstore3 | Instruction::Fstore3
                | Instruction::Dstore3 | Instruction::Astore3 => 3,
                Instruction::Istore(x) | Instruction::Lstore(x) | Instruction::Fstore(x)
                | Instruction::Dstore(x) => *x as usize,
                _ => 0,
            };
            let v = match fs.pop_value(addr) {
                Ok(v) => v,
                Err(e) => return Err(e),
            };
            if index >= fs.locals.len() {
                return Err(JitError::MissingLocalType { addr });
            }
            fs.locals[index] = Some(v);
            Ok(false)
        },
        Instruction::Aaload => {
            let idx = match fs.pop_value(addr) {
                Ok(v) => v,
                Err(e) => return Err(e),
            };
            let arr = match fs.pop_value(addr) {
                Ok(v) => v,
                Err(e) => return Err(e),
            };
            let dest = match fs.fresh() {
                Ok(v) => v,
                Err(e) => return Err(e),
            };
            fs.emit(IrInst::ArrayLoad { dest, ty: IrType::Ptr, arr, idx });
            fs.value_stack.push(dest);
            Ok(false)
        },
        Instruction::Iaload | Instruction::Baload | Instruction::Saload | Instruction::Caload
        | Instruction::Laload | Instruction::Faload | Instruction::Daload => {
            let ty = match instr {
                Instruction::Laload => IrType::I64,
                Instruction::Faload => IrType::F32,
                Instruction::Daload => IrType::F64,
                _ => IrType::I32,
            };
            let idx = match fs.pop_value(addr) {
                Ok(v) => v,
                Err(e) => return Err(e),
            };
            let arr = match fs.pop_value(addr) {
                Ok(v) => v,
                Err(e) => return Err(e),
            };
            let dest = match fs.fresh() {
                Ok(v) => v,
                Err(e) => return Err(e),
            };
            fs.emit(IrInst::ArrayLoad { dest, ty, arr, idx });
            fs.value_stack.push(dest);
            Ok(false)
        },
        Instruction::Iastore | Instruction::Bastore | Instruction::Sastore | Instruction::Castore
        | Instruction::Lastore | Instruction::Fastore | Instruction::Dastore => {
            let value = match fs.pop_value(addr) {
                Ok(v) => v,
                Err(e) => return Err(e),
            };
            let idx = match fs.pop_value(addr) {
                Ok(v) => v,
                Err(e) => return Err(e),
            };
            let arr = match fs.pop_value(addr) {
                Ok(v) => v,
                Err(e) => return Err(e),
            };
            fs.emit(IrInst::ArrayStore { arr, idx, value });
            Ok(false)
        },
        Instruction::Arraylength => {
            let arr = match fs.pop_value(addr) {
                Ok(v) => v,
                Err(e) => return Err(e),
            };
            let dest = match fs.fresh() {
                Ok(v) => v,
                Err(e) => return Err(e),
            };
            fs.emit(IrInst::ArrayLength { dest, arr });
            fs.value_stack.push(dest);
            Ok(false)
        },
        Instruction::Iadd | Instruction::Isub | Instruction::Imul | Instruction::Idiv
        | Instruction::Ladd | Instruction::Lsub | Instruction::Lmul | Instruction::Ldiv => {
            let op = match instr {
                Instruction::Iadd | Instruction::Ladd => ArithOp::Add,
                Instruction::Isub | Instruction::Lsub => ArithOp::Sub,
                Instruction::Imul | Instruction::Lmul => ArithOp::Mul,
                _ => ArithOp::Div,
            };
            let wide = match instr {
                Instruction::Ladd | Instruction::Lsub | Instruction::Lmul
                | Instruction::Ldiv => true,
                _ => false,
            };
            let v2 = match fs.pop_value(addr) {
                Ok(v) => v,
                Err(e) => return Err(e),
            };
            let v1 = match fs.pop_value(addr) {
                Ok(v) => v,
                Err(e) => return Err(e),
            };
            let dest = match fs.fresh() {
                Ok(v) => v,
                Err(e) => return Err(e),
            };
            fs.emit(IrInst::IntBin { dest, op, wide, a: v1, b: v2 });
            fs.value_stack.push(dest);
            Ok(false)
        },
        Instruction::Fadd | Instruction::Fsub | Instruction::Fmul | Instruction::Fdiv
        | Instruction::Dadd | Instruction::Dsub | Instruction::Dmul | Instruction::Ddiv => {
            let op = match instr {
                Instruction::Fadd | Instruction::Dadd => ArithOp::Add,
                Instruction::Fsub | Instruction::Dsub => ArithOp::Sub,
                Instruction::Fmul | Instruction::Dmul => ArithOp::Mul,
                _ => ArithOp::Div,
            };
            let double = match instr {
                Instruction::Dadd | Instruction::Dsub | Instruction::Dmul
                | Instruction::Ddiv => true,
                _ => false,
            };
            let v2 = match fs.pop_value(addr) {
                Ok(v) => v,
                Err(e) => return Err(e),
            };
            let v1 = match fs.pop_value(addr) {
                Ok(v) => v,
                Err(e) => return Err(e),
            };
            let dest = match fs.fresh() {
                Ok(v) => v,
                Err(e) => return Err(e),
            };
            fs.emit(IrInst::FloatBin { dest, op, double, a: v1, b: v2 });
            fs.value_stack.push(dest);
            Ok(false)
        },
        Instruction::I2b | Instruction::I2s | Instruction::I2c => {
            let src = match fs.pop_value(addr) {
                Ok(v) => v,
                Err(e) => return Err(e),
            };
            let dest = match fs.fresh() {
                Ok(v) => v,
                Err(e) => return Err(e),
            };
            match instr {
                Instruction::I2b => fs.emit(IrInst::I2b { dest, src }),
                Instruction::I2s => fs.emit(IrInst::I2s { dest, src }),
                _ => fs.emit(IrInst::I2c { dest, src }),
            }
            fs.value_stack.push(dest);
            Ok(false)
        },
        Instruction::Lcmp => {
            let w = match fs.pop_value(addr) {
                Ok(v) => v,
                Err(e) => return Err(e),
            };
            let v = match fs.pop_value(addr) {
                Ok(v) => v,
                Err(e) => return Err(e),
            };
            let dest = match fs.fresh() {
                Ok(v) => v,
                Err(e) => return Err(e),
            };
            fs.emit(IrInst::Lcmp { dest, a: v, b: w });
            fs.value_stack.push(dest);
            Ok(false)
        },
        Instruction::Fcmpl | Instruction::Fcmpg | Instruction::Dcmpl | Instruction::Dcmpg => {
            let double = match instr {
                Instruction::Dcmpl | Instruction::Dcmpg => true,
                _ => false,
            };
            let g = match instr {
                Instruction::Fcmpg | Instruction::Dcmpg => true,
                _ => false,
            };
            let w = match fs.pop_value(addr) {
                Ok(v) => v,
                Err(e) => return Err(e),
            };
            let v = match fs.pop_value(addr) {
                Ok(v) => v,
                Err(e) => return Err(e),
            };
            let dest = match fs.fresh() {
                Ok(v) => v,
                Err(e) => return Err(e),
            };
            fs.emit(IrInst::Fcmp { dest, double, g, a: v, b: w });
            fs.value_stack.push(dest);
            Ok(false)
        },
        Instruction::Iinc { index, value } => {
            let index = *index as usize;
            if index >= fs.locals.len() {
                return Err(JitError::MissingLocalType { addr });
            }
            let local = match &fs.locals[index] {
                Some(v) => *v,
                None => {
                    return Err(JitError::MissingLocalType { addr });
                },
            };
            let vconst = match fs.fresh() {
                Ok(v) => v,
                Err(e) => return Err(e),
            };
            // Sign-extend the 8-bit increment to 32 bits.
            fs.emit(IrInst::ConstI32 { dest: vconst, value: *value as i32 });
            let dest = match fs.fresh() {
                Ok(v) => v,
                Err(e) => return Err(e),
            };
            fs.emit(IrInst::IntBin { dest, op: ArithOp::Add, wide: false, a: local, b: vconst });
            fs.locals[index] = Some(dest);
            Ok(false)
        },
        Instruction::Ldc(index) => lower_load_constant(cc, fs, cls, addr, *index as u16),
        Instruction::Ldc2W(index) => lower_load_constant(cc, fs, cls, addr, *index),
        Instruction::Getstatic(index) => {
            let (callee_class, field_name, desc_str) = match pool_field_ref(cls, *index) {
                Ok(t) => t,
                Err(e) => return Err(e),
            };
            let field_type = match try_parse_field_type_descriptor(&desc_str) {
                Some(t) => t,
                None => return Err(JitError::BadDescriptor),
            };
            let ty = ir_type_from_field_type(&field_type);
            let (obj, off) = match lower_static_field_ptr(cc, fs, fidx, callee_class.as_str(), field_name.as_str()) {
                Ok(t) => t,
                Err(e) => return Err(e),
            };
            let dest = match fs.fresh() {
                Ok(v) => v,
                Err(e) => return Err(e),
            };
            fs.emit(IrInst::StaticLoad { dest, ty, class_obj: obj, offset: off });
            fs.value_stack.push(dest);
            Ok(false)
        },
        Instruction::Putstatic(index) => {
            let (callee_class, field_name, _desc) = match pool_field_ref(cls, *index) {
                Ok(t) => t,
                Err(e) => return Err(e),
            };
            let value = match fs.pop_value(addr) {
                Ok(v) => v,
                Err(e) => return Err(e),
            };
            let (obj, off) = match lower_static_field_ptr(cc, fs, fidx, callee_class.as_str(), field_name.as_str()) {
                Ok(t) => t,
                Err(e) => return Err(e),
            };
            fs.emit(IrInst::StaticStore { class_obj: obj, offset: off, value });
            Ok(false)
        },
        Instruction::Invokevirtual(index) => {
            let (callee_class, callee_name, desc_str) = match pool_method_ref(cls, *index) {
                Ok(t) => t,
                Err(e) => return Err(e),
            };
            let sig = match try_parse_method_descriptor(&desc_str) {
                Some(d) => d,
                None => return Err(JitError::BadDescriptor),
            };
            let np = sig.parameter_types.len();
            let mut popped: Vec<ValueId> = Vec::new();
            let mut k: usize = 0;
            while k < np
                invariant
                    k <= np,
                    popped@.len() == k,
                    cc.wf(),
                    fs.wf(),
                    cc.functions == old(cc).functions,
                    cc.resolutions == old(cc).resolutions,
                    cc.native_decls == old(cc).native_decls,
                    fs.blocks@.len() == old(fs).blocks@.len(),
                    fs.cur == old(fs).cur,
                decreases np - k,
            {
                match fs.pop_value(addr) {
                    Ok(v) => popped.push(v),
                    Err(e) => return Err(e),
                }
                k = k + 1;
            }
            let receiver = match fs.pop_value(addr) {
                Ok(v) => v,
                Err(e) => return Err(e),
            };
            let symbol = make_symbol(callee_class.as_str(), callee_name.as_str(), desc_str.as_str());
            let v_slot = match fs.fresh() {
                Ok(v) => v,
                Err(e) => return Err(e),
            };
            fs.emit(IrInst::Placeholder { dest: v_slot });
            cc.get_virtual_method_offset_value(symbol.as_str(), PlaceholderRef { func: fidx, value: v_slot });
            let v_fn = match fs.fresh() {
                Ok(v) => v,
                Err(e) => return Err(e),
            };
            fs.emit(IrInst::VtableLookup { dest: v_fn, obj: receiver, slot: v_slot });
            let mut args: Vec<ValueId> = Vec::new();
            args.push(0);
            args.push(receiver);
            let mut q: usize = 0;
            while q < np
                invariant
                    q <= np,
                    np == popped@.len(),
                decreases np - q,
            {
                args.push(popped[np - 1 - q]);
                q = q + 1;
            }
            let dest = match &sig.return_type {
                Some(_) => {
                    let d = match fs.fresh() {
                        Ok(v) => v,
                        Err(e) => return Err(e),
                    };
                    Some(d)
                },
                None => None,
            };
            fs.emit(IrInst::CallIndirect { dest, target: v_fn, args });
            match dest {
                Some(d) => fs.value_stack.push(d),
                None => {},
            }
            Ok(false)
        },
        Instruction::Invokestatic(index) => {
            let (callee_class, callee_name, desc_str) = match pool_method_ref(cls, *index) {
                Ok(t) => t,
                Err(e) => return Err(e),
            };
            if !(callee_class == class_name.to_owned()) {
                return Err(JitError::NonLocalStaticCall { class_name: callee_class });
            }
            let sig = match try_parse_method_descriptor(&desc_str) {
                Some(d) => d,
                None => return Err(JitError::BadDescriptor),
            };
            let symbol = make_symbol(callee_class.as_str(), callee_name.as_str(), desc_str.as_str());
            let np = sig.parameter_types.len();
            let mut popped: Vec<ValueId> = Vec::new();
            let mut k: usize = 0;
            while k < np
                invariant
                    k <= np,
                    popped@.len() == k,
                    cc.wf(),
                    fs.wf(),
                    cc.functions == old(cc).functions,
                    cc.resolutions == old(cc).resolutions,
                    cc.native_decls == old(cc).native_decls,
                    fs.blocks@.len() == old(fs).blocks@.len(),
                    fs.cur == old(fs).cur,
                decreases np - k,
            {
                match fs.pop_value(addr) {
                    Ok(v) => popped.push(v),
                    Err(e) => return Err(e),
                }
                k = k + 1;
            }
            let mut args: Vec<ValueId> = Vec::new();
            args.push(0);
            let mut q: usize = 0;
            while q < np
                invariant
                    q <= np,
                    np == popped@.len(),
                decreases np - q,
            {
                args.push(popped[np - 1 - q]);
                q = q + 1;
            }
            let dest = match &sig.return_type {
                Some(_) => {
                    let d = match fs.fresh() {
                        Ok(v) => v,
                        Err(e) => return Err(e),
                    };
                    Some(d)
                },
                None => None,
            };
            fs.emit(IrInst::CallDirect { dest, symbol, args });
            match dest {
                Some(d) => fs.value_stack.push(d),
                None => {},
            }
            Ok(false)
        },
        Instruction::Invokespecial(index) => {
            // Deliberately a no-op in this subset: the reference is resolved
            // for validation only.
            match pool_method_ref(cls, *index) {
                Ok(_) => {},
                Err(e) => return Err(e),
            }
            Ok(false)
        },
        Instruction::Goto(diff) => {
            if addr > 0x0fff_ffffusize {
                return Err(JitError::BadBranch { addr });
            }
            let tgt = match branch_target(addr, *diff) {
                Ok(t) => t,
                Err(e) => return Err(e),
            };
            let b = match fs.find_block(tgt) {
                Some(b) => b,
                None => {
                    return Err(JitError::MissingBlock { addr: tgt });
                },
            };
            let vals = match collect_edge_values(fs, &analysis.locals_types, b, addr) {
                Ok(v) => v,
                Err(e) => return Err(e),
            };
            let from = fs.blocks[fs.cur].addr;
            fs.add_edges(b, from, &vals);
            fs.set_term(Terminator::Br { target: tgt });
            Ok(true)
        },
        Instruction::IfIcmpeq(diff) | Instruction::IfIcmpne(diff) | Instruction::IfIcmplt(diff)
        | Instruction::IfIcmpge(diff) | Instruction::IfIcmpgt(diff)
        | Instruction::IfIcmple(diff) => {
            let pred = match instr {
                Instruction::IfIcmpeq(_) => IntPred::Eq,
                Instruction::IfIcmpne(_) => IntPred::Ne,
                Instruction::IfIcmplt(_) => IntPred::Lt,
                Instruction::IfIcmpge(_) => IntPred::Ge,
                Instruction::IfIcmpgt(_) => IntPred::Gt,
                _ => IntPred::Le,
            };
            if addr > 0x0fff_ffffusize {
                return Err(JitError::BadBranch { addr });
            }
            let tgt = match branch_target(addr, *diff) {
                Ok(t) => t,
                Err(e) => return Err(e),
            };
            let els = addr + 3;
            let bt = match fs.find_block(tgt) {
                Some(b) => b,
                None => {
                    return Err(JitError::MissingBlock { addr: tgt });
                },
            };
            let vals_t = match collect_edge_values(fs, &analysis.locals_types, bt, addr) {
                Ok(v) => v,
                Err(e) => return Err(e),
            };
            let from = fs.blocks[fs.cur].addr;
            fs.add_edges(bt, from, &vals_t);
            let be = match fs.find_block(els) {
                Some(b) => b,
                None => {
                    return Err(JitError::MissingBlock { addr: els });
                },
            };
            let vals_e = match collect_edge_values(fs, &analysis.locals_types, be, addr) {
                Ok(v) => v,
                Err(e) => return Err(e),
            };
            fs.add_edges(be, from, &vals_e);
            let v2 = match fs.pop_value(addr) {
                Ok(v) => v,
                Err(e) => return Err(e),
            };
            let v1 = match fs.pop_value(addr) {
                Ok(v) => v,
                Err(e) => return Err(e),
            };
            let cond = match fs.fresh() {
                Ok(v) => v,
                Err(e) => return Err(e),
            };
            fs.emit(IrInst::ICmp { dest: cond, pred, a: v1, b: v2 });
            fs.set_term(Terminator::CondBr { cond, if_true: tgt, if_false: els });
            Ok(true)
        },
        Instruction::Ifeq(diff) | Instruction::Ifne(diff) | Instruction::Ifgt(diff)
        | Instruction::Ifge(diff) | Instruction::Ifle(diff) => {
            let pred = match instr {
                Instruction::Ifeq(_) => IntPred::Eq,
                Instruction::Ifne(_) => IntPred::Ne,
                Instruction::Ifgt(_) => IntPred::Gt,
                Instruction::Ifge(_) => IntPred::Ge,
                _ => IntPred::Le,
            };
            if addr > 0x0fff_ffffusize {
                return Err(JitError::BadBranch { addr });
            }
            let tgt = match branch_target(addr, *diff) {
                Ok(t) => t,
                Err(e) => return Err(e),
            };
            let els = addr + 3;
            let bt = match fs.find_block(tgt) {
                Some(b) => b,
                None => {
                    return Err(JitError::MissingBlock { addr: tgt });
                },
            };
            let vals_t = match collect_edge_values(fs, &analysis.locals_types, bt, addr) {
                Ok(v) => v,
                Err(e) => return Err(e),
            };
            let from = fs.blocks[fs.cur].addr;
            fs.add_edges(bt, from, &vals_t);
            let be = match fs.find_block(els) {
                Some(b) => b,
                None => {
                    return Err(JitError::MissingBlock { addr: els });
                },
            };
            let vals_e = match collect_edge_values(fs, &analysis.locals_types, be, addr) {
                Ok(v) => v,
                Err(e) => return Err(e),
            };
            fs.add_edges(be, from, &vals_e);
            let v = match fs.pop_value(addr) {
                Ok(v) => v,
                Err(e) => return Err(e),
            };
            let zero = match fs.fresh() {
                Ok(v) => v,
                Err(e) => return Err(e),
            };
            fs.emit(IrInst::ConstI32 { dest: zero, value: 0 });
            let cond = match fs.fresh() {
                Ok(v) => v,
                Err(e) => return Err(e),
            };
            fs.emit(IrInst::ICmp { dest: cond, pred, a: v, b: zero });
            fs.set_term(Terminator::CondBr { cond, if_true: tgt, if_false: els });
            Ok(true)
        },
        Instruction::Ireturn | Instruction::Areturn => {
            if tracing {
                match emit_tracing_after(cc, fs, fidx, analysis, addr) {
                    Ok(()) => {},
                    Err(e) => return Err(e),
                }
            }
            let v = match fs.pop_value(addr) {
                Ok(v) => v,
                Err(e) => return Err(e),
            };
            fs.set_term(Terminator::Ret { value: Some(v) });
            Ok(true)
        },
        Instruction::Return => {
            if tracing {
                match emit_tracing_after(cc, fs, fidx, analysis, addr) {
                    Ok(()) => {},
                    Err(e) => return Err(e),
                }
            }
            if has_return {
                let v = match fs.pop_value(addr) {
                    Ok(v) => v,
                    Err(e) => return Err(e),
                };
                fs.set_term(Terminator::Ret { value: Some(v) });
            } else {
                fs.set_term(Terminator::Ret { value: None });
            }
            Ok(true)
        },
        Instruction::Unsupported(name) => Err(JitError::UnsupportedInstruction {
            addr,
            name: name.clone(),
        }),
    }
}

/// Emits a constant-pool load: string constants become interned string
/// objects, numeric constants become typed constants carrying their bits.
fn lower_load_constant(cc: &mut CodegenContext, fs: &mut FuncState, cls: &ClassModel, addr: usize, index: u16) -> (r: Result<bool, JitError>)
    requires
        old(cc).wf(),
        old(fs).wf(),
    ensures
        final(cc).wf(),
        final(fs).wf(),
        final(cc).functions == old(cc).functions,
        final(cc).resolutions == old(cc).resolutions,
        final(cc).native_decls == old(cc).native_decls,
        final(fs).blocks@.len() == old(fs).blocks@.len(),
        final(fs).cur == old(fs).cur,
{
    let i = index as usize;
    if i == 0 || i > cls.const_pool.len() {
        return Err(JitError::BadConstantPool { index });
    }
    let dest = match fs.fresh() {
        Ok(v) => v,
        Err(e) => return Err(e),
    };
    match &cls.const_pool[i - 1] {
        ConstEntry::StringRef { string_index } => {
            let text = match pool_utf8(cls, *string_index) {
                Ok(t) => t,
                Err(e) => return Err(e),
            };
            let g = cc.get_const_string_global(text.as_str());
            fs.emit(IrInst::ConstString { dest, global: g });
        },
        ConstEntry::Integer(v) => {
            fs.emit(IrInst::ConstI32 { dest, value: *v });
        },
        ConstEntry::Float(bits) => {
            fs.emit(IrInst::ConstF32 { dest, bits: *bits });
        },
        ConstEntry::Long(v) => {
            fs.emit(IrInst::ConstI64 { dest, value: *v });
        },
        ConstEntry::Double(bits) => {
            fs.emit(IrInst::ConstF64 { dest, bits: *bits });
        },
        _ => {
            return Err(JitError::UnsupportedConstant { addr });
        },
    }
    fs.value_stack.push(dest);
    Ok(false)
}

/// Emits the class-object fetch and field-offset placeholder a static-field
/// access needs: the class identifier and the byte offset are both
/// placeholders resolved at link time.
fn lower_static_field_ptr(cc: &mut CodegenContext, fs: &mut FuncState, fidx: usize, callee_class: &str, field_name: &str) -> (r: Result<(ValueId, ValueId), JitError>)
    requires
        old(cc).wf(),
        old(fs).wf(),
    ensures
        final(cc).wf(),
        final(fs).wf(),
        final(cc).functions == old(cc).functions,
        final(cc).resolutions == old(cc).resolutions,
        final(cc).native_decls == old(cc).native_decls,
        final(fs).blocks@.len() == old(fs).blocks@.len(),
        final(fs).cur == old(fs).cur,
        final(fs).value_stack == old(fs).value_stack,
        final(fs).locals == old(fs).locals,
{
    let v_cid = match fs.fresh() {
        Ok(v) => v,
        Err(e) => return Err(e),
    };
    fs.emit(IrInst::Placeholder { dest: v_cid });
    cc.get_class_id_value(callee_class, PlaceholderRef { func: fidx, value: v_cid });
    let v_false = match fs.fresh() {
        Ok(v) => v,
        Err(e) => return Err(e),
    };
    fs.emit(IrInst::ConstI32 { dest: v_false, value: 0 });
    let v_obj = match fs.fresh() {
        Ok(v) => v,
        Err(e) => return Err(e),
    };
    let mut args: Vec<ValueId> = Vec::new();
    args.push(0);
    args.push(v_cid);
    args.push(v_false);
    fs.emit(IrInst::CallRuntime { dest: Some(v_obj), callee: RuntimeFn::GetClassObject, args });
    let v_off = match fs.fresh() {
        Ok(v) => v,
        Err(e) => return Err(e),
    };
    fs.emit(IrInst::Placeholder { dest: v_off });
    cc.get_static_filed_offset_value(callee_class, field_name, PlaceholderRef { func: fidx, value: v_off });
    Ok((v_obj, v_off))
}

/// Lowers one method to an IR function.  The function takes the isolate
/// handle first (and the receiver second, for a virtual method); blocks
/// follow the block starts the pre-pass discovered, and every non-entry
/// block carries one phi per live local slot and per entry-stack slot.
///
/// In the emitted function, fall-through and jump edges each contribute
/// exactly one incoming value per phi of their target block.
pub fn compile_method(
    cc: &mut CodegenContext,
    fidx: usize,
    cls: &ClassModel,
    class_name: &str,
    method: &MethodModel,
    analysis: &MethodAnalysis,
    tracing: bool,
) -> (r: Result<IrFunction, JitError>)
    requires
        old(cc).wf(),
    ensures
        final(cc).wf(),
        final(cc).functions == old(cc).functions,
        final(cc).resolutions == old(cc).resolutions,
        final(cc).native_decls == old(cc).native_decls,
        r matches Ok(f) ==> {
            &&& phis_harmonious(f.blocks@)
            &&& f.symbol@ == analysis.symbol@
            &&& f.is_static == analysis.is_static
            &&& f.blocks@.len() == analysis.labels@.len()
            &&& f.param_tys@.len() == analysis.descriptor.parameter_types@.len()
                + (if analysis.is_static { 1int } else { 2int })
            &&& f.ret_ty == (match analysis.descriptor.return_type {
                Some(t) => Some(crate::codegen::codegen_context::spec_ir_type(t@)),
                None => None::<IrType>,
            })
        },
{
    let (param_tys, ret_ty) = ir_signature_from_method_type(&analysis.descriptor, analysis.is_static);
    let n_params = param_tys.len();
    if n_params > 0xffffusize {
        return Err(JitError::CapacityExceeded);
    }
    let has_return = match &analysis.descriptor.return_type {
        Some(_) => true,
        None => false,
    };
    let mut fs = FuncState {
        next: n_params as u32,
        blocks: Vec::new(),
        cur: 0,
        value_stack: Vec::new(),
        locals: Vec::new(),
    };
    // One block per discovered block start; non-entry blocks carry phis for
    // every live local slot and every entry-stack slot.
    let nl = analysis.labels.len();
    let mut li: usize = 0;
    while li < nl
        invariant
            li <= nl,
            nl == analysis.labels@.len(),
            fs.blocks@.len() == li,
            cc.wf(),
            cc.functions == old(cc).functions,
            cc.resolutions == old(cc).resolutions,
            cc.native_decls == old(cc).native_decls,
            forall|b: int, p: int, q: int|
                0 <= b < fs.blocks@.len() && 0 <= p < fs.blocks@[b].phis@.len()
                    && 0 <= q < fs.blocks@[b].phis@.len()
                    ==> (#[trigger] fs.blocks@[b].phis@[p]).incomings@.len() == 0
                        && (#[trigger] fs.blocks@[b].phis@[q]).incomings@.len() == 0,
        decreases nl - li,
    {
        let baddr = analysis.labels[li];
        let mut phis: Vec<IrPhi> = Vec::new();
        if baddr != 0 {
            let nslots = analysis.locals_types.len();
            let mut k: usize = 0;
            while k < nslots
                invariant
                    k <= nslots,
                    nslots == analysis.locals_types@.len(),
                    fs.blocks@.len() == li,
                    cc.wf(),
                    cc.functions == old(cc).functions,
                    cc.resolutions == old(cc).resolutions,
                    cc.native_decls == old(cc).native_decls,
                    forall|b: int, p: int, q: int|
                        0 <= b < fs.blocks@.len() && 0 <= p < fs.blocks@[b].phis@.len()
                            && 0 <= q < fs.blocks@[b].phis@.len()
                            ==> (#[trigger] fs.blocks@[b].phis@[p]).incomings@.len() == 0
                                && (#[trigger] fs.blocks@[b].phis@[q]).incomings@.len() == 0,
                    forall|p: int| 0 <= p < phis@.len()
                        ==> (#[trigger] phis@[p]).incomings@.len() == 0,
                decreases nslots - k,
            {
                match &analysis.locals_types[k] {
                    Some(t) => {
                        if fs.next == 0xffff_ffffu32 {
                            return Err(JitError::CapacityExceeded);
                        }
                        let dest = fs.next;
                        fs.next = fs.next + 1;
                        let ty = ir_type_from_field_type(t);
                        phis.push(IrPhi { dest, ty, incomings: Vec::new() });
                    },
                    None => {},
                }
                k = k + 1;
            }
            // The recorded entry snapshot, if any, contributes one phi per
            // stack slot.
            let mut snap_at: Option<usize> = None;
            let nls = analysis.label_stacks.len();
            let mut w: usize = 0;
            while w < nls
                invariant
                    w <= nls,
                    nls == analysis.label_stacks@.len(),
                    snap_at matches Some(si) ==> si < nls,
                    fs.blocks@.len() == li,
                    cc.wf(),
                    cc.functions == old(cc).functions,
                    cc.resolutions == old(cc).resolutions,
                    cc.native_decls == old(cc).native_decls,
                    forall|b: int, p: int, q: int|
                        0 <= b < fs.blocks@.len() && 0 <= p < fs.blocks@[b].phis@.len()
                            && 0 <= q < fs.blocks@[b].phis@.len()
                            ==> (#[trigger] fs.blocks@[b].phis@[p]).incomings@.len() == 0
                                && (#[trigger] fs.blocks@[b].phis@[q]).incomings@.len() == 0,
                    forall|p: int| 0 <= p < phis@.len()
                        ==> (#[trigger] phis@[p]).incomings@.len() == 0,
                decreases nls - w,
            {
                if analysis.label_stacks[w].0 == baddr {
                    snap_at = Some(w);
                    w = nls;
                } else {
                    w = w + 1;
                }
            }
            match snap_at {
                Some(si) => {
                    let nst = analysis.label_stacks[si].1.len();
                    let mut j: usize = 0;
                    while j < nst
                        invariant
                            j <= nst,
                            si < analysis.label_stacks@.len(),
                            nst == analysis.label_stacks@[si as int].1@.len(),
                            fs.blocks@.len() == li,
                            cc.wf(),
                            cc.functions == old(cc).functions,
                            cc.resolutions == old(cc).resolutions,
                            cc.native_decls == old(cc).native_decls,
                            forall|b: int, p: int, q: int|
                                0 <= b < fs.blocks@.len() && 0 <= p < fs.blocks@[b].phis@.len()
                                    && 0 <= q < fs.blocks@[b].phis@.len()
                                    ==> (#[trigger] fs.blocks@[b].phis@[p]).incomings@.len() == 0
                                        && (#[trigger] fs.blocks@[b].phis@[q]).incomings@.len() == 0,
                            forall|p: int| 0 <= p < phis@.len()
                                ==> (#[trigger] phis@[p]).incomings@.len() == 0,
                        decreases nst - j,
                    {
                        match &analysis.label_stacks[si].1[j] {
                            t => {
                                if fs.next == 0xffff_ffffu32 {
                                    return Err(JitError::CapacityExceeded);
                                }
                                let dest = fs.next;
                                fs.next = fs.next + 1;
                                let ty = ir_type_from_field_type(t);
                                phis.push(IrPhi { dest, ty, incomings: Vec::new() });
                            },
                        }
                        j = j + 1;
                    }
                },
                None => {},
            }
        }
        fs.blocks.push(IrBlock { addr: baddr, phis, insts: Vec::new(), term: None });
        li = li + 1;
    }
    proof {
        assert forall|b: int, p: int, q: int|
            0 <= b < fs.blocks@.len() && 0 <= p < fs.blocks@[b].phis@.len()
                && 0 <= q < fs.blocks@[b].phis@.len()
            implies (#[trigger] fs.blocks@[b].phis@[p]).incomings@.map_values(|x: (usize, ValueId)| x.0)
                == (#[trigger] fs.blocks@[b].phis@[q]).incomings@.map_values(|x: (usize, ValueId)| x.0) by {
            assert(fs.blocks@[b].phis@[p].incomings@.map_values(|x: (usize, ValueId)| x.0)
                =~= fs.blocks@[b].phis@[q].incomings@.map_values(|x: (usize, ValueId)| x.0));
        }
    }
    let entry = match fs.find_block(0) {
        Some(b) => b,
        None => {
            return Err(JitError::MissingBlock { addr: 0 });
        },
    };
    fs.cur = entry;
    // Bind the parameters to their local slots.
    let nslots = analysis.locals_types.len();
    let mut locals: Vec<Option<ValueId>> = Vec::new();
    let mut z: usize = 0;
    while z < nslots
        invariant
            z <= nslots,
            locals@.len() == z,
            cc.wf(),
            cc.functions == old(cc).functions,
            cc.resolutions == old(cc).resolutions,
            cc.native_decls == old(cc).native_decls,
        decreases nslots - z,
    {
        locals.push(None);
        z = z + 1;
    }
    fs.locals = locals;
    if analysis.param_count > 0xffffusize {
        return Err(JitError::CapacityExceeded);
    }
    let mut local_index: usize = 0;
    let mut pi: usize = 0;
    while pi < analysis.param_count
        invariant
            pi <= analysis.param_count,
            analysis.param_count <= 0xffff,
            local_index <= 2 * pi,
            fs.wf(),
            fs.cur == entry,
            entry < fs.blocks@.len(),
            fs.blocks@.len() == nl,
            nl == analysis.labels@.len(),
            fs.locals@.len() == nslots,
            nslots == analysis.locals_types@.len(),
            cc.wf(),
            cc.functions == old(cc).functions,
            cc.resolutions == old(cc).resolutions,
            cc.native_decls == old(cc).native_decls,
        decreases analysis.param_count - pi,
    {
        if local_index >= fs.locals.len() {
            return Err(JitError::MissingLocalType { addr: 0 });
        }
        let t = match &analysis.locals_types[local_index] {
            Some(t) => t.duplicate(),
            None => {
                return Err(JitError::MissingLocalType { addr: 0 });
            },
        };
        fs.locals[local_index] = Some((pi + 1) as ValueId);
        let wide = match &t {
            FieldType::BaseType(BaseType::Double) => true,
            FieldType::BaseType(BaseType::Long) => true,
            _ => false,
        };
        if wide {
            local_index = local_index + 2;
        } else {
            local_index = local_index + 1;
        }
        pi = pi + 1;
    }
    // Emission, mirroring the bytecode order.
    let nc = method.code.len();
    let mut terminated = true;
    let mut qi: usize = 0;
    while qi < nc
        invariant
            qi <= nc,
            nc == method.code@.len(),
            cc.wf(),
            fs.wf(),
            fs.blocks@.len() == nl,
            nl == analysis.labels@.len(),
            cc.functions == old(cc).functions,
            cc.resolutions == old(cc).resolutions,
            cc.native_decls == old(cc).native_decls,
        decreases nc - qi,
    {
        let addr = method.code[qi].0;
        match fs.find_block(addr) {
            Some(b) => {
                if !terminated {
                    // Fall-through edge into the next block.
                    let vals = match collect_edge_values(&fs, &analysis.locals_types, b, addr) {
                        Ok(v) => v,
                        Err(e) => return Err(e),
                    };
                    let from = fs.blocks[fs.cur].addr;
                    fs.add_edges(b, from, &vals);
                    fs.set_term(Terminator::Br { target: addr });
                }
                match switch_to_block(&mut fs, &analysis.locals_types, b, addr) {
                    Ok(()) => {},
                    Err(e) => return Err(e),
                }
                terminated = false;
            },
            None => {},
        }
        if addr == 0 && tracing {
            match emit_tracing_before(cc, &mut fs, fidx, analysis) {
                Ok(()) => {},
                Err(e) => return Err(e),
            }
        }
        let skip = vec_contains_usize(&analysis.ignored, addr);
        if !skip {
            let term = match lower_instruction(
                cc,
                &mut fs,
                fidx,
                cls,
                class_name,
                analysis,
                addr,
                &method.code[qi].1,
                tracing,
                has_return,
            ) {
                Ok(t) => t,
                Err(e) => return Err(e),
            };
            terminated = term;
        } else {
            terminated = false;
        }
        qi = qi + 1;
    }
    Ok(IrFunction {
        symbol: analysis.symbol.clone(),
        is_static: analysis.is_static,
        param_tys,
        ret_ty,
        blocks: fs.blocks,
        next_value: fs.next,
    })
}

/// Compiles every method of a parsed class and returns its compiled-class
/// record: the class name and super class, the static fields, and one
/// static-method entry (with no native pointer) per emitted static method.
pub fn compile_class(cc: &mut CodegenContext, cls: &ClassModel, tracing: bool) -> (r: Result<
    CompiledClass,
    JitError,
>)
    requires
        old(cc).wf(),
    ensures
        final(cc).wf(),
        final(cc).resolutions == old(cc).resolutions,
        final(cc).native_decls == old(cc).native_decls,
        r matches Ok(c) ==> final(cc).functions@.len()
            == old(cc).functions@.len() + cls.methods@.len(),
{
    let class_name = match pool_class_name(cls, cls.this_class) {
        Ok(n) => n,
        Err(e) => return Err(e),
    };
    let super_name = match pool_class_name(cls, cls.super_class) {
        Ok(n) => n,
        Err(e) => return Err(e),
    };
    let mut out = CompiledClass::new(class_name.as_str(), Some(super_name));
    // Static fields, in declaration order; linking sorts them.
    let nf = cls.fields.len();
    let mut fi: usize = 0;
    while fi < nf
        invariant
            fi <= nf,
            nf == cls.fields@.len(),
            cc.wf(),
            cc.functions == old(cc).functions,
            cc.resolutions == old(cc).resolutions,
            cc.native_decls == old(cc).native_decls,
            class_name@ == out.class_name@,
        decreases nf - fi,
    {
        if cls.fields[fi].access_flags & ACC_STATIC != 0 {
            let fname = match pool_utf8(cls, cls.fields[fi].name_index) {
                Ok(n) => n,
                Err(e) => return Err(e),
            };
            out.static_fields.push(fname);
        }
        fi = fi + 1;
    }
    let nm = cls.methods.len();
    let mut mi: usize = 0;
    while mi < nm
        invariant
            mi <= nm,
            nm == cls.methods@.len(),
            cc.wf(),
            cc.functions@.len() == old(cc).functions@.len() + mi,
            cc.resolutions == old(cc).resolutions,
            cc.native_decls == old(cc).native_decls,
            class_name@ == out.class_name@,
        decreases nm - mi,
    {
        let analysis = match analyze_method(cls, class_name.as_str(), &cls.methods[mi]) {
            Ok(a) => a,
            Err(e) => return Err(e),
        };
        let fidx = cc.functions.len();
        let func = match compile_method(
            cc,
            fidx,
            cls,
            class_name.as_str(),
            &cls.methods[mi],
            &analysis,
            tracing,
        ) {
            Ok(f) => f,
            Err(e) => return Err(e),
        };
        cc.functions.push(func);
        if analysis.is_static {
            out.static_methods.push(StaticMethodInfo { symbol: analysis.symbol, ptr: None });
        }
        mi = mi + 1;
    }
    Ok(out)
}

} // verus!
