//! The library's own model of a parsed class file: the constant pool, the
//! field and method tables and the decoded bytecode, all as plain values.
//! The class-file parser collaborator delivers values of these types.

use vstd::prelude::*;

verus! {

/// One constant-pool entry.  Indexes follow the JVM convention and are
/// 1-based.  Floating-point constants are carried as their raw IEEE bits.
#[derive(Debug)]
pub enum ConstEntry {
    Utf8(String),
    Integer(i32),
    Float(u32),
    Long(i64),
    Double(u64),
    ClassRef { name_index: u16 },
    StringRef { string_index: u16 },
    FieldRef { class_index: u16, name_and_type_index: u16 },
    MethodRef { class_index: u16, name_and_type_index: u16 },
    NameAndType { name_index: u16, descriptor_index: u16 },
    Unsupported,
}

/// The bytecode instructions the compiler supports, plus a marker for
/// everything else (whose name the parser collaborator carries through for
/// diagnostics).
#[derive(Debug)]
pub enum Instruction {
    Aaload,
    Aload0,
    Aload1,
    Aload2,
    Aload3,
    Arraylength,
    Astore0,
    Astore1,
    Astore2,
    Astore3,
    Baload,
    Bastore,
    Bipush(i8),
    Caload,
    Castore,
    Daload,
    Dastore,
    Dadd,
    Dsub,
    Dmul,
    Ddiv,
    Dcmpl,
    Dcmpg,
    Dconst0,
    Dconst1,
    Dload(u8),
    Dload0,
    Dload1,
    Dload2,
    Dload3,
    Dstore(u8),
    Dstore0,
    Dstore1,
    Dstore2,
    Dstore3,
    Faload,
    Fastore,
    Fadd,
    Fsub,
    Fmul,
    Fdiv,
    Fcmpl,
    Fcmpg,
    Fconst0,
    Fconst1,
    Fconst2,
    Fload(u8),
    Fload0,
    Fload1,
    Fload2,
    Fload3,
    Fstore(u8),
    Fstore0,
    Fstore1,
    Fstore2,
    Fstore3,
    Getstatic(u16),
    Putstatic(u16),
    Goto(i16),
    I2b,
    I2c,
    I2s,
    Iaload,
    Iastore,
    Iadd,
    Isub,
    Imul,
    Idiv,
    Iconstm1,
    Iconst0,
    Iconst1,
    Iconst2,
    Iconst3,
    Iconst4,
    Iconst5,
    IfIcmpeq(i16),
    IfIcmpne(i16),
    IfIcmplt(i16),
    IfIcmpge(i16),
    IfIcmpgt(i16),
    IfIcmple(i16),
    Ifeq(i16),
    Ifne(i16),
    Ifgt(i16),
    Ifge(i16),
    Ifle(i16),
    Iinc { index: u8, value: i8 },
    Iload(u8),
    Iload0,
    Iload1,
    Iload2,
    Iload3,
    Invokespecial(u16),
    Invokestatic(u16),
    Invokevirtual(u16),
    Ireturn,
    Istore(u8),
    Istore0,
    Istore1,
    Istore2,
    Istore3,
    Laload,
    Lastore,
    Ladd,
    Lsub,
    Lmul,
    Ldiv,
    Lcmp,
    Lconst0,
    Lconst1,
    Ldc(u8),
    Ldc2W(u16),
    Lload(u8),
    Lload0,
    Lload1,
    Lload2,
    Lload3,
    Lstore(u8),
    Lstore0,
    Lstore1,
    Lstore2,
    Lstore3,
    Newarray(u8),
    Areturn,
    Return,
    Saload,
    Sastore,
    Sipush(i16),
    Unsupported(String),
}

/// The static-member access flag, shared by fields and methods.
pub const ACC_STATIC: u16 = 0x0008;

#[derive(Debug)]
pub struct FieldModel {
    pub access_flags: u16,
    pub name_index: u16,
}

/// One method: its access flags, its name and descriptor (as constant-pool
/// indexes), and its decoded code attribute.
#[derive(Debug)]
pub struct MethodModel {
    pub access_flags: u16,
    pub name_index: u16,
    pub descriptor_index: u16,
    pub max_locals: u16,
    pub code: Vec<(usize, Instruction)>,
}

#[derive(Debug)]
pub struct ClassModel {
    pub const_pool: Vec<ConstEntry>,
    pub this_class: u16,
    pub super_class: u16,
    pub fields: Vec<FieldModel>,
    pub methods: Vec<MethodModel>,
}

} // verus!
