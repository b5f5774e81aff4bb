//! The uniform in-memory description of a class: its static fields, its
//! static and virtual methods, its instance size and its optional class
//! initializer.  Records are produced either by compiling a parsed class
//! file or by the built-in standard library.

use vstd::prelude::*;

verus! {

/// Which built-in native function a method record points at.  The host
/// environment maps each hook to the address of the real function when the
/// emitted program is installed.
#[derive(PartialEq, Eq, Structural, Clone, Copy, Debug)]
pub enum BoxKind {
    Byte,
    Char,
    Short,
    Int,
    Long,
    Float,
    Double,
    Boolean,
}

#[derive(PartialEq, Eq, Structural, Clone, Copy, Debug)]
pub enum ArrayKind {
    Ref,
    Boolean,
    Byte,
    Char,
    Short,
    Int,
    Long,
    Float,
    Double,
}

#[derive(PartialEq, Eq, Structural, Clone, Copy, Debug)]
pub enum NativeHook {
    ObjectToString,
    StringToString,
    ArrayToString(ArrayKind),
    BoxInit(BoxKind),
    BoxToString(BoxKind),
    PrintlnString,
    PrintlnByte,
    PrintlnChar,
    PrintlnShort,
    PrintlnInt,
    PrintlnLong,
    PrintlnFloat,
    PrintlnDouble,
    PrintlnBoolean,
    SystemClinit,
}

#[derive(Debug)]
pub struct VirtualMethodInfo {
    pub symbol: String,
    pub ptr: Option<NativeHook>,
    pub overrides: Option<String>,
}

#[derive(Debug)]
pub struct StaticMethodInfo {
    pub symbol: String,
    pub ptr: Option<NativeHook>,
}

#[derive(Debug)]
pub struct CompiledClass {
    pub class_name: String,
    pub static_fields: Vec<String>,
    pub static_methods: Vec<StaticMethodInfo>,
    pub virtual_methods: Vec<VirtualMethodInfo>,
    pub instance_size: u32,
    pub clinit: Option<NativeHook>,
    pub opaque: Vec<u8>,
    pub super_class: Option<String>,
}

impl CompiledClass {
    pub fn new(class_name: &str, super_class: Option<String>) -> (r: Self)
        ensures
            r.class_name@ == class_name@,
            r.static_fields@ == Seq::<String>::empty(),
            r.static_methods@ == Seq::<StaticMethodInfo>::empty(),
            r.virtual_methods@ == Seq::<VirtualMethodInfo>::empty(),
            r.instance_size == 0,
            r.clinit is None,
            r.opaque@ == Seq::<u8>::empty(),
            r.super_class == super_class,
    {
        Self {
            class_name: class_name.to_owned(),
            static_fields: Vec::new(),
            static_methods: Vec::new(),
            virtual_methods: Vec::new(),
            instance_size: 0,
            clinit: None,
            opaque: Vec::new(),
            super_class,
        }
    }

    /// Every static field takes one eight-byte slot.
    pub fn static_field_size(&self) -> (r: u32)
        requires
            self.static_fields@.len() * 8 <= u32::MAX,
        ensures
            r == self.static_fields@.len() * 8,
    {
        (self.static_fields.len() * 8) as u32
    }
}

} // verus!
