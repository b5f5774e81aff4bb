//! The primitive and reference array classes: each overrides `toString`,
//! which lets the tracer render arrays uniformly through slot zero.  All
//! element kinds use eight-byte slots.

use vstd::prelude::*;
use vstd::string::*;
use crate::compiled_class::{ArrayKind, CompiledClass, NativeHook, VirtualMethodInfo};
use crate::stdlib::java_lang_object::to_string_symbol;

verus! {

fn new_array_class(name: &str, override_symbol: &str, kind: ArrayKind) -> (r: CompiledClass)
    ensures
        r.class_name@ == name@,
        r.super_class is None,
        r.static_fields@.len() == 0,
        r.static_methods@.len() == 0,
        r.clinit is None,
        r.virtual_methods@.len() == 1,
        r.virtual_methods@[0].symbol@ == override_symbol@,
        r.virtual_methods@[0].ptr == Some(NativeHook::ArrayToString(kind)),
        (r.virtual_methods@[0].overrides matches Some(ov)
            && ov@ == "java/lang/Object.toString:()Ljava/lang/String;"@),
        r.instance_size == 24,
{
    let mut c = CompiledClass::new(name, None);
    c.virtual_methods.push(VirtualMethodInfo {
        symbol: override_symbol.to_owned(),
        ptr: Some(NativeHook::ArrayToString(kind)),
        overrides: Some(to_string_symbol()),
    });
    c.instance_size = 24;
    c
}

/// Which element kind each of the nine array classes carries, in order.
pub open spec fn array_class_kind(i: int) -> ArrayKind {
    if i == 0 {
        ArrayKind::Ref
    } else if i == 1 {
        ArrayKind::Boolean
    } else if i == 2 {
        ArrayKind::Byte
    } else if i == 3 {
        ArrayKind::Char
    } else if i == 4 {
        ArrayKind::Short
    } else if i == 5 {
        ArrayKind::Int
    } else if i == 6 {
        ArrayKind::Long
    } else if i == 7 {
        ArrayKind::Float
    } else {
        ArrayKind::Double
    }
}

/// The nine array classes, one per element kind: each overrides `toString`
/// with its kind's renderer, owns no fields or statics, and has the
/// three-word array header as its instance size.
pub fn new_compiled_classes() -> (r: Vec<CompiledClass>)
    ensures
        r@.len() == 9,
        r@[0].class_name@ == "Array"@,
        r@[1].class_name@ == "ArrayBoolean"@,
        r@[2].class_name@ == "ArrayByte"@,
        r@[3].class_name@ == "ArrayChar"@,
        r@[4].class_name@ == "ArrayShort"@,
        r@[5].class_name@ == "ArrayInt"@,
        r@[6].class_name@ == "ArrayLong"@,
        r@[7].class_name@ == "ArrayFloat"@,
        r@[8].class_name@ == "ArrayDouble"@,
        forall|i: int| 0 <= i < 9 ==> {
            let c = #[trigger] r@[i];
            &&& c.super_class is None
            &&& c.static_fields@.len() == 0
            &&& c.static_methods@.len() == 0
            &&& c.clinit is None
            &&& c.instance_size == 24
            &&& c.virtual_methods@.len() == 1
            &&& c.virtual_methods@[0].ptr == Some(NativeHook::ArrayToString(array_class_kind(i)))
            &&& (c.virtual_methods@[0].overrides matches Some(ov)
                && ov@ == "java/lang/Object.toString:()Ljava/lang/String;"@)
        },
{
    let mut ret: Vec<CompiledClass> = Vec::new();
    ret.push(new_array_class(
        "Array",
        "java/lang/Object.toString:()Ljava/lang/String;@Array",
        ArrayKind::Ref,
    ));
    ret.push(new_array_class(
        "ArrayBoolean",
        "java/lang/Object.toString:()Ljava/lang/String;@ArrayBoolean",
        ArrayKind::Boolean,
    ));
    ret.push(new_array_class(
        "ArrayByte",
        "java/lang/Object.toString:()Ljava/lang/String;@ArrayByte",
        ArrayKind::Byte,
    ));
    ret.push(new_array_class(
        "ArrayChar",
        "java/lang/Object.toString:()Ljava/lang/String;@ArrayChar",
        ArrayKind::Char,
    ));
    ret.push(new_array_class(
        "ArrayShort",
        "java/lang/Object.toString:()Ljava/lang/String;@ArrayShort",
        ArrayKind::Short,
    ));
    ret.push(new_array_class(
        "ArrayInt",
        "java/lang/Object.toString:()Ljava/lang/String;@ArrayInt",
        ArrayKind::Int,
    ));
    ret.push(new_array_class(
        "ArrayLong",
        "java/lang/Object.toString:()Ljava/lang/String;@ArrayLong",
        ArrayKind::Long,
    ));
    ret.push(new_array_class(
        "ArrayFloat",
        "java/lang/Object.toString:()Ljava/lang/String;@ArrayFloat",
        ArrayKind::Float,
    ));
    ret.push(new_array_class(
        "ArrayDouble",
        "java/lang/Object.toString:()Ljava/lang/String;@ArrayDouble",
        ArrayKind::Double,
    ));
    ret
}

/// A Java array: a v-table header and `length` eight-byte slots.
pub struct JavaArrayT {
    pub data: Vec<u64>,
}

impl JavaArrayT {
    /// A zero-filled array of the given length.
    pub fn init(length: usize, default: u64) -> (r: JavaArrayT)
        ensures
            r.data@.len() == length,
            forall|k: int| 0 <= k < length ==> r.data@[k] == default,
    {
        let mut data: Vec<u64> = Vec::new();
        let mut i: usize = 0;
        while i < length
            invariant
                i <= length,
                data@.len() == i,
                forall|k: int| 0 <= k < i ==> data@[k] == default,
            decreases length - i,
        {
            data.push(default);
            i = i + 1;
        }
        JavaArrayT { data }
    }

    pub fn get(&self, index: usize) -> (r: u64)
        requires
            index < self.data@.len(),
        ensures
            r == self.data@[index as int],
    {
        self.data[index]
    }

    pub fn set(&mut self, index: usize, value: u64)
        requires
            index < old(self).data@.len(),
        ensures
            final(self).data@ == old(self).data@.update(index as int, value),
    {
        self.data[index] = value;
    }
}

} // verus!
