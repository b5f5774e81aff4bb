//! `java/lang/Char`: the boxed character wrapper.  The value is carried as
//! its code point.

use vstd::prelude::*;
use vstd::string::*;
use crate::compiled_class::{BoxKind, CompiledClass, NativeHook, StaticMethodInfo, VirtualMethodInfo};
use crate::stdlib::java_lang_object::to_string_symbol;

verus! {

pub fn new_compiled_class() -> (r: CompiledClass)
    ensures
        r.class_name@ == "java/lang/Char"@,
        r.virtual_methods@.len() == 1,
        r.static_methods@.len() == 1,
        r.static_methods@[0].symbol@ == "java/lang/Char.init:(C)V"@,
{
    let mut c = CompiledClass::new("java/lang/Char", None);
    c.virtual_methods.push(VirtualMethodInfo {
        symbol: "java/lang/Object.toString:()Ljava/lang/String;@java/lang/Char".to_owned(),
        ptr: Some(NativeHook::BoxToString(BoxKind::Char)),
        overrides: Some(to_string_symbol()),
    });
    c.static_methods.push(StaticMethodInfo {
        symbol: "java/lang/Char.init:(C)V".to_owned(),
        ptr: Some(NativeHook::BoxInit(BoxKind::Char)),
    });
    c.instance_size = 16;
    c
}

pub struct JavaLangChar {
    pub value: u32,
}

impl JavaLangChar {
    pub fn init(v: u32) -> (r: JavaLangChar)
        ensures
            r.value == v,
    {
        JavaLangChar { value: v }
    }
}

} // verus!
