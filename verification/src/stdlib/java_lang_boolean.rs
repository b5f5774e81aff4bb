//! `java/lang/Boolean`: the boxed boolean wrapper.

use vstd::prelude::*;
use vstd::string::*;
use crate::compiled_class::{BoxKind, CompiledClass, NativeHook, StaticMethodInfo, VirtualMethodInfo};
use crate::stdlib::java_lang_object::to_string_symbol;

verus! {

pub fn new_compiled_class() -> (r: CompiledClass)
    ensures
        r.class_name@ == "java/lang/Boolean"@,
        r.virtual_methods@.len() == 1,
        r.static_methods@.len() == 1,
        r.static_methods@[0].symbol@ == "java/lang/Boolean.init:(Z)V"@,
{
    let mut c = CompiledClass::new("java/lang/Boolean", None);
    c.virtual_methods.push(VirtualMethodInfo {
        symbol: "java/lang/Object.toString:()Ljava/lang/String;@java/lang/Boolean".to_owned(),
        ptr: Some(NativeHook::BoxToString(BoxKind::Boolean)),
        overrides: Some(to_string_symbol()),
    });
    c.static_methods.push(StaticMethodInfo {
        symbol: "java/lang/Boolean.init:(Z)V".to_owned(),
        ptr: Some(NativeHook::BoxInit(BoxKind::Boolean)),
    });
    c.instance_size = 16;
    c
}

pub struct JavaLangBoolean {
    pub value: bool,
}

impl JavaLangBoolean {
    pub fn init(v: u32) -> (r: JavaLangBoolean)
        ensures
            r.value == (v == 1),
    {
        JavaLangBoolean { value: v == 1 }
    }

    pub fn java_lang_object_to_string(&self) -> (r: String)
        ensures
            self.value ==> r@ == "true"@,
            !self.value ==> r@ == "false"@,
    {
        if self.value {
            "true".to_owned()
        } else {
            "false".to_owned()
        }
    }
}

} // verus!
