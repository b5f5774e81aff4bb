//! `java/lang/String`: an immutable character string whose `toString` is
//! itself.

use vstd::prelude::*;
use vstd::string::*;
use crate::compiled_class::{CompiledClass, NativeHook, VirtualMethodInfo};
use crate::stdlib::java_lang_object::to_string_symbol;

verus! {

pub fn new_compiled_class() -> (r: CompiledClass)
    ensures
        r.class_name@ == "java/lang/String"@,
        r.super_class is None,
        r.static_fields@.len() == 0,
        r.static_methods@.len() == 0,
        r.clinit is None,
        r.instance_size == 24,
        r.virtual_methods@.len() == 1,
        r.virtual_methods@[0].symbol@
            == "java/lang/Object.toString:()Ljava/lang/String;@java/lang/String"@,
        (r.virtual_methods@[0].overrides matches Some(ov)
            && ov@ == "java/lang/Object.toString:()Ljava/lang/String;"@),
        r.virtual_methods@[0].ptr == Some(NativeHook::StringToString),
{
    let mut c = CompiledClass::new("java/lang/String", None);
    c.virtual_methods.push(VirtualMethodInfo {
        symbol: "java/lang/Object.toString:()Ljava/lang/String;@java/lang/String".to_owned(),
        ptr: Some(NativeHook::StringToString),
        overrides: Some(to_string_symbol()),
    });
    c.instance_size = 24;
    c
}

/// The in-memory Java string: a v-table header and the character data.
pub struct JavaLangString {
    pub value: String,
}

impl JavaLangString {
    pub fn init(s: &String) -> (r: JavaLangString)
        ensures
            r.value@ == s@,
    {
        JavaLangString { value: s.clone() }
    }

    pub fn as_str(&self) -> (r: &str)
        ensures
            r@ == self.value@,
    {
        self.value.as_str()
    }

    pub fn len(&self) -> (r: usize)
        ensures
            r == self.value@.len(),
    {
        self.value.as_str().unicode_len()
    }

    /// `toString` of a string is the string itself.
    pub fn java_lang_object_to_string(&self) -> (r: String)
        ensures
            r@ == self.value@,
    {
        self.value.clone()
    }
}

} // verus!
