//! `java/lang/Object`: the root class.  It declares `toString` first, which
//! pins `toString` to v-table slot zero for every class.

use vstd::prelude::*;
use vstd::string::*;
use crate::compiled_class::{CompiledClass, NativeHook, VirtualMethodInfo};

verus! {

/// The declaring symbol of `toString`, slot zero of every v-table.
pub fn to_string_symbol() -> (r: String)
    ensures
        r@ == "java/lang/Object.toString:()Ljava/lang/String;"@,
{
    "java/lang/Object.toString:()Ljava/lang/String;".to_owned()
}

/// The root class record: `toString` is its first (and only) virtual
/// method, declared rather than overriding.
pub fn new_compiled_class() -> (r: CompiledClass)
    ensures
        r.class_name@ == "java/lang/Object"@,
        r.super_class is None,
        r.virtual_methods@.len() == 1,
        r.virtual_methods@[0].symbol@ == "java/lang/Object.toString:()Ljava/lang/String;"@,
        r.virtual_methods@[0].overrides is None,
        r.virtual_methods@[0].ptr == Some(NativeHook::ObjectToString),
        r.static_methods@.len() == 0,
        r.clinit is None,
        r.instance_size == 0,
{
    let mut c = CompiledClass::new("java/lang/Object", None);
    c.virtual_methods.push(VirtualMethodInfo {
        symbol: to_string_symbol(),
        ptr: Some(NativeHook::ObjectToString),
        overrides: None,
    });
    c
}

/// The no-op destructor installed for objects that own nothing.
pub fn java_object_destructor_dummy(_obj: crate::isolate::ObjectRef) {
}

} // verus!
