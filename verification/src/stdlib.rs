//! The bootstrapped standard library: each built-in class is an externally
//! supplied compiled-class record whose methods carry native hooks, which
//! the host maps to real function addresses.

pub mod array;
pub mod java_io;
pub mod java_lang_boolean;
pub mod java_lang_char;
pub mod java_lang_number;
pub mod java_lang_object;
pub mod java_lang_string;
pub mod java_lang_system;

use vstd::prelude::*;
use crate::codegen::CodeGen;

verus! {

/// Adds every built-in class record.
pub fn add_stdlib(cc: &mut CodeGen)
    requires
        old(cc).cc.wf(),
    ensures
        final(cc).cc.wf(),
        final(cc).class_ids == old(cc).class_ids,
        final(cc).main_class_symbol == old(cc).main_class_symbol,
        final(cc).tracing_enabled == old(cc).tracing_enabled,
        final(cc).classes@.len() == old(cc).classes@.len() + 21,
{
    cc.add_class(java_lang_object::new_compiled_class());
    cc.add_class(java_lang_string::new_compiled_class());
    cc.add_class(java_lang_system::new_compiled_class());
    cc.add_class(java_lang_boolean::new_compiled_class());
    cc.add_class(java_lang_char::new_compiled_class());
    cc.add_class(java_lang_number::new_compiled_class_java_lang_byte());
    cc.add_class(java_lang_number::new_compiled_class_java_lang_short());
    cc.add_class(java_lang_number::new_compiled_class_java_lang_integer());
    cc.add_class(java_lang_number::new_compiled_class_java_lang_long());
    cc.add_class(java_lang_number::new_compiled_class_java_lang_float());
    cc.add_class(java_lang_number::new_compiled_class_java_lang_double());
    cc.add_class(java_io::new_compiled_class_java_io_print_stream());
    let mut arrays = array::new_compiled_classes();
    let n = arrays.len();
    proof {
        assert(n == 9);
    }
    let mut i: usize = 0;
    while i < n
        invariant
            i <= n,
            n == 9,
            arrays@.len() + i == 9,
            cc.cc.wf(),
            cc.class_ids == old(cc).class_ids,
            cc.main_class_symbol == old(cc).main_class_symbol,
            cc.tracing_enabled == old(cc).tracing_enabled,
            cc.classes@.len() == old(cc).classes@.len() + 12 + i,
        decreases n - i,
    {
        let c = arrays.remove(0);
        cc.add_class(c);
        i = i + 1;
    }
}

} // verus!
