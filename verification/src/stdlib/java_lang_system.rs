//! `java/lang/System`: one static field `out`, filled by the class
//! initializer with a freshly allocated `java/io/PrintStream`.

use vstd::prelude::*;
use vstd::string::*;
use crate::codegen::cid_lookup;
use crate::compiled_class::{CompiledClass, NativeHook};
use crate::isolate::{InitAction, Isolate};

verus! {

pub fn new_compiled_class() -> (r: CompiledClass)
    ensures
        r.class_name@ == "java/lang/System"@,
        r.super_class is None,
        r.static_fields@.len() == 1,
        r.static_fields@[0]@ == "out"@,
        r.static_methods@.len() == 0,
        r.virtual_methods@.len() == 0,
        r.clinit == Some(NativeHook::SystemClinit),
        r.instance_size == 0,
{
    let mut c = CompiledClass::new("java/lang/System", None);
    c.static_fields.push("out".to_owned());
    c.clinit = Some(NativeHook::SystemClinit);
    c
}

/// The class initializer: allocates a `java/io/PrintStream` wired to the
/// isolate's standard output and stores it into the static field `out`.
pub fn clinit(isolate: &mut Isolate)
    requires
        cid_lookup(old(isolate).class_ids@, "java/lang/System"@) is Some,
        cid_lookup(old(isolate).class_ids@, "java/io/PrintStream"@) is Some,
        (cid_lookup(old(isolate).class_ids@, "java/lang/System"@)->Some_0 as int)
            < old(isolate).class_objects@.len(),
        (cid_lookup(old(isolate).class_ids@, "java/io/PrintStream"@)->Some_0 as int)
            < old(isolate).class_objects@.len(),
        old(isolate).class_objects@[
            cid_lookup(old(isolate).class_ids@, "java/lang/System"@)->Some_0 as int
        ].static_fields@.len() >= 1,
        old(isolate).heap@.len() < 0xffff_ffff_ffff_0000u64,
    ensures
        final(isolate).heap@.len() == old(isolate).heap@.len() + 1,
        // the fresh print stream is an instance of the print-stream class
        (final(isolate).heap@.last() matches crate::isolate::HeapValue::Instance { class }
            && class == old(isolate).class_objects@[
                cid_lookup(old(isolate).class_ids@, "java/io/PrintStream"@)->Some_0 as int
            ].vtable),
        // its handle is stored into the static field `out` (slot zero)
        ({
            let sys = cid_lookup(old(isolate).class_ids@, "java/lang/System"@)->Some_0 as int;
            &&& final(isolate).class_objects@.len() == old(isolate).class_objects@.len()
            &&& final(isolate).class_objects@[sys].static_fields@
                == old(isolate).class_objects@[sys].static_fields@.update(
                    0,
                    old(isolate).heap@.len() as u64,
                )
            &&& forall|k: int| 0 <= k < old(isolate).class_objects@.len() && k != sys
                ==> final(isolate).class_objects@[k] == old(isolate).class_objects@[k]
        }),
        final(isolate).out == old(isolate).out,
        final(isolate).tracer == old(isolate).tracer,
        final(isolate).class_ids == old(isolate).class_ids,
{
    let self_class_id = isolate.class_id("java/lang/System");
    let print_stream_class_id = isolate.class_id("java/io/PrintStream");
    let _ = isolate.get_class_object(self_class_id, false);
    let obj = isolate.new_instance(print_stream_class_id);
    let slot = &mut isolate.class_objects[self_class_id as usize];
    slot.set_object(0, obj);
}

/// The isolate's standard output viewed as a `java/io` output stream.
pub struct IsolateStdoutAsJavaIoOutStream;

impl crate::stdlib::java_io::OutputStream for IsolateStdoutAsJavaIoOutStream {
    fn write(&mut self, isolate: &mut Isolate, b: &[u8], off: i32, len: i32) {
        if 0 <= off && 0 <= len {
            let offu = off as usize;
            let lenu = len as usize;
            if offu <= b.len() && lenu <= b.len() - offu {
                let out = isolate.stdout();
                crate::Stdout::write(out, b, off, len);
            }
        }
    }
}

} // verus!
