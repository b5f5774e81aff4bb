//! `java/io/PrintStream`: the `println` built-ins.  Each writes the textual
//! rendering of its argument followed by a newline through the isolate's
//! standard-output sink.

use vstd::prelude::*;
use vstd::string::*;
use crate::compiled_class::{CompiledClass, NativeHook, VirtualMethodInfo};
use crate::isolate::Isolate;
use crate::stdlib::java_lang_number::{i64_to_string, spec_int_string};

verus! {

pub fn new_compiled_class_java_io_print_stream() -> (r: CompiledClass)
    ensures
        r.class_name@ == "java/io/PrintStream"@,
        r.super_class is None,
        r.static_fields@.len() == 0,
        r.static_methods@.len() == 0,
        r.clinit is None,
        r.instance_size == 16,
        r.virtual_methods@.len() == 9,
        forall|i: int| 0 <= i < 9 ==> (#[trigger] r.virtual_methods@[i]).overrides is None,
        r.virtual_methods@[0].symbol@ == "java/io/PrintStream.println:(Ljava/lang/String;)V"@,
        r.virtual_methods@[0].ptr == Some(NativeHook::PrintlnString),
        r.virtual_methods@[1].symbol@ == "java/io/PrintStream.println:(B)V"@,
        r.virtual_methods@[1].ptr == Some(NativeHook::PrintlnByte),
        r.virtual_methods@[2].symbol@ == "java/io/PrintStream.println:(C)V"@,
        r.virtual_methods@[2].ptr == Some(NativeHook::PrintlnChar),
        r.virtual_methods@[3].symbol@ == "java/io/PrintStream.println:(S)V"@,
        r.virtual_methods@[3].ptr == Some(NativeHook::PrintlnShort),
        r.virtual_methods@[4].symbol@ == "java/io/PrintStream.println:(D)V"@,
        r.virtual_methods@[4].ptr == Some(NativeHook::PrintlnDouble),
        r.virtual_methods@[5].symbol@ == "java/io/PrintStream.println:(F)V"@,
        r.virtual_methods@[5].ptr == Some(NativeHook::PrintlnFloat),
        r.virtual_methods@[6].symbol@ == "java/io/PrintStream.println:(I)V"@,
        r.virtual_methods@[6].ptr == Some(NativeHook::PrintlnInt),
        r.virtual_methods@[7].symbol@ == "java/io/PrintStream.println:(J)V"@,
        r.virtual_methods@[7].ptr == Some(NativeHook::PrintlnLong),
        r.virtual_methods@[8].symbol@ == "java/io/PrintStream.println:(Z)V"@,
        r.virtual_methods@[8].ptr == Some(NativeHook::PrintlnBoolean),
{
    let mut c = CompiledClass::new("java/io/PrintStream", None);
    c.virtual_methods.push(VirtualMethodInfo {
        symbol: "java/io/PrintStream.println:(Ljava/lang/String;)V".to_owned(),
        ptr: Some(NativeHook::PrintlnString),
        overrides: None,
    });
    c.virtual_methods.push(VirtualMethodInfo {
        symbol: "java/io/PrintStream.println:(B)V".to_owned(),
        ptr: Some(NativeHook::PrintlnByte),
        overrides: None,
    });
    c.virtual_methods.push(VirtualMethodInfo {
        symbol: "java/io/PrintStream.println:(C)V".to_owned(),
        ptr: Some(NativeHook::PrintlnChar),
        overrides: None,
    });
    c.virtual_methods.push(VirtualMethodInfo {
        symbol: "java/io/PrintStream.println:(S)V".to_owned(),
        ptr: Some(NativeHook::PrintlnShort),
        overrides: None,
    });
    c.virtual_methods.push(VirtualMethodInfo {
        symbol: "java/io/PrintStream.println:(D)V".to_owned(),
        ptr: Some(NativeHook::PrintlnDouble),
        overrides: None,
    });
    c.virtual_methods.push(VirtualMethodInfo {
        symbol: "java/io/PrintStream.println:(F)V".to_owned(),
        ptr: Some(NativeHook::PrintlnFloat),
        overrides: None,
    });
    c.virtual_methods.push(VirtualMethodInfo {
        symbol: "java/io/PrintStream.println:(I)V".to_owned(),
        ptr: Some(NativeHook::PrintlnInt),
        overrides: None,
    });
    c.virtual_methods.push(VirtualMethodInfo {
        symbol: "java/io/PrintStream.println:(J)V".to_owned(),
        ptr: Some(NativeHook::PrintlnLong),
        overrides: None,
    });
    c.virtual_methods.push(VirtualMethodInfo {
        symbol: "java/io/PrintStream.println:(Z)V".to_owned(),
        ptr: Some(NativeHook::PrintlnBoolean),
        overrides: None,
    });
    c.instance_size = 16;
    c
}

/// The abstract output stream the print stream writes through; users of the
/// library may implement it.
pub trait OutputStream {
    fn write(&mut self, isolate: &mut Isolate, b: &[u8], off: i32, len: i32);
}

/// `java/io/PrintStream`.
pub struct PrintStream {
}

impl PrintStream {
    pub fn init_output_stream() -> (r: PrintStream)
    {
        PrintStream {  }
    }

    /// Writes `s` and a newline to the isolate's standard output.
    pub fn println_string(isolate: &mut Isolate, s: &String)
        ensures
            final(isolate).out.buf@ == old(isolate).out.buf@
                + vstd::utf8::encode_utf8(s@ + "\n"@),
            final(isolate).class_objects == old(isolate).class_objects,
            final(isolate).heap == old(isolate).heap,
            final(isolate).tracer == old(isolate).tracer,
            final(isolate).class_ids == old(isolate).class_ids,
    {
        let mut line = s.clone();
        line.append("\n");
        write_all(isolate, &line);
    }

    /// Writes the decimal rendering of `i` and a newline.
    pub fn println_int(isolate: &mut Isolate, i: i32)
        ensures
            final(isolate).out.buf@ == old(isolate).out.buf@
                + vstd::utf8::encode_utf8(spec_int_string(i as int) + "\n"@),
            final(isolate).class_objects == old(isolate).class_objects,
            final(isolate).heap == old(isolate).heap,
            final(isolate).tracer == old(isolate).tracer,
            final(isolate).class_ids == old(isolate).class_ids,
    {
        let mut line = i64_to_string(i as i64);
        line.append("\n");
        write_all(isolate, &line);
    }

    /// Writes the decimal rendering of `i` and a newline.
    pub fn println_long(isolate: &mut Isolate, i: i64)
        ensures
            final(isolate).out.buf@ == old(isolate).out.buf@
                + vstd::utf8::encode_utf8(spec_int_string(i as int) + "\n"@),
            final(isolate).class_objects == old(isolate).class_objects,
            final(isolate).heap == old(isolate).heap,
            final(isolate).tracer == old(isolate).tracer,
            final(isolate).class_ids == old(isolate).class_ids,
    {
        let mut line = i64_to_string(i);
        line.append("\n");
        write_all(isolate, &line);
    }

    /// Writes the decimal rendering of the short and a newline.
    pub fn println_short(isolate: &mut Isolate, i: i16)
        ensures
            final(isolate).out.buf@ == old(isolate).out.buf@
                + vstd::utf8::encode_utf8(spec_int_string(i as int) + "\n"@),
            final(isolate).class_objects == old(isolate).class_objects,
            final(isolate).heap == old(isolate).heap,
            final(isolate).tracer == old(isolate).tracer,
            final(isolate).class_ids == old(isolate).class_ids,
    {
        let mut line = i64_to_string(i as i64);
        line.append("\n");
        write_all(isolate, &line);
    }

    /// Writes the decimal rendering of the byte and a newline.
    pub fn println_byte(isolate: &mut Isolate, i: u8)
        ensures
            final(isolate).out.buf@ == old(isolate).out.buf@
                + vstd::utf8::encode_utf8(spec_int_string(i as int) + "\n"@),
            final(isolate).class_objects == old(isolate).class_objects,
            final(isolate).heap == old(isolate).heap,
            final(isolate).tracer == old(isolate).tracer,
            final(isolate).class_ids == old(isolate).class_ids,
    {
        let mut line = i64_to_string(i as i64);
        line.append("\n");
        write_all(isolate, &line);
    }

    /// Writes the character with the given scalar value and a newline.  The
    /// character's UTF-8 bytes are computed here, against the encoding's
    /// definition.
    pub fn println_char(isolate: &mut Isolate, u: u32)
        requires
            vstd::utf8::is_scalar(u),
        ensures
            final(isolate).out.buf@ == old(isolate).out.buf@
                + vstd::utf8::encode_scalar(u) + vstd::utf8::encode_utf8("\n"@),
            final(isolate).class_objects == old(isolate).class_objects,
            final(isolate).heap == old(isolate).heap,
            final(isolate).tracer == old(isolate).tracer,
            final(isolate).class_ids == old(isolate).class_ids,
    {
        let mut bytes: Vec<u8> = Vec::new();
        if u <= 0x7F {
            proof {
                assert((u & 0x7F) < 256) by (bit_vector);
            }
            bytes.push((u & 0x7F) as u8);
            proof {
                assert(bytes@ =~= vstd::utf8::encode_scalar(u));
            }
        } else if u <= 0x7FF {
            proof {
                assert(((u >> 6) & 0x1F) < 256) by (bit_vector);
                assert((u & 0x3F) < 256) by (bit_vector);
            }
            bytes.push(0xC0u8 | ((u >> 6) & 0x1F) as u8);
            bytes.push(0x80u8 | (u & 0x3F) as u8);
            proof {
                assert(bytes@ =~= vstd::utf8::encode_scalar(u));
            }
        } else if u <= 0xFFFF {
            proof {
                assert(((u >> 12) & 0x0F) < 256) by (bit_vector);
                assert(((u >> 6) & 0x3F) < 256) by (bit_vector);
                assert((u & 0x3F) < 256) by (bit_vector);
            }
            bytes.push(0xE0u8 | ((u >> 12) & 0x0F) as u8);
            bytes.push(0x80u8 | ((u >> 6) & 0x3F) as u8);
            bytes.push(0x80u8 | (u & 0x3F) as u8);
            proof {
                assert(bytes@ =~= vstd::utf8::encode_scalar(u));
            }
        } else {
            proof {
                assert(((u >> 18) & 0x7) < 256) by (bit_vector);
                assert(((u >> 12) & 0x3F) < 256) by (bit_vector);
                assert(((u >> 6) & 0x3F) < 256) by (bit_vector);
                assert((u & 0x3F) < 256) by (bit_vector);
            }
            bytes.push(0xF0u8 | ((u >> 18) & 0x7) as u8);
            bytes.push(0x80u8 | ((u >> 12) & 0x3F) as u8);
            bytes.push(0x80u8 | ((u >> 6) & 0x3F) as u8);
            bytes.push(0x80u8 | (u & 0x3F) as u8);
            proof {
                assert(bytes@ =~= vstd::utf8::encode_scalar(u));
            }
        }
        bytes.push(0x0Au8);
        proof {
            reveal_strlit("\n");
            assert("\n"@ =~= seq!['\n']);
            assert(seq!['\n'].drop_first() =~= Seq::<char>::empty());
            assert(vstd::utf8::encode_utf8(Seq::<char>::empty()) =~= Seq::<u8>::empty());
            assert(('\n' as u32) == 10);
            assert((10u32 & 0x7F) == 10) by (bit_vector);
            assert(vstd::utf8::encode_scalar(10u32) =~= seq![0x0Au8]);
            assert(vstd::utf8::encode_utf8("\n"@)
                =~= vstd::utf8::encode_scalar(10u32) + Seq::<u8>::empty());
            assert(vstd::utf8::encode_utf8("\n"@) =~= seq![0x0Au8]);
            assert(bytes@ =~= vstd::utf8::encode_scalar(u) + vstd::utf8::encode_utf8("\n"@));
        }
        write_bytes(isolate, &bytes);
    }

    /// Writes `true` or `false` and a newline.
    pub fn println_boolean(isolate: &mut Isolate, i: u32)
        ensures
            final(isolate).out.buf@ == old(isolate).out.buf@
                + vstd::utf8::encode_utf8((if i == 1 { "true"@ } else { "false"@ }) + "\n"@),
            final(isolate).class_objects == old(isolate).class_objects,
            final(isolate).heap == old(isolate).heap,
            final(isolate).tracer == old(isolate).tracer,
            final(isolate).class_ids == old(isolate).class_ids,
    {
        let mut line = if i == 1 {
            "true".to_owned()
        } else {
            "false".to_owned()
        };
        line.append("\n");
        write_all(isolate, &line);
    }
}

/// Writes raw bytes to the isolate's standard output.
fn write_bytes(isolate: &mut Isolate, bytes: &Vec<u8>)
    ensures
        final(isolate).out.buf@ == old(isolate).out.buf@ + bytes@,
        final(isolate).class_objects == old(isolate).class_objects,
        final(isolate).heap == old(isolate).heap,
        final(isolate).tracer == old(isolate).tracer,
        final(isolate).class_ids == old(isolate).class_ids,
{
    let n = bytes.len();
    let mut i: usize = 0;
    proof {
        assert(bytes@.subrange(0, 0) =~= Seq::<u8>::empty());
        assert(isolate.out.buf@ + Seq::<u8>::empty() =~= isolate.out.buf@);
    }
    while i < n
        invariant
            i <= n,
            n == bytes@.len(),
            isolate.out.buf@ == old(isolate).out.buf@ + bytes@.subrange(0, i as int),
            isolate.class_objects == old(isolate).class_objects,
            isolate.heap == old(isolate).heap,
            isolate.tracer == old(isolate).tracer,
            isolate.class_ids == old(isolate).class_ids,
        decreases n - i,
    {
        isolate.out.buf.push(bytes[i]);
        proof {
            assert(bytes@.subrange(0, i as int + 1)
                =~= bytes@.subrange(0, i as int).push(bytes@[i as int]));
            assert(isolate.out.buf@ =~= old(isolate).out.buf@ + bytes@.subrange(0, i as int + 1));
        }
        i = i + 1;
    }
    proof {
        assert(bytes@.subrange(0, n as int) =~= bytes@);
    }
}

/// Writes the UTF-8 bytes of `line` to the isolate's standard output.
fn write_all(isolate: &mut Isolate, line: &String)
    ensures
        final(isolate).out.buf@ == old(isolate).out.buf@ + vstd::utf8::encode_utf8(line@),
        final(isolate).class_objects == old(isolate).class_objects,
        final(isolate).heap == old(isolate).heap,
        final(isolate).tracer == old(isolate).tracer,
        final(isolate).class_ids == old(isolate).class_ids,
{
    let bytes = line.as_str().as_bytes();
    let n = bytes.len();
    let mut i: usize = 0;
    proof {
        assert(bytes@.subrange(0, 0) =~= Seq::<u8>::empty());
        assert(isolate.out.buf@ + Seq::<u8>::empty() =~= isolate.out.buf@);
    }
    while i < n
        invariant
            i <= n,
            n == bytes@.len(),
            bytes@ == vstd::utf8::encode_utf8(line@),
            isolate.out.buf@ == old(isolate).out.buf@ + bytes@.subrange(0, i as int),
            isolate.class_objects == old(isolate).class_objects,
            isolate.heap == old(isolate).heap,
            isolate.tracer == old(isolate).tracer,
            isolate.class_ids == old(isolate).class_ids,
        decreases n - i,
    {
        isolate.out.buf.push(bytes[i]);
        proof {
            assert(bytes@.subrange(0, i as int + 1)
                =~= bytes@.subrange(0, i as int).push(bytes@[i as int]));
            assert(isolate.out.buf@ =~= old(isolate).out.buf@ + bytes@.subrange(0, i as int + 1));
        }
        i = i + 1;
    }
    proof {
        assert(bytes@.subrange(0, n as int) =~= bytes@);
    }
}

} // verus!
