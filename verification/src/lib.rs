//! Core of a just-in-time compiler for Java class files.
//!
//! The library takes parsed class files (delivered by a parser collaborator as
//! plain data), type-checks each method's bytecode by abstract interpretation,
//! lowers it to a typed SSA intermediate representation with placeholders for
//! the symbolic constants that only linking can supply (class identifiers,
//! static-field offsets, v-table slots), and finally links all classes:
//! assigning class identifiers, laying out static fields, building v-tables
//! and resolving every placeholder.  A backend collaborator consumes the
//! emitted representation.

pub mod codegen;
pub mod semantics;
pub mod stdlib;

pub mod compiled_class;
pub mod classfile;
pub mod interp;
pub mod ir;
pub mod isolate;
pub mod tracing;

pub use crate::codegen::CodeGen;
pub use crate::compiled_class::{CompiledClass, NativeHook, StaticMethodInfo, VirtualMethodInfo};
pub use crate::isolate::Isolate;

use vstd::prelude::*;

verus! {

/// The standard-output sink injected into an isolate.  Users of the library
/// may implement it; `VecOutputStream` is the in-memory implementation.
pub trait Stdout {
    /// How many bytes the sink has taken so far (its observable history).
    spec fn taken(&self) -> Seq<u8>;

    /// Writes `b[off..off + len]` to the sink.
    fn write(&mut self, b: &[u8], off: i32, len: i32)
        requires
            0 <= off,
            0 <= len,
            off + len <= b@.len(),
        ensures
            final(self).taken() == old(self).taken() + b@.subrange(off as int, off as int + len as int),
    ;

    /// The bytes accumulated so far, for sinks that keep them.
    fn buffer(&self) -> &Vec<u8>;
}

/// A standard-output sink that stores everything written to it.
pub struct VecOutputStream {
    pub buf: Vec<u8>,
}

impl VecOutputStream {
    pub fn new() -> (r: Self)
        ensures
            r.buf@ == Seq::<u8>::empty(),
    {
        Self { buf: Vec::new() }
    }
}

impl Stdout for VecOutputStream {
    open spec fn taken(&self) -> Seq<u8> {
        self.buf@
    }

    fn write(&mut self, b: &[u8], off: i32, len: i32) {
        let total = b.len();
        let mut i: usize = off as usize;
        let end: usize = (off as usize) + (len as usize);
        while i < end
            invariant
                0 <= off,
                off <= i <= end,
                end == off + len,
                end <= b@.len(),
                self.buf@ == old(self).buf@ + b@.subrange(off as int, i as int),
            decreases end - i,
        {
            self.buf.push(b[i]);
            proof {
                assert(b@.subrange(off as int, i as int + 1)
                    =~= b@.subrange(off as int, i as int).push(b@[i as int]));
            }
            i = i + 1;
        }
        proof {
            assert(b@.subrange(off as int, end as int) =~= b@.subrange(off as int, i as int));
        }
    }

    fn buffer(&self) -> &Vec<u8> {
        &self.buf
    }
}

/// How an isolate's standard output is chosen.
pub enum StdoutOption {
    VecOutputStream,
    HostStdout,
}

} // verus!
