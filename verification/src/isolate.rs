//! The runtime isolate: the per-execution mutable state — the class-object
//! table, the allocation registry, the tracer and the standard-output sink.
//! The host environment drives the emitted program against this state; the
//! initialization barrier of `get_class_object` is a decision function here,
//! and the host invokes the returned initializer before marking the class
//! initialized (the flag is set only after the initializer returns).

use vstd::prelude::*;
use vstd::string::*;
use crate::codegen::{cid_lookup, ClassID, CodeGen};
use crate::compiled_class::NativeHook;
use crate::tracing::Tracer;
use crate::VecOutputStream;

verus! {

/// Output once written stays: the later buffer carries the earlier one as a
/// prefix.  Callers may add to standard output but never rewrites it.
pub open spec fn out_extends(pre: Seq<u8>, post: Seq<u8>) -> bool {
    pre.len() <= post.len() && post.subrange(0, pre.len() as int) == pre
}

pub broadcast proof fn lemma_out_extends_refl(a: Seq<u8>)
    ensures
        #[trigger] out_extends(a, a),
{
    assert(a.subrange(0, a.len() as int) =~= a);
}

pub broadcast proof fn lemma_out_extends_append(pre: Seq<u8>, tail: Seq<u8>)
    ensures
        #[trigger] out_extends(pre, pre + tail),
{
    assert((pre + tail).subrange(0, pre.len() as int) =~= pre);
}

pub broadcast proof fn lemma_out_extends_trans(a: Seq<u8>, b: Seq<u8>, c: Seq<u8>)
    requires
        #[trigger] out_extends(a, b),
        #[trigger] out_extends(b, c),
    ensures
        out_extends(a, c),
{
    assert forall|i: int| 0 <= i < a.len() implies c[i] == a[i] by {
        assert(b.subrange(0, a.len() as int)[i] == b[i]);
        assert(c.subrange(0, b.len() as int)[i] == c[i]);
    }
    assert(c.subrange(0, a.len() as int) =~= a);
}



/// A handle to a heap value the isolate owns.
pub type ObjectRef = u64;

/// One heap value: Java objects in this subset are strings, boxed
/// primitives, arrays of eight-byte slots, or plain instances.
#[derive(Debug)]
pub enum HeapValue {
    Str(String),
    Boxed { kind: crate::compiled_class::BoxKind, bits: i64 },
    Arr { class: ClassID, data: Vec<u64> },
    Instance { class: ClassID },
}

/// One class object: the static-field buffer (eight-byte slots), the
/// v-table (by class identifier), the initializer, the one-shot
/// initialization flag and the instance size.
#[derive(Debug)]
pub struct ClassObject {
    pub static_fields: Vec<u64>,
    pub vtable: ClassID,
    pub clinit: Option<NativeHook>,
    pub initialized: bool,
    pub instance_size: u32,
    pub opaque: Option<u64>,
}

impl ClassObject {
    /// An empty, uninitialized slot.
    pub fn empty() -> (r: ClassObject)
        ensures
            !r.initialized,
            r.static_fields@.len() == 0,
            r.clinit is None,
    {
        ClassObject {
            static_fields: Vec::new(),
            vtable: 0,
            clinit: None,
            initialized: false,
            instance_size: 0,
            opaque: None,
        }
    }

    /// (Re)initializes the slot: a zero-filled static-field buffer of
    /// `static_fields_size` bytes in eight-byte slots, the given v-table and
    /// initializer, and the initialized flag cleared.
    pub fn init(&mut self, static_fields_size: u32, instance_size: u32, vtable: ClassID, clinit: Option<NativeHook>)
        ensures
            final(self).static_fields@.len() == (static_fields_size + 7) / 8,
            forall|k: int| 0 <= k < final(self).static_fields@.len()
                ==> final(self).static_fields@[k] == 0,
            final(self).vtable == vtable,
            final(self).clinit == clinit,
            !final(self).initialized,
            final(self).instance_size == instance_size,
            final(self).opaque is None,
    {
        let slots = ((static_fields_size as u64 + 7) / 8) as usize;
        let mut buf: Vec<u64> = Vec::new();
        let mut i: usize = 0;
        while i < slots
            invariant
                i <= slots,
                buf@.len() == i,
                forall|k: int| 0 <= k < i ==> buf@[k] == 0,
            decreases slots - i,
        {
            buf.push(0);
            i = i + 1;
        }
        self.static_fields = buf;
        self.vtable = vtable;
        self.clinit = clinit;
        self.initialized = false;
        self.instance_size = instance_size;
        self.opaque = None;
    }

    /// Remembers a host-side token in the slot.
    pub fn set_opaque(&mut self, opaque: u64)
        ensures
            *final(self) == (ClassObject { opaque: Some(opaque), ..*old(self) }),
    {
        self.opaque = Some(opaque);
    }

    /// Stores an object reference into the static-field buffer at the given
    /// byte offset.
    pub fn set_object(&mut self, offset: usize, obj: ObjectRef)
        requires
            offset % 8 == 0,
            offset / 8 < old(self).static_fields@.len(),
        ensures
            final(self).static_fields@
                == old(self).static_fields@.update(offset as int / 8, obj),
            final(self).vtable == old(self).vtable,
            final(self).clinit == old(self).clinit,
            final(self).initialized == old(self).initialized,
            final(self).instance_size == old(self).instance_size,
            final(self).opaque == old(self).opaque,
    {
        let slot = offset / 8;
        self.static_fields[slot] = obj;
    }
}

/// What the initialization barrier asks the host to do.
#[derive(Debug)]
pub enum InitAction {
    /// The class needs no work (already initialized, or access without the
    /// barrier).
    Nothing,
    /// Run this initializer, then call `mark_initialized`.
    RunClinit(NativeHook),
}

pub struct Isolate {
    pub class_objects: Vec<ClassObject>,
    pub heap: Vec<HeapValue>,
    pub tracer: Tracer,
    pub out: VecOutputStream,
    pub class_ids: Vec<(String, ClassID)>,
}

impl Isolate {
    /// A fresh isolate for a linked program: one class-object slot per
    /// assigned identifier (with headroom, as the class table may grow
    /// host-side entries), the identifier table copied from the linker.
    pub fn new(cc: &CodeGen) -> (r: Isolate)
        requires
            cc.max_class_id < 0xffff_0000u32,
        ensures
            r.class_objects@.len() == cc.max_class_id + 100,
            forall|k: int| 0 <= k < r.class_objects@.len()
                ==> !(#[trigger] r.class_objects@[k]).initialized,
            r.heap@.len() == 0,
            r.tracer.depth == 0,
            r.tracer.buf@ == Seq::<u8>::empty(),
            r.out.buf@ == Seq::<u8>::empty(),
            r.class_ids@ == cc.class_ids@,
    {
        let count = (cc.max_class_id + 100) as usize;
        let mut class_objects: Vec<ClassObject> = Vec::new();
        let mut i: usize = 0;
        while i < count
            invariant
                i <= count,
                class_objects@.len() == i,
                forall|k: int| 0 <= k < i
                    ==> !(#[trigger] class_objects@[k]).initialized,
            decreases count - i,
        {
            class_objects.push(ClassObject::empty());
            i = i + 1;
        }
        let mut class_ids: Vec<(String, ClassID)> = Vec::new();
        let n = cc.class_ids.len();
        let mut k: usize = 0;
        while k < n
            invariant
                k <= n,
                n == cc.class_ids@.len(),
                class_ids@ =~= cc.class_ids@.subrange(0, k as int),
            decreases n - k,
        {
            let name = cc.class_ids[k].0.clone();
            let id = cc.class_ids[k].1;
            class_ids.push((name, id));
            proof {
                assert(class_ids@ =~= cc.class_ids@.subrange(0, k as int + 1));
            }
            k = k + 1;
        }
        proof {
            assert(cc.class_ids@.subrange(0, n as int) =~= cc.class_ids@);
        }
        Isolate {
            class_objects,
            heap: Vec::new(),
            tracer: Tracer::new(),
            out: VecOutputStream::new(),
            class_ids,
        }
    }

    /// The identifier assigned to `class_name`.
    pub fn class_id(&self, class_name: &str) -> (r: ClassID)
        requires
            cid_lookup(self.class_ids@, class_name@) is Some,
        ensures
            Some(r) == cid_lookup(self.class_ids@, class_name@),
    {
        let n = self.class_ids.len();
        let mut i: usize = 0;
        proof {
            assert(self.class_ids@.skip(0) =~= self.class_ids@);
        }
        loop
            invariant
                i <= n,
                n == self.class_ids@.len(),
                cid_lookup(self.class_ids@, class_name@) is Some,
                cid_lookup(self.class_ids@.skip(i as int), class_name@)
                    == cid_lookup(self.class_ids@, class_name@),
            decreases n - i,
        {
            proof {
                if i == n {
                    assert(self.class_ids@.skip(i as int) =~= Seq::<(String, ClassID)>::empty());
                    assert(false);
                }
                assert(self.class_ids@.skip(i as int)[0] == self.class_ids@[i as int]);
                assert(self.class_ids@.skip(i as int).drop_first() =~= self.class_ids@.skip(i as int + 1));
            }
            if self.class_ids[i].0 == class_name.to_owned() {
                return self.class_ids[i].1;
            }
            i = i + 1;
        }
    }

    /// The identifier assigned to `class_name`, if any.
    pub fn try_class_id(&self, class_name: &str) -> (r: Option<ClassID>)
        ensures
            r == cid_lookup(self.class_ids@, class_name@),
    {
        let n = self.class_ids.len();
        let mut i: usize = 0;
        proof {
            assert(self.class_ids@.skip(0) =~= self.class_ids@);
        }
        while i < n
            invariant
                i <= n,
                n == self.class_ids@.len(),
                cid_lookup(self.class_ids@.skip(i as int), class_name@)
                    == cid_lookup(self.class_ids@, class_name@),
            decreases n - i,
        {
            proof {
                assert(self.class_ids@.skip(i as int)[0] == self.class_ids@[i as int]);
                assert(self.class_ids@.skip(i as int).drop_first() =~= self.class_ids@.skip(i as int + 1));
            }
            if self.class_ids[i].0 == class_name.to_owned() {
                return Some(self.class_ids[i].1);
            }
            i = i + 1;
        }
        proof {
            assert(self.class_ids@.skip(i as int) =~= Seq::<(String, ClassID)>::empty());
        }
        None
    }

    /// The standard-output sink.
    pub fn stdout(&mut self) -> (r: &mut VecOutputStream)
        ensures
            *final(r) == final(self).out,
            final(self).class_objects == old(self).class_objects,
            final(self).heap == old(self).heap,
            final(self).tracer == old(self).tracer,
            final(self).class_ids == old(self).class_ids,
    {
        &mut self.out
    }

    /// The bytes written to standard output so far.
    pub fn stdout_buffer(&self) -> (r: &Vec<u8>)
        ensures
            r@ == self.out.buf@,
    {
        &self.out.buf
    }

    /// The tracer.
    pub fn tracer(&mut self) -> (r: &mut Tracer)
        ensures
            *final(r) == final(self).tracer,
            final(self).class_objects == old(self).class_objects,
            final(self).heap == old(self).heap,
            final(self).out == old(self).out,
            final(self).class_ids == old(self).class_ids,
    {
        &mut self.tracer
    }

    /// Allocates a plain instance of the given size and registers it; the
    /// returned reference is its handle in the allocation registry.
    pub fn allocate(&mut self, size: u32, class: ClassID) -> (r: ObjectRef)
        requires
            size >= 8,
            old(self).heap@.len() < 0xffff_ffff_ffff_0000u64,
        ensures
            final(self).heap@ == old(self).heap@.push(HeapValue::Instance { class }),
            r == old(self).heap@.len(),
            final(self).class_objects == old(self).class_objects,
            final(self).out == old(self).out,
            final(self).tracer == old(self).tracer,
            final(self).class_ids == old(self).class_ids,
    {
        let r = self.heap.len() as u64;
        self.heap.push(HeapValue::Instance { class });
        r
    }

    /// Allocates a Java string object holding `s`.
    pub fn new_java_string(&mut self, s: &String) -> (r: ObjectRef)
        requires
            old(self).heap@.len() < 0xffff_ffff_ffff_0000u64,
        ensures
            final(self).heap@.len() == old(self).heap@.len() + 1,
            (final(self).heap@.last() matches HeapValue::Str(t) && t@ == s@),
            forall|k: int| 0 <= k < old(self).heap@.len()
                ==> final(self).heap@[k] == old(self).heap@[k],
            r == old(self).heap@.len(),
            final(self).class_objects == old(self).class_objects,
            final(self).out == old(self).out,
            final(self).tracer == old(self).tracer,
            final(self).class_ids == old(self).class_ids,
    {
        let r = self.heap.len() as u64;
        self.heap.push(HeapValue::Str(s.clone()));
        r
    }

    /// Allocates a primitive array of `length` zero-filled eight-byte
    /// slots.
    pub fn new_java_array(&mut self, class: ClassID, length: usize) -> (r: ObjectRef)
        requires
            old(self).heap@.len() < 0xffff_ffff_ffff_0000u64,
        ensures
            r == old(self).heap@.len(),
            final(self).heap@.len() == old(self).heap@.len() + 1,
            (final(self).heap@.last() matches HeapValue::Arr { class: c, data }
                && c == class && data@.len() == length
                && forall|k: int| 0 <= k < data@.len() ==> data@[k] == 0),
            final(self).class_objects == old(self).class_objects,
            final(self).out == old(self).out,
            final(self).tracer == old(self).tracer,
            final(self).class_ids == old(self).class_ids,
    {
        let mut data: Vec<u64> = Vec::new();
        let mut i: usize = 0;
        while i < length
            invariant
                i <= length,
                data@.len() == i,
                forall|k: int| 0 <= k < i ==> data@[k] == 0,
            decreases length - i,
        {
            data.push(0);
            i = i + 1;
        }
        let r = self.heap.len() as u64;
        self.heap.push(HeapValue::Arr { class, data });
        r
    }

    /// Initializes the class-object slot at `class_id` (see
    /// `ClassObject::init`).
    pub fn new_class_object(&mut self, class_id: ClassID, static_fields_size: u32, instance_size: u32, vtable: ClassID, clinit: Option<NativeHook>)
        requires
            (class_id as int) < old(self).class_objects@.len(),
        ensures
            final(self).class_objects@.len() == old(self).class_objects@.len(),
            ({
                let c = final(self).class_objects@[class_id as int];
                &&& c.static_fields@.len() == (static_fields_size + 7) / 8
                &&& forall|k: int| 0 <= k < c.static_fields@.len() ==> c.static_fields@[k] == 0
                &&& c.vtable == vtable
                &&& c.clinit == clinit
                &&& !c.initialized
                &&& c.instance_size == instance_size
            }),
            forall|k: int| 0 <= k < old(self).class_objects@.len() && k != class_id
                ==> final(self).class_objects@[k] == old(self).class_objects@[k],
            final(self).heap == old(self).heap,
            final(self).out == old(self).out,
            final(self).tracer == old(self).tracer,
            final(self).class_ids == old(self).class_ids,
    {
        let slot = &mut self.class_objects[class_id as usize];
        slot.init(static_fields_size, instance_size, vtable, clinit);
    }

    /// The initialization barrier.  With `need_initialization`, an
    /// uninitialized class's initializer must be run by the host, which then
    /// calls `mark_initialized`; the flag is set only after the initializer
    /// returns, so a cyclic initializer graph would re-enter.
    pub fn get_class_object(&mut self, class_id: ClassID, need_initialization: bool) -> (r: InitAction)
        requires
            (class_id as int) < old(self).class_objects@.len(),
        ensures
            *final(self) == *old(self),
            r == (if need_initialization
                && !old(self).class_objects@[class_id as int].initialized
                && old(self).class_objects@[class_id as int].clinit is Some {
                InitAction::RunClinit(old(self).class_objects@[class_id as int].clinit->Some_0)
            } else {
                InitAction::Nothing
            }),
    {
        if !need_initialization {
            return InitAction::Nothing;
        }
        if self.class_objects[class_id as usize].initialized {
            return InitAction::Nothing;
        }
        match &self.class_objects[class_id as usize].clinit {
            Some(h) => InitAction::RunClinit(*h),
            None => InitAction::Nothing,
        }
    }

    /// Marks a class initialized, after its initializer has returned.
    pub fn mark_initialized(&mut self, class_id: ClassID)
        requires
            (class_id as int) < old(self).class_objects@.len(),
        ensures
            final(self).class_objects@.len() == old(self).class_objects@.len(),
            final(self).class_objects@[class_id as int]
                == (ClassObject { initialized: true, ..old(self).class_objects@[class_id as int] }),
            forall|k: int| 0 <= k < old(self).class_objects@.len() && k != class_id
                ==> final(self).class_objects@[k] == old(self).class_objects@[k],
            final(self).heap == old(self).heap,
            final(self).out == old(self).out,
            final(self).tracer == old(self).tracer,
            final(self).class_ids == old(self).class_ids,
    {
        let slot = &mut self.class_objects[class_id as usize];
        slot.initialized = true;
    }

    /// Allocates an instance of the class: the object records its class,
    /// which determines its v-table.
    pub fn new_instance(&mut self, class_id: ClassID) -> (r: ObjectRef)
        requires
            (class_id as int) < old(self).class_objects@.len(),
            old(self).heap@.len() < 0xffff_ffff_ffff_0000u64,
        ensures
            final(self).heap@ == old(self).heap@.push(
                HeapValue::Instance { class: old(self).class_objects@[class_id as int].vtable },
            ),
            r == old(self).heap@.len(),
            final(self).class_objects == old(self).class_objects,
            final(self).out == old(self).out,
            final(self).tracer == old(self).tracer,
            final(self).class_ids == old(self).class_ids,
    {
        let vt = self.class_objects[class_id as usize].vtable;
        let r = self.heap.len() as u64;
        self.heap.push(HeapValue::Instance { class: vt });
        r
    }

    /// Converts the host argument strings into a Java reference array of
    /// freshly allocated Java strings.
    pub fn allocate_args(&mut self, args: &Vec<String>, array_class: ClassID) -> (r: ObjectRef)
        requires
            old(self).heap@.len() + args@.len() < 0xffff_ffff_ffff_0000u64,
        ensures
            final(self).heap@.len() == old(self).heap@.len() + args@.len() + 1,
            r == old(self).heap@.len() + args@.len(),
            (final(self).heap@.last() matches HeapValue::Arr { class: c, data }
                && c == array_class && data@.len() == args@.len()
                // element i is the handle of a fresh string holding args[i]
                && forall|i: int| 0 <= i < args@.len()
                    ==> #[trigger] data@[i] == old(self).heap@.len() + i),
            forall|i: int| 0 <= i < args@.len()
                ==> ((#[trigger] final(self).heap@[old(self).heap@.len() + i])
                    matches HeapValue::Str(t) && t@ == args@[i]@),
            final(self).class_objects == old(self).class_objects,
            final(self).out == old(self).out,
            final(self).tracer == old(self).tracer,
            final(self).class_ids == old(self).class_ids,
    {
        let n = args.len();
        let mut refs: Vec<u64> = Vec::new();
        let mut i: usize = 0;
        while i < n
            invariant
                i <= n,
                n == args@.len(),
                refs@.len() == i,
                self.heap@.len() == old(self).heap@.len() + i,
                old(self).heap@.len() + n < 0xffff_ffff_ffff_0000u64,
                forall|k: int| 0 <= k < i ==> #[trigger] refs@[k] == old(self).heap@.len() + k,
                forall|k: int| 0 <= k < old(self).heap@.len()
                    ==> #[trigger] self.heap@[k] == old(self).heap@[k],
                forall|k: int| 0 <= k < i
                    ==> ((#[trigger] self.heap@[old(self).heap@.len() + k])
                        matches HeapValue::Str(t) && t@ == args@[k]@),
                self.class_objects == old(self).class_objects,
                self.out == old(self).out,
                self.tracer == old(self).tracer,
                self.class_ids == old(self).class_ids,
            decreases n - i,
        {
            let h = self.new_java_string(&args[i]);
            refs.push(h);
            i = i + 1;
        }
        let r = self.heap.len() as u64;
        self.heap.push(HeapValue::Arr { class: array_class, data: refs });
        r
    }
}

} // verus!
