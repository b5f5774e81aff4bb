//! The codegen context: interns string-literal globals and forward-declared
//! v-table globals, records native-function declarations, and keeps the
//! placeholder registry — three multimaps from symbol to the placeholder
//! values the emitter issued, which the linker must resolve exactly once.

use vstd::prelude::*;
use vstd::string::*;
use crate::compiled_class::NativeHook;
use crate::codegen::descriptor::{BaseType, FieldType, MethodType};
use crate::ir::{IrType, ValueId};

verus! {

/// Identifies one placeholder instruction: the function it sits in (by index
/// into the emitted function list) and its SSA value.
#[derive(PartialEq, Eq, Structural, Clone, Copy, Debug)]
pub struct PlaceholderRef {
    pub func: usize,
    pub value: ValueId,
}

/// A multimap from symbol to the placeholders issued for it.  Keys are kept
/// unique.
#[derive(Debug)]
pub struct PlaceholderMap {
    pub entries: Vec<(String, Vec<PlaceholderRef>)>,
}

impl PlaceholderMap {
    pub open spec fn key_at(&self, k: int) -> Seq<char> {
        self.entries@[k].0@
    }

    pub open spec fn keys_unique(&self) -> bool {
        forall|i: int, j: int|
            0 <= i < j < self.entries@.len() ==> self.key_at(i) != self.key_at(j)
    }

    pub open spec fn has_key(&self, key: Seq<char>) -> bool {
        exists|i: int| 0 <= i < self.entries@.len() && self.key_at(i) == key
    }

    pub fn new() -> (r: Self)
        ensures
            r.entries@.len() == 0,
            r.keys_unique(),
    {
        Self { entries: Vec::new() }
    }

    /// The index of `key`, if present.
    fn find(&self, key: &str) -> (r: Option<usize>)
        ensures
            match r {
                Some(i) => i < self.entries@.len() && self.key_at(i as int) == key@,
                None => !self.has_key(key@),
            },
    {
        let mut i: usize = 0;
        while i < self.entries.len()
            invariant
                i <= self.entries@.len(),
                forall|k: int| 0 <= k < i ==> self.key_at(k) != key@,
            decreases self.entries@.len() - i,
        {
            if self.entries[i].0 == key.to_owned() {
                return Some(i);
            }
            i = i + 1;
        }
        None
    }

    /// Registers one placeholder under `key`.
    pub fn push_ref(&mut self, key: &str, ph: PlaceholderRef)
        requires
            old(self).keys_unique(),
        ensures
            final(self).keys_unique(),
            final(self).has_key(key@),
            // every key that existed still exists
            forall|k: Seq<char>| old(self).has_key(k) ==> final(self).has_key(k),
            // the reference was appended to the key's list, which is
            // otherwise what it was (or fresh)
            exists|i: int| 0 <= i < final(self).entries@.len()
                && (#[trigger] final(self).entries@[i]).0@ == key@
                && (final(self).entries@[i].1@.len() >= 1
                    && final(self).entries@[i].1@.last() == ph),
    {
        let found = self.find(key);
        match found {
            Some(i) => {
                let entry = &mut self.entries[i];
                entry.1.push(ph);
                proof {
                    assert(self.entries@[i as int].0@ == key@);
                    assert(self.entries@[i as int].1@.last() == ph);
                    assert(forall|k: int| 0 <= k < self.entries@.len()
                        ==> self.key_at(k) == old(self).key_at(k));
                    assert forall|k: Seq<char>| old(self).has_key(k) implies self.has_key(k) by {
                        let w = choose|w: int|
                            0 <= w < old(self).entries@.len() && old(self).key_at(w) == k;
                        assert(self.key_at(w) == k);
                    }
                }
            },
            None => {
                let mut refs: Vec<PlaceholderRef> = Vec::new();
                refs.push(ph);
                self.entries.push((key.to_owned(), refs));
                proof {
                    let n = old(self).entries@.len() as int;
                    assert(self.key_at(n) == key@);
                    assert(self.entries@[n].1@.last() == ph);
                    assert(forall|k: int| 0 <= k < n ==> self.key_at(k) == old(self).key_at(k));
                    assert forall|k: Seq<char>| old(self).has_key(k) implies self.has_key(k) by {
                        let w = choose|w: int|
                            0 <= w < old(self).entries@.len() && old(self).key_at(w) == k;
                        assert(self.key_at(w) == k);
                    }
                }
            },
        }
    }

    /// Removes and returns the placeholders registered under `key`.
    pub fn take(&mut self, key: &str) -> (r: Option<Vec<PlaceholderRef>>)
        requires
            old(self).keys_unique(),
        ensures
            final(self).keys_unique(),
            !final(self).has_key(key@),
            final(self).entries@.len() <= old(self).entries@.len(),
            r is Some <==> old(self).has_key(key@),
            r matches Some(refs) ==> exists|i: int|
                0 <= i < old(self).entries@.len() && old(self).key_at(i) == key@
                    && refs == (#[trigger] old(self).entries@[i]).1
                    && final(self).entries@ == old(self).entries@.remove(i),
            r is None ==> *final(self) == *old(self),
            // no other key is disturbed
            forall|k: Seq<char>| k != key@ ==> (final(self).has_key(k) <==> old(self).has_key(k)),
    {
        let found = self.find(key);
        match found {
            Some(i) => {
                let (_k, refs) = self.entries.remove(i);
                proof {
                    assert(old(self).key_at(i as int) == key@);
                    assert(refs == old(self).entries@[i as int].1);
                    let n = self.entries@.len() as int;
                    assert forall|k: int| 0 <= k < n implies
                        (self.key_at(k) == old(self).key_at(if k < i { k } else { k + 1 })) by {}
                    assert forall|k: Seq<char>| k != key@ && old(self).has_key(k)
                        implies self.has_key(k) by {
                        let w = choose|w: int|
                            0 <= w < old(self).entries@.len() && old(self).key_at(w) == k;
                        if w < i {
                            assert(self.key_at(w) == k);
                        } else {
                            assert(old(self).key_at(i as int) == key@);
                            assert(w != i);
                            assert(self.key_at(w - 1) == k);
                        }
                    }
                    assert forall|k: Seq<char>| self.has_key(k)
                        implies old(self).has_key(k) by {
                        let w = choose|w: int| 0 <= w < self.entries@.len() && self.key_at(w) == k;
                        if w < i {
                            assert(old(self).key_at(w) == k);
                        } else {
                            assert(old(self).key_at(w + 1) == k);
                        }
                    }
                    assert(!self.has_key(key@));
                }
                Some(refs)
            },
            None => None,
        }
    }

    pub fn is_empty(&self) -> (r: bool)
        ensures
            r <==> self.entries@.len() == 0,
    {
        self.entries.len() == 0
    }
}

/// The compilation-wide context.
pub struct CodegenContext {
    /// The functions emitted so far.
    pub functions: Vec<crate::ir::IrFunction>,
    /// Interned string literals, by content.
    pub const_strings: Vec<String>,
    /// Class names whose v-table global is only forward declared so far.
    pub forward_vtables: Vec<String>,
    /// Declared native functions: symbol and hook.
    pub native_decls: Vec<(String, NativeHook)>,
    /// Placeholders awaiting a class identifier, keyed by class name.
    pub class_id_values: PlaceholderMap,
    /// Placeholders awaiting a static-field byte offset, keyed
    /// `class.field`.
    pub static_field_offset_values: PlaceholderMap,
    /// Placeholders awaiting a v-table slot index, keyed by the declaring
    /// method symbol.
    pub virtual_method_offset_values: PlaceholderMap,
    /// The resolutions the linker has produced so far.
    pub resolutions: Vec<(PlaceholderRef, u32)>,
}

impl CodegenContext {
    pub open spec fn wf(&self) -> bool {
        &&& self.class_id_values.keys_unique()
        &&& self.static_field_offset_values.keys_unique()
        &&& self.virtual_method_offset_values.keys_unique()
    }

    pub fn new() -> (r: Self)
        ensures
            r.wf(),
            r.functions@.len() == 0,
            r.const_strings@.len() == 0,
            r.forward_vtables@.len() == 0,
            r.native_decls@.len() == 0,
            r.class_id_values.entries@.len() == 0,
            r.static_field_offset_values.entries@.len() == 0,
            r.virtual_method_offset_values.entries@.len() == 0,
            r.resolutions@.len() == 0,
    {
        Self {
            functions: Vec::new(),
            const_strings: Vec::new(),
            forward_vtables: Vec::new(),
            native_decls: Vec::new(),
            class_id_values: PlaceholderMap::new(),
            static_field_offset_values: PlaceholderMap::new(),
            virtual_method_offset_values: PlaceholderMap::new(),
            resolutions: Vec::new(),
        }
    }

    /// Interns a string literal and returns its global index.  Interning a
    /// string requires the `java/lang/String` v-table, which may not exist
    /// yet: a forward-declared global stands in for it.
    pub fn get_const_string_global(&mut self, s: &str) -> (r: usize)
        ensures
            r < final(self).const_strings@.len(),
            final(self).const_strings@[r as int]@ == s@,
            final(self).const_strings@.len() >= old(self).const_strings@.len(),
            // interning: an already-present literal is reused, a new one is
            // appended once at the end
            (exists|i: int| 0 <= i < old(self).const_strings@.len()
                && (#[trigger] old(self).const_strings@[i])@ == s@)
                ==> final(self).const_strings == old(self).const_strings,
            !(exists|i: int| 0 <= i < old(self).const_strings@.len()
                && (#[trigger] old(self).const_strings@[i])@ == s@)
                ==> final(self).const_strings@.len() == old(self).const_strings@.len() + 1
                    && r == old(self).const_strings@.len()
                    && forall|i: int| 0 <= i < old(self).const_strings@.len()
                        ==> final(self).const_strings@[i] == old(self).const_strings@[i],
            final(self).forward_vtables@.len() >= old(self).forward_vtables@.len(),
            final(self).class_id_values == old(self).class_id_values,
            final(self).static_field_offset_values == old(self).static_field_offset_values,
            final(self).virtual_method_offset_values == old(self).virtual_method_offset_values,
            final(self).native_decls == old(self).native_decls,
            final(self).resolutions == old(self).resolutions,
            final(self).functions == old(self).functions,
    {
        self.ensure_forward_vtable("java/lang/String");
        let mut i: usize = 0;
        while i < self.const_strings.len()
            invariant
                i <= self.const_strings@.len(),
                forall|k: int| 0 <= k < i ==> (#[trigger] self.const_strings@[k])@ != s@,
                self.const_strings == old(self).const_strings,
                self.forward_vtables@.len() >= old(self).forward_vtables@.len(),
                self.class_id_values == old(self).class_id_values,
                self.static_field_offset_values == old(self).static_field_offset_values,
                self.virtual_method_offset_values == old(self).virtual_method_offset_values,
                self.native_decls == old(self).native_decls,
                self.resolutions == old(self).resolutions,
                self.functions == old(self).functions,
            decreases self.const_strings@.len() - i,
        {
            if self.const_strings[i] == s.to_owned() {
                return i;
            }
            i = i + 1;
        }
        let idx = self.const_strings.len();
        self.const_strings.push(s.to_owned());
        idx
    }

    /// Records that `class_name`'s v-table global is referenced before it is
    /// emitted.
    pub fn ensure_forward_vtable(&mut self, class_name: &str)
        ensures
            final(self).forward_vtables@.len() >= old(self).forward_vtables@.len(),
            final(self).const_strings == old(self).const_strings,
            final(self).class_id_values == old(self).class_id_values,
            final(self).static_field_offset_values == old(self).static_field_offset_values,
            final(self).virtual_method_offset_values == old(self).virtual_method_offset_values,
            final(self).native_decls == old(self).native_decls,
            final(self).resolutions == old(self).resolutions,
            final(self).functions == old(self).functions,
    {
        let mut i: usize = 0;
        while i < self.forward_vtables.len()
            invariant
                i <= self.forward_vtables@.len(),
            decreases self.forward_vtables@.len() - i,
        {
            if self.forward_vtables[i] == class_name.to_owned() {
                return;
            }
            i = i + 1;
        }
        self.forward_vtables.push(class_name.to_owned());
    }

    /// Registers a placeholder awaiting the class identifier of
    /// `class_name`.
    pub fn get_class_id_value(&mut self, class_name: &str, ph: PlaceholderRef)
        requires
            old(self).wf(),
        ensures
            final(self).wf(),
            final(self).class_id_values.has_key(class_name@),
            final(self).const_strings == old(self).const_strings,
            final(self).forward_vtables == old(self).forward_vtables,
            final(self).static_field_offset_values == old(self).static_field_offset_values,
            final(self).virtual_method_offset_values == old(self).virtual_method_offset_values,
            final(self).native_decls == old(self).native_decls,
            final(self).resolutions == old(self).resolutions,
            final(self).functions == old(self).functions,
    {
        self.class_id_values.push_ref(class_name, ph);
    }

    /// Registers a placeholder awaiting the byte offset of
    /// `class_name.field_name` among its class's static fields.
    pub fn get_static_filed_offset_value(&mut self, class_name: &str, field_name: &str, ph: PlaceholderRef)
        requires
            old(self).wf(),
        ensures
            final(self).wf(),
            final(self).const_strings == old(self).const_strings,
            final(self).forward_vtables == old(self).forward_vtables,
            final(self).class_id_values == old(self).class_id_values,
            final(self).virtual_method_offset_values == old(self).virtual_method_offset_values,
            final(self).native_decls == old(self).native_decls,
            final(self).resolutions == old(self).resolutions,
            final(self).functions == old(self).functions,
    {
        let mut key = class_name.to_owned();
        key.append(".");
        key.append(field_name);
        self.static_field_offset_values.push_ref(key.as_str(), ph);
    }

    /// Registers a placeholder awaiting the v-table slot of the method with
    /// the given declaring symbol.
    pub fn get_virtual_method_offset_value(&mut self, method_symbol: &str, ph: PlaceholderRef)
        requires
            old(self).wf(),
        ensures
            final(self).wf(),
            final(self).virtual_method_offset_values.has_key(method_symbol@),
            final(self).const_strings == old(self).const_strings,
            final(self).forward_vtables == old(self).forward_vtables,
            final(self).class_id_values == old(self).class_id_values,
            final(self).static_field_offset_values == old(self).static_field_offset_values,
            final(self).native_decls == old(self).native_decls,
            final(self).resolutions == old(self).resolutions,
            final(self).functions == old(self).functions,
    {
        self.virtual_method_offset_values.push_ref(method_symbol, ph);
    }

    /// Declares a native function under `symbol`.
    pub fn declare_native(&mut self, symbol: String, hook: NativeHook)
        ensures
            final(self).native_decls@ == old(self).native_decls@.push((symbol, hook)),
            final(self).const_strings == old(self).const_strings,
            final(self).forward_vtables == old(self).forward_vtables,
            final(self).class_id_values == old(self).class_id_values,
            final(self).static_field_offset_values == old(self).static_field_offset_values,
            final(self).virtual_method_offset_values == old(self).virtual_method_offset_values,
            final(self).resolutions == old(self).resolutions,
            final(self).functions == old(self).functions,
    {
        self.native_decls.push((symbol, hook));
    }
}

/// What a field type is at the representation level (JVM specification,
/// section 3.11.1: integers narrower than 32 bits are promoted).
pub open spec fn spec_ir_type(t: crate::codegen::descriptor::GFieldType) -> IrType {
    if t.dims > 0 {
        IrType::Ptr
    } else {
        match t.elem {
            crate::codegen::descriptor::GElemType::Base(b) => match b {
                BaseType::Double => IrType::F64,
                BaseType::Float => IrType::F32,
                BaseType::Long => IrType::I64,
                _ => IrType::I32,
            },
            crate::codegen::descriptor::GElemType::JavaLangDouble => IrType::F64,
            crate::codegen::descriptor::GElemType::JavaLangFloat => IrType::F32,
            crate::codegen::descriptor::GElemType::JavaLangLong => IrType::I64,
            crate::codegen::descriptor::GElemType::Object(_) => IrType::Ptr,
            _ => IrType::I32,
        }
    }
}

/// Maps a field type to its representation type.
pub fn ir_type_from_field_type(field_type: &FieldType) -> (r: IrType)
    ensures
        r == spec_ir_type(field_type@),
{
    match field_type {
        FieldType::BaseType(b) => match b {
            BaseType::Double => IrType::F64,
            BaseType::Float => IrType::F32,
            BaseType::Long => IrType::I64,
            _ => IrType::I32,
        },
        FieldType::ObjectTypeJavaLangDouble => IrType::F64,
        FieldType::ObjectTypeJavaLangFloat => IrType::F32,
        FieldType::ObjectTypeJavaLangLong => IrType::I64,
        FieldType::ObjectType(_) => IrType::Ptr,
        FieldType::ArrayType(inner) => {
            proof {
                assert(field_type@.dims == (**inner)@.dims + 1);
                assert(field_type@.dims > 0);
                assert(spec_ir_type(field_type@) == IrType::Ptr);
            }
            IrType::Ptr
        },
        _ => IrType::I32,
    }
}

/// The parameter and return representation of a method: every function takes
/// the isolate handle first, virtual methods the receiver second, then the
/// declared parameters in order.
pub fn ir_signature_from_method_type(method_type: &MethodType, is_static: bool) -> (r: (Vec<IrType>, Option<IrType>))
    ensures
        r.0@.len() == method_type.parameter_types@.len() + (if is_static { 1int } else { 2int }),
        r.0@[0] == IrType::Ptr,
        !is_static ==> r.0@[1] == IrType::Ptr,
        forall|k: int| 0 <= k < method_type.parameter_types@.len()
            ==> r.0@[k + (if is_static { 1int } else { 2int })]
                == spec_ir_type(#[trigger] method_type.parameter_types@[k]@),
        r.1 == (match method_type.return_type {
            Some(t) => Some(spec_ir_type(t@)),
            None => None::<IrType>,
        }),
{
    let mut params: Vec<IrType> = Vec::new();
    params.push(IrType::Ptr);
    if !is_static {
        params.push(IrType::Ptr);
    }
    let ghost base: int = if is_static { 1 } else { 2 };
    let mut k: usize = 0;
    while k < method_type.parameter_types.len()
        invariant
            k <= method_type.parameter_types@.len(),
            params@.len() == k + base,
            base == (if is_static { 1int } else { 2int }),
            params@[0] == IrType::Ptr,
            !is_static ==> params@[1] == IrType::Ptr,
            forall|q: int| 0 <= q < k
                ==> params@[q + base] == spec_ir_type(#[trigger] method_type.parameter_types@[q]@),
        decreases method_type.parameter_types@.len() - k,
    {
        let t = ir_type_from_field_type(&method_type.parameter_types[k]);
        params.push(t);
        k = k + 1;
    }
    let ret = match &method_type.return_type {
        Some(t) => Some(ir_type_from_field_type(t)),
        None => None,
    };
    (params, ret)
}

impl CodegenContext {
    /// Takes every placeholder registered under `key` in the class-id map
    /// and records the resolution `value` for each, in order.
    pub fn resolve_class_id_key(&mut self, key: &str, value: u32)
        requires
            old(self).wf(),
        ensures
            final(self).wf(),
            final(self).static_field_offset_values == old(self).static_field_offset_values,
            final(self).virtual_method_offset_values == old(self).virtual_method_offset_values,
            final(self).const_strings == old(self).const_strings,
            final(self).forward_vtables == old(self).forward_vtables,
            final(self).native_decls == old(self).native_decls,
            final(self).functions == old(self).functions,
            !final(self).class_id_values.has_key(key@),
            forall|k: Seq<char>| k != key@
                ==> (final(self).class_id_values.has_key(k)
                    <==> old(self).class_id_values.has_key(k)),
            // the taken entry's placeholders, each paired with `value`, are
            // appended to the resolution list; nothing else moves
            old(self).class_id_values.has_key(key@) ==> exists|j: int|
                0 <= j < old(self).class_id_values.entries@.len()
                    && (#[trigger] old(self).class_id_values.entries@[j]).0@ == key@
                    && final(self).class_id_values.entries@
                        == old(self).class_id_values.entries@.remove(j)
                    && final(self).resolutions@ == old(self).resolutions@
                        + old(self).class_id_values.entries@[j].1@.map_values(
                            |ph: PlaceholderRef| (ph, value),
                        ),
            !old(self).class_id_values.has_key(key@)
                ==> final(self).class_id_values == old(self).class_id_values
                    && final(self).resolutions == old(self).resolutions,
    {
        let refs = self.class_id_values.take(key);
        match refs {
            Some(refs) => {
                push_resolutions(&mut self.resolutions, &refs, value);
            },
            None => {},
        }
    }

    /// Takes every placeholder registered under `key` in the static-field
    /// offset map and records the resolution `value` for each, in order.
    pub fn resolve_static_field_key(&mut self, key: &str, value: u32)
        requires
            old(self).wf(),
        ensures
            final(self).wf(),
            final(self).class_id_values == old(self).class_id_values,
            final(self).virtual_method_offset_values == old(self).virtual_method_offset_values,
            final(self).const_strings == old(self).const_strings,
            final(self).forward_vtables == old(self).forward_vtables,
            final(self).native_decls == old(self).native_decls,
            final(self).functions == old(self).functions,
            !final(self).static_field_offset_values.has_key(key@),
            forall|k: Seq<char>| k != key@
                ==> (final(self).static_field_offset_values.has_key(k)
                    <==> old(self).static_field_offset_values.has_key(k)),
            old(self).static_field_offset_values.has_key(key@) ==> exists|j: int|
                0 <= j < old(self).static_field_offset_values.entries@.len()
                    && (#[trigger] old(self).static_field_offset_values.entries@[j]).0@ == key@
                    && final(self).static_field_offset_values.entries@
                        == old(self).static_field_offset_values.entries@.remove(j)
                    && final(self).resolutions@ == old(self).resolutions@
                        + old(self).static_field_offset_values.entries@[j].1@.map_values(
                            |ph: PlaceholderRef| (ph, value),
                        ),
            !old(self).static_field_offset_values.has_key(key@)
                ==> final(self).static_field_offset_values
                    == old(self).static_field_offset_values
                    && final(self).resolutions == old(self).resolutions,
    {
        let refs = self.static_field_offset_values.take(key);
        match refs {
            Some(refs) => {
                push_resolutions(&mut self.resolutions, &refs, value);
            },
            None => {},
        }
    }

    /// Takes every placeholder registered under `key` in the v-table slot
    /// map and records the resolution `value` for each, in order.
    pub fn resolve_vtable_key(&mut self, key: &str, value: u32)
        requires
            old(self).wf(),
        ensures
            final(self).wf(),
            final(self).class_id_values == old(self).class_id_values,
            final(self).static_field_offset_values == old(self).static_field_offset_values,
            final(self).const_strings == old(self).const_strings,
            final(self).forward_vtables == old(self).forward_vtables,
            final(self).native_decls == old(self).native_decls,
            final(self).functions == old(self).functions,
            !final(self).virtual_method_offset_values.has_key(key@),
            forall|k: Seq<char>| k != key@
                ==> (final(self).virtual_method_offset_values.has_key(k)
                    <==> old(self).virtual_method_offset_values.has_key(k)),
            old(self).virtual_method_offset_values.has_key(key@) ==> exists|j: int|
                0 <= j < old(self).virtual_method_offset_values.entries@.len()
                    && (#[trigger] old(self).virtual_method_offset_values.entries@[j]).0@ == key@
                    && final(self).virtual_method_offset_values.entries@
                        == old(self).virtual_method_offset_values.entries@.remove(j)
                    && final(self).resolutions@ == old(self).resolutions@
                        + old(self).virtual_method_offset_values.entries@[j].1@.map_values(
                            |ph: PlaceholderRef| (ph, value),
                        ),
            !old(self).virtual_method_offset_values.has_key(key@)
                ==> final(self).virtual_method_offset_values
                    == old(self).virtual_method_offset_values
                    && final(self).resolutions == old(self).resolutions,
    {
        let refs = self.virtual_method_offset_values.take(key);
        match refs {
            Some(refs) => {
                push_resolutions(&mut self.resolutions, &refs, value);
            },
            None => {},
        }
    }
}

/// Appends `(ph, value)` for every taken placeholder, in order.
fn push_resolutions(resolutions: &mut Vec<(PlaceholderRef, u32)>, refs: &Vec<PlaceholderRef>, value: u32)
    ensures
        final(resolutions)@ == old(resolutions)@
            + refs@.map_values(|ph: PlaceholderRef| (ph, value)),
{
    let n = refs.len();
    let mut q: usize = 0;
    proof {
        assert(refs@.subrange(0, 0).map_values(|ph: PlaceholderRef| (ph, value))
            =~= Seq::<(PlaceholderRef, u32)>::empty());
        assert(resolutions@ + Seq::<(PlaceholderRef, u32)>::empty() =~= resolutions@);
    }
    while q < n
        invariant
            q <= n,
            n == refs@.len(),
            resolutions@ == old(resolutions)@
                + refs@.subrange(0, q as int).map_values(|ph: PlaceholderRef| (ph, value)),
        decreases n - q,
    {
        resolutions.push((refs[q], value));
        proof {
            assert(refs@.subrange(0, q as int + 1)
                =~= refs@.subrange(0, q as int).push(refs@[q as int]));
            assert(refs@.subrange(0, q as int + 1).map_values(|ph: PlaceholderRef| (ph, value))
                =~= refs@.subrange(0, q as int).map_values(|ph: PlaceholderRef| (ph, value)).push(
                    (refs@[q as int], value),
                ));
            assert(resolutions@ =~= old(resolutions)@
                + refs@.subrange(0, q as int + 1).map_values(|ph: PlaceholderRef| (ph, value)));
        }
        q = q + 1;
    }
    proof {
        assert(refs@.subrange(0, n as int) =~= refs@);
    }
}

} // verus!
