//! The compilation root and the linker.  `CodeGen` collects compiled-class
//! records, and `done_compilation` links them: it assigns class identifiers
//! in lexical order of class name, lays out static fields, builds the
//! inheritance tree and the v-tables, resolves every placeholder the emitter
//! issued, and emits the synthetic `main`.

pub mod codegen_class;
pub mod codegen_context;
pub mod descriptor;

use vstd::prelude::*;
use vstd::string::*;
use vstd::multiset::Multiset;
use crate::compiled_class::{CompiledClass, NativeHook, StaticMethodInfo, VirtualMethodInfo};
use crate::ir::{IrBlock, IrFunction, IrInst, IrProgram, IrType, RuntimeFn, Terminator, ValueId, VtFn, VtSlot};
use crate::codegen::codegen_context::{CodegenContext, PlaceholderRef};

verus! {

pub type ClassID = u32;

/// A fatal linking failure.
#[derive(Debug)]
pub enum LinkError {
    /// No class named `java/lang/Object` was added.
    MissingJavaLangObject,
    /// A class names a super class that was never added.
    UnknownSuperClass,
    /// An `overrides` target does not exist in any ancestor's v-table.
    UnknownOverride,
    /// The parent relation never reaches the root.
    InheritanceCycle,
    /// The main class has no `main:([Ljava/lang/String;)V` method.
    MissingMainMethod,
    /// A placeholder was registered for a symbol that linking never
    /// supplied.
    UnresolvedPlaceholder,
    /// More classes or fields than the identifier spaces can hold.
    CapacityExceeded,
}

// ------------------------------------------------------------------
// Lexicographic order on strings.
// ------------------------------------------------------------------

/// Strict lexicographic order on character sequences, by code point.
pub open spec fn lex_lt(a: Seq<char>, b: Seq<char>) -> bool
    decreases a.len(),
{
    if b.len() == 0 {
        false
    } else if a.len() == 0 {
        true
    } else if a[0] == b[0] {
        lex_lt(a.drop_first(), b.drop_first())
    } else {
        (a[0] as u32) < (b[0] as u32)
    }
}

pub open spec fn lex_leq(a: Seq<char>, b: Seq<char>) -> bool {
    !lex_lt(b, a)
}

/// Two sequences neither of which precedes the other are equal.
pub proof fn lemma_lex_total(a: Seq<char>, b: Seq<char>)
    requires
        !lex_lt(a, b),
        !lex_lt(b, a),
    ensures
        a == b,
    decreases a.len(),
{
    if a.len() == 0 || b.len() == 0 {
        assert(a =~= b);
    } else {
        if a[0] == b[0] {
            lemma_lex_total(a.drop_first(), b.drop_first());
            assert(a =~= seq![a[0]] + a.drop_first());
            assert(b =~= seq![b[0]] + b.drop_first());
        } else {
            assert((a[0] as u32) != (b[0] as u32)) by {
                if (a[0] as u32) == (b[0] as u32) {
                    vstd::utf8::char_u32_cast(a[0], a[0] as u32);
                    vstd::utf8::char_u32_cast(b[0], b[0] as u32);
                }
            }
        }
    }
}

/// No sequence precedes itself.
pub proof fn lemma_lex_irrefl(a: Seq<char>)
    ensures
        !lex_lt(a, a),
    decreases a.len(),
{
    if a.len() > 0 {
        lemma_lex_irrefl(a.drop_first());
    }
}

/// Strict lexicographic order is transitive.
pub proof fn lemma_lex_trans(a: Seq<char>, b: Seq<char>, c: Seq<char>)
    requires
        lex_lt(a, b),
        lex_lt(b, c),
    ensures
        lex_lt(a, c),
    decreases a.len(),
{
    if a.len() == 0 {
    } else {
        if a[0] == b[0] {
            if b[0] == c[0] {
                lemma_lex_trans(a.drop_first(), b.drop_first(), c.drop_first());
            }
        } else {
            if (a[0] as u32) == (c[0] as u32) {
                vstd::utf8::char_u32_cast(a[0], a[0] as u32);
                vstd::utf8::char_u32_cast(c[0], c[0] as u32);
            }
        }
    }
}

/// Whether `a` comes strictly before `b`.
pub fn str_lt(a: &str, b: &str) -> (r: bool)
    ensures
        r == lex_lt(a@, b@),
{
    let alen = a.unicode_len();
    let blen = b.unicode_len();
    let mut i: usize = 0;
    proof {
        assert(a@.skip(0) =~= a@);
        assert(b@.skip(0) =~= b@);
    }
    while i < alen && i < blen
        invariant
            i <= alen,
            i <= blen,
            alen == a@.len(),
            blen == b@.len(),
            lex_lt(a@, b@) == lex_lt(a@.skip(i as int), b@.skip(i as int)),
        decreases alen - i,
    {
        let ca = a.get_char(i);
        let cb = b.get_char(i);
        proof {
            lemma_lex_skip_one(a@, b@, i as int);
        }
        if ca != cb {
            return (ca as u32) < (cb as u32);
        }
        i = i + 1;
    }
    proof {
        if i == alen {
            assert(a@.skip(i as int) =~= Seq::<char>::empty());
        }
        if i == blen {
            assert(b@.skip(i as int) =~= Seq::<char>::empty());
        }
    }
    alen < blen
}

/// Stepping one common position into both sequences preserves the order
/// comparison.
proof fn lemma_lex_skip_one(a: Seq<char>, b: Seq<char>, i: int)
    requires
        0 <= i < a.len(),
        i < b.len(),
    ensures
        a[i] == b[i] ==> lex_lt(a.skip(i), b.skip(i)) == lex_lt(a.skip(i + 1), b.skip(i + 1)),
        a[i] != b[i] ==> lex_lt(a.skip(i), b.skip(i)) == ((a[i] as u32) < (b[i] as u32)),
{
    let sa = a.skip(i);
    let sb = b.skip(i);
    assert(sa[0] == a[i]);
    assert(sb[0] == b[i]);
    assert(sa.drop_first() =~= a.skip(i + 1));
    assert(sb.drop_first() =~= b.skip(i + 1));
}

// ------------------------------------------------------------------
// Sorting.
// ------------------------------------------------------------------

/// Sortedness of a class list by name.
pub open spec fn classes_sorted(cs: Seq<CompiledClass>) -> bool {
    forall|i: int, j: int|
        0 <= i < j < cs.len() ==> lex_leq(#[trigger] cs[i].class_name@, #[trigger] cs[j].class_name@)
}

/// The index of the class whose name is least among `v[from..]`.
fn min_class_index(v: &Vec<CompiledClass>, from: usize) -> (r: usize)
    requires
        from < v@.len(),
    ensures
        from <= r < v@.len(),
        forall|k: int| from <= k < v@.len() ==> lex_leq(v@[r as int].class_name@, #[trigger] v@[k].class_name@),
{
    let n = v.len();
    let mut best = from;
    let mut i = from + 1;
    proof {
        lemma_lex_irrefl(v@[from as int].class_name@);
    }
    while i < n
        invariant
            n == v@.len(),
            from <= best < n,
            from < i <= n,
            forall|k: int| from <= k < i ==> lex_leq(v@[best as int].class_name@, #[trigger] v@[k].class_name@),
        decreases n - i,
    {
        if str_lt(v[i].class_name.as_str(), v[best].class_name.as_str()) {
            proof {
                lemma_lex_irrefl(v@[i as int].class_name@);
                assert forall|k: int| from <= k < i + 1
                    implies lex_leq(v@[i as int].class_name@, #[trigger] v@[k].class_name@) by {
                    if k < i {
                        if lex_lt(v@[k].class_name@, v@[i as int].class_name@) {
                            lemma_lex_trans(v@[k].class_name@, v@[i as int].class_name@, v@[best as int].class_name@);
                        }
                    }
                }
            }
            best = i;
        }
        i = i + 1;
    }
    best
}

/// Sorts a class list by name; the result holds the same classes.
fn sort_classes(v: Vec<CompiledClass>) -> (r: Vec<CompiledClass>)
    ensures
        r@.to_multiset() == v@.to_multiset(),
        r@.len() == v@.len(),
        classes_sorted(r@),
{
    broadcast use vstd::seq_lib::group_to_multiset_ensures;

    let mut rest = v;
    let mut out: Vec<CompiledClass> = Vec::new();
    while rest.len() > 0
        invariant
            out@.to_multiset().add(rest@.to_multiset()) == v@.to_multiset(),
            out@.len() + rest@.len() == v@.len(),
            classes_sorted(out@),
            forall|i: int, j: int| 0 <= i < out@.len() && 0 <= j < rest@.len()
                ==> lex_leq(#[trigger] out@[i].class_name@, #[trigger] rest@[j].class_name@),
        decreases rest@.len(),
    {
        let m = min_class_index(&rest, 0);
        let ghost old_out = out@;
        let ghost old_rest = rest@;
        let c = rest.remove(m);
        out.push(c);
        proof {
            old_rest.to_multiset_ensures();
            old_out.to_multiset_ensures();
            assert(old_rest.remove(m as int).to_multiset() =~= old_rest.to_multiset().remove(old_rest[m as int]));
            assert(old_out.push(old_rest[m as int]).to_multiset() =~= old_out.to_multiset().insert(old_rest[m as int]));
            assert(old_rest.contains(old_rest[m as int]));
            assert(old_rest.to_multiset().count(old_rest[m as int]) > 0);
            assert(out@.to_multiset().add(rest@.to_multiset()) =~= v@.to_multiset());
            assert forall|i: int, j: int| 0 <= i < out@.len() && 0 <= j < rest@.len()
                implies lex_leq(#[trigger] out@[i].class_name@, #[trigger] rest@[j].class_name@) by {
                if i < old_out.len() {
                    let jj = if j < m { j } else { j + 1 };
                    assert(rest@[j] == old_rest[jj]);
                    assert(lex_leq(out@[i].class_name@, rest@[j].class_name@));
                } else {
                    let jj = if j < m { j } else { j + 1 };
                    assert(rest@[j] == old_rest[jj]);
                    assert(lex_leq(old_rest[m as int].class_name@, old_rest[jj].class_name@));
                }
            }
            assert forall|i: int, j: int| 0 <= i < j < out@.len()
                implies lex_leq(#[trigger] out@[i].class_name@, #[trigger] out@[j].class_name@) by {
                if j < old_out.len() {
                } else {
                    assert(out@[j] == old_rest[m as int]);
                    assert(old_rest.to_multiset().contains(old_rest[m as int]));
                }
            }
        }
    }
    proof {
        assert(rest@.to_multiset() =~= Multiset::<CompiledClass>::empty());
        assert(out@.to_multiset().add(Multiset::<CompiledClass>::empty()) =~= out@.to_multiset());
    }
    out
}

/// Sortedness of a string list.
pub open spec fn strings_sorted(ss: Seq<String>) -> bool {
    forall|i: int, j: int|
        0 <= i < j < ss.len() ==> lex_leq(#[trigger] ss[i]@, #[trigger] ss[j]@)
}

fn min_string_index(v: &Vec<String>, from: usize) -> (r: usize)
    requires
        from < v@.len(),
    ensures
        from <= r < v@.len(),
        forall|k: int| from <= k < v@.len() ==> lex_leq(v@[r as int]@, #[trigger] v@[k]@),
{
    let n = v.len();
    let mut best = from;
    let mut i = from + 1;
    proof {
        lemma_lex_irrefl(v@[from as int]@);
    }
    while i < n
        invariant
            n == v@.len(),
            from <= best < n,
            from < i <= n,
            forall|k: int| from <= k < i ==> lex_leq(v@[best as int]@, #[trigger] v@[k]@),
        decreases n - i,
    {
        if str_lt(v[i].as_str(), v[best].as_str()) {
            proof {
                lemma_lex_irrefl(v@[i as int]@);
                assert forall|k: int| from <= k < i + 1
                    implies lex_leq(v@[i as int]@, #[trigger] v@[k]@) by {
                    if k < i {
                        if lex_lt(v@[k]@, v@[i as int]@) {
                            lemma_lex_trans(v@[k]@, v@[i as int]@, v@[best as int]@);
                        }
                    }
                }
            }
            best = i;
        }
        i = i + 1;
    }
    best
}

/// Sorts a string list; the result holds the same strings.
pub fn sort_strings(v: Vec<String>) -> (r: Vec<String>)
    ensures
        r@.to_multiset() == v@.to_multiset(),
        r@.len() == v@.len(),
        strings_sorted(r@),
{
    broadcast use vstd::seq_lib::group_to_multiset_ensures;

    let mut rest = v;
    let mut out: Vec<String> = Vec::new();
    while rest.len() > 0
        invariant
            out@.to_multiset().add(rest@.to_multiset()) == v@.to_multiset(),
            out@.len() + rest@.len() == v@.len(),
            strings_sorted(out@),
            forall|i: int, j: int| 0 <= i < out@.len() && 0 <= j < rest@.len()
                ==> lex_leq(#[trigger] out@[i]@, #[trigger] rest@[j]@),
        decreases rest@.len(),
    {
        let m = min_string_index(&rest, 0);
        let ghost old_out = out@;
        let ghost old_rest = rest@;
        let c = rest.remove(m);
        out.push(c);
        proof {
            old_rest.to_multiset_ensures();
            old_out.to_multiset_ensures();
            assert(old_rest.remove(m as int).to_multiset() =~= old_rest.to_multiset().remove(old_rest[m as int]));
            assert(old_out.push(old_rest[m as int]).to_multiset() =~= old_out.to_multiset().insert(old_rest[m as int]));
            assert(old_rest.contains(old_rest[m as int]));
            assert(old_rest.to_multiset().count(old_rest[m as int]) > 0);
            assert(out@.to_multiset().add(rest@.to_multiset()) =~= v@.to_multiset());
            assert forall|i: int, j: int| 0 <= i < out@.len() && 0 <= j < rest@.len()
                implies lex_leq(#[trigger] out@[i]@, #[trigger] rest@[j]@) by {
                let jj = if j < m { j } else { j + 1 };
                assert(rest@[j] == old_rest[jj]);
                if i < old_out.len() {
                    assert(lex_leq(out@[i]@, rest@[j]@));
                } else {
                    assert(lex_leq(old_rest[m as int]@, old_rest[jj]@));
                }
            }
            assert forall|i: int, j: int| 0 <= i < j < out@.len()
                implies lex_leq(#[trigger] out@[i]@, #[trigger] out@[j]@) by {
                if j < old_out.len() {
                } else {
                    assert(out@[j] == old_rest[m as int]);
                    assert(old_rest.to_multiset().contains(old_rest[m as int]));
                }
            }
        }
    }
    proof {
        assert(rest@.to_multiset() =~= Multiset::<String>::empty());
        assert(out@.to_multiset().add(Multiset::<String>::empty()) =~= out@.to_multiset());
    }
    out
}

// ------------------------------------------------------------------
// The class-identifier table.
// ------------------------------------------------------------------

/// First-match lookup in the identifier table.
pub open spec fn cid_lookup(m: Seq<(String, ClassID)>, name: Seq<char>) -> Option<ClassID>
    decreases m.len(),
{
    if m.len() == 0 {
        None
    } else if m[0].0@ == name {
        Some(m[0].1)
    } else {
        cid_lookup(m.drop_first(), name)
    }
}

/// Appending a fresh key does not disturb other lookups.
proof fn lemma_cid_lookup_push(m: Seq<(String, ClassID)>, kv: (String, ClassID), name: Seq<char>)
    ensures
        cid_lookup(m, name) is Some ==> cid_lookup(m.push(kv), name) == cid_lookup(m, name),
        cid_lookup(m, name) is None && kv.0@ == name ==> cid_lookup(m.push(kv), name) == Some(kv.1),
        cid_lookup(m, name) is None && kv.0@ != name ==> cid_lookup(m.push(kv), name) == Option::<ClassID>::None,
    decreases m.len(),
{
    if m.len() == 0 {
        assert(m.push(kv)[m.len() as int] == kv);
        assert(m.push(kv)[0].0@ == kv.0@);
        assert(m.push(kv).drop_first() =~= Seq::<(String, ClassID)>::empty());
        if kv.0@ == name {
            assert(cid_lookup(m.push(kv), name) == Some(kv.1));
        } else {
            assert(cid_lookup(m.push(kv), name) == cid_lookup(m.push(kv).drop_first(), name));
            assert(cid_lookup(m.push(kv), name) is None);
        }
    } else {
        assert(m.push(kv)[0] == m[0]);
        assert(m.push(kv).drop_first() =~= m.drop_first().push(kv));
        lemma_cid_lookup_push(m.drop_first(), kv, name);
        if m[0].0@ == name {
            assert(cid_lookup(m, name) == Some(m[0].1));
            assert(cid_lookup(m.push(kv), name) == Some(m[0].1));
        } else {
            assert(cid_lookup(m, name) == cid_lookup(m.drop_first(), name));
            assert(cid_lookup(m.push(kv), name) == cid_lookup(m.drop_first().push(kv), name));
        }
    }
}

/// Updating the value at an existing key changes only that key's lookup.
proof fn lemma_cid_lookup_update(m: Seq<(String, ClassID)>, i: int, kv: (String, ClassID), name: Seq<char>)
    requires
        0 <= i < m.len(),
        kv.0@ == m[i].0@,
    ensures
        m[i].0@ != name ==> cid_lookup(m.update(i, kv), name) == cid_lookup(m, name),
    decreases m.len(),
{
    if m.len() > 0 {
        if i == 0 {
            assert(m.update(i, kv).drop_first() =~= m.drop_first());
        } else {
            assert(m.update(i, kv)[0] == m[0]);
            assert(m.update(i, kv).drop_first() =~= m.drop_first().update(i - 1, kv));
            lemma_cid_lookup_update(m.drop_first(), i - 1, kv, name);
        }
    }
}

/// A lookup that succeeds names some entry.
proof fn lemma_cid_lookup_exists(m: Seq<(String, ClassID)>, name: Seq<char>)
    requires
        cid_lookup(m, name) is Some,
    ensures
        exists|i: int| 0 <= i < m.len() && #[trigger] m[i].0@ == name && m[i].1 == cid_lookup(m, name)->Some_0,
    decreases m.len(),
{
    if m.len() > 0 {
        if m[0].0@ == name {
        } else {
            lemma_cid_lookup_exists(m.drop_first(), name);
            let i = choose|i: int|
                0 <= i < m.drop_first().len() && #[trigger] m.drop_first()[i].0@ == name
                    && m.drop_first()[i].1 == cid_lookup(m.drop_first(), name)->Some_0;
            assert(m[i + 1].0@ == name);
        }
    }
}

/// The native declarations a class record's static methods bring: one per
/// method carrying a native pointer, in order.
pub open spec fn static_native_decl_views(ms: Seq<StaticMethodInfo>) -> Seq<(Seq<char>, NativeHook)>
    decreases ms.len(),
{
    if ms.len() == 0 {
        Seq::empty()
    } else {
        static_native_decl_views(ms.drop_last()) + (match ms.last().ptr {
            Some(h) => seq![(ms.last().symbol@, h)],
            None => Seq::empty(),
        })
    }
}

/// The name-and-hook views of a declaration list.
pub open spec fn native_decl_views(ds: Seq<(String, NativeHook)>) -> Seq<(Seq<char>, NativeHook)> {
    ds.map_values(|d: (String, NativeHook)| (d.0@, d.1))
}

// ------------------------------------------------------------------
// Placeholder-resolution provenance.
// ------------------------------------------------------------------

/// Every entry of `sub` is an entry of `sup`: taking keys out of a
/// multimap never invents registrations.
pub open spec fn entries_from(sub: Seq<(String, Vec<PlaceholderRef>)>, sup: Seq<(String, Vec<PlaceholderRef>)>) -> bool {
    forall|j: int| 0 <= j < sub.len() ==> sup.contains(#[trigger] sub[j])
}

proof fn lemma_entries_from_refl(s: Seq<(String, Vec<PlaceholderRef>)>)
    ensures
        entries_from(s, s),
{
    assert forall|j: int| 0 <= j < s.len() implies s.contains(#[trigger] s[j]) by {
        assert(s[j] == s[j]);
    }
}

proof fn lemma_entries_from_remove(sub: Seq<(String, Vec<PlaceholderRef>)>, i: int, sup: Seq<(String, Vec<PlaceholderRef>)>)
    requires
        entries_from(sub, sup),
        0 <= i < sub.len(),
    ensures
        entries_from(sub.remove(i), sup),
{
    assert forall|j: int| 0 <= j < sub.remove(i).len()
        implies sup.contains(#[trigger] sub.remove(i)[j]) by {
        let src = if j < i {
            j
        } else {
            j + 1
        };
        assert(sub.remove(i)[j] == sub[src]);
        assert(sup.contains(sub[src]));
    }
}

/// One resolution's provenance: its placeholder was registered (in `map0`)
/// under the name of a class below `hi_class`, and its value is that
/// class's identifier.
pub open spec fn resolution_has_provenance(r: (PlaceholderRef, u32), map0: Seq<(String, Vec<PlaceholderRef>)>, classes: Seq<CompiledClass>, hi_class: int) -> bool {
    exists|i: int, e: (String, Vec<PlaceholderRef>)|
        #![trigger classes[i], map0.contains(e)]
        0 <= i < hi_class && map0.contains(e) && e.0@ == classes[i].class_name@
            && e.1@.contains(r.0) && r.1 == i as u32
}

/// Every resolution recorded at index `lo` or later pairs a placeholder
/// registered (in `map0`) under some class's name with that class's
/// identifier.
pub open spec fn class_id_resolutions_ok(res: Seq<(PlaceholderRef, u32)>, lo: int, map0: Seq<(String, Vec<PlaceholderRef>)>, classes: Seq<CompiledClass>, hi_class: int) -> bool {
    forall|k: int|
        lo <= k < res.len() ==> resolution_has_provenance(#[trigger] res[k], map0, classes, hi_class)
}

proof fn lemma_provenance_weaken(r: (PlaceholderRef, u32), map0: Seq<(String, Vec<PlaceholderRef>)>, classes: Seq<CompiledClass>, h1: int, h2: int)
    requires
        resolution_has_provenance(r, map0, classes, h1),
        h1 <= h2,
    ensures
        resolution_has_provenance(r, map0, classes, h2),
{
    let (i, e) = choose|i: int, e: (String, Vec<PlaceholderRef>)|
        #![trigger classes[i], map0.contains(e)]
        0 <= i < h1 && map0.contains(e) && e.0@ == classes[i].class_name@
            && e.1@.contains(r.0) && r.1 == i as u32;
    assert(map0.contains(e));
    assert(e.0@ == classes[i].class_name@);
    assert(0 <= i < h2);
}

proof fn lemma_class_id_res_weaken(res: Seq<(PlaceholderRef, u32)>, lo: int, map0: Seq<(String, Vec<PlaceholderRef>)>, classes: Seq<CompiledClass>, h1: int, h2: int)
    requires
        0 <= lo,
        class_id_resolutions_ok(res, lo, map0, classes, h1),
        h1 <= h2,
    ensures
        class_id_resolutions_ok(res, lo, map0, classes, h2),
{
    assert forall|k: int| lo <= k < res.len()
        implies resolution_has_provenance(#[trigger] res[k], map0, classes, h2) by {
        assert(resolution_has_provenance(res[k], map0, classes, h1));
        lemma_provenance_weaken(res[k], map0, classes, h1, h2);
    }
}

/// Appending one taken entry's placeholders, each paired with its class's
/// identifier, keeps the resolution list's provenance.
proof fn lemma_class_id_res_push_entry(res1: Seq<(PlaceholderRef, u32)>, res2: Seq<(PlaceholderRef, u32)>, entry: (String, Vec<PlaceholderRef>), ic: int, lo: int, map0: Seq<(String, Vec<PlaceholderRef>)>, classes: Seq<CompiledClass>, h2: int)
    requires
        0 <= lo,
        class_id_resolutions_ok(res1, lo, map0, classes, h2),
        0 <= ic < h2,
        ic < classes.len(),
        map0.contains(entry),
        entry.0@ == classes[ic].class_name@,
        res2 == res1 + entry.1@.map_values(|ph: PlaceholderRef| (ph, ic as u32)),
    ensures
        class_id_resolutions_ok(res2, lo, map0, classes, h2),
{
    assert forall|k: int| lo <= k < res2.len()
        implies resolution_has_provenance(#[trigger] res2[k], map0, classes, h2) by {
        if k < res1.len() {
            assert(res2[k] == res1[k]);
            assert(resolution_has_provenance(res1[k], map0, classes, h2));
        } else {
            let off = k - res1.len();
            assert(res2[k] == entry.1@.map_values(|ph: PlaceholderRef| (ph, ic as u32))[off]);
            assert(res2[k] == (entry.1@[off], ic as u32));
            assert(entry.1@.contains(entry.1@[off]));
            assert(map0.contains(entry));
            assert(classes[ic].class_name@ == entry.0@);
        }
    }
}

/// One static-field resolution's provenance: its placeholder was registered
/// under `class.field` for a class below `hi_class`, and its value is eight
/// times the field's rank in that class's (sorted) field list.
pub open spec fn static_offset_provenance(r: (PlaceholderRef, u32), map0: Seq<(String, Vec<PlaceholderRef>)>, classes: Seq<CompiledClass>, hi_class: int) -> bool {
    exists|i: int, fj: int, e: (String, Vec<PlaceholderRef>)|
        #![trigger classes[i].static_fields@[fj], map0.contains(e)]
        0 <= i < hi_class && 0 <= fj < classes[i].static_fields@.len() && map0.contains(e)
            && e.0@ == classes[i].class_name@ + "."@ + classes[i].static_fields@[fj]@
            && e.1@.contains(r.0) && r.1 == 8 * fj
}

pub open spec fn static_resolutions_ok(res: Seq<(PlaceholderRef, u32)>, lo: int, map0: Seq<(String, Vec<PlaceholderRef>)>, classes: Seq<CompiledClass>, hi_class: int) -> bool {
    forall|k: int|
        lo <= k < res.len() ==> static_offset_provenance(#[trigger] res[k], map0, classes, hi_class)
}

proof fn lemma_static_provenance_stable(r: (PlaceholderRef, u32), map0: Seq<(String, Vec<PlaceholderRef>)>, c1: Seq<CompiledClass>, c2: Seq<CompiledClass>, h1: int, h2: int)
    requires
        static_offset_provenance(r, map0, c1, h1),
        h1 <= h2,
        forall|i: int| 0 <= i < h1 ==> #[trigger] c2[i] == c1[i],
        h1 <= c1.len(),
    ensures
        static_offset_provenance(r, map0, c2, h2),
{
    let (i, fj, e) = choose|i: int, fj: int, e: (String, Vec<PlaceholderRef>)|
        #![trigger c1[i].static_fields@[fj], map0.contains(e)]
        0 <= i < h1 && 0 <= fj < c1[i].static_fields@.len() && map0.contains(e)
            && e.0@ == c1[i].class_name@ + "."@ + c1[i].static_fields@[fj]@
            && e.1@.contains(r.0) && r.1 == 8 * fj;
    assert(c2[i] == c1[i]);
    assert(map0.contains(e));
    assert(c2[i].static_fields@[fj] == c1[i].static_fields@[fj]);
}

proof fn lemma_static_res_stable(res: Seq<(PlaceholderRef, u32)>, lo: int, map0: Seq<(String, Vec<PlaceholderRef>)>, c1: Seq<CompiledClass>, c2: Seq<CompiledClass>, h1: int, h2: int)
    requires
        0 <= lo,
        static_resolutions_ok(res, lo, map0, c1, h1),
        h1 <= h2,
        forall|i: int| 0 <= i < h1 ==> #[trigger] c2[i] == c1[i],
        h1 <= c1.len(),
    ensures
        static_resolutions_ok(res, lo, map0, c2, h2),
{
    assert forall|k: int| lo <= k < res.len()
        implies static_offset_provenance(#[trigger] res[k], map0, c2, h2) by {
        assert(static_offset_provenance(res[k], map0, c1, h1));
        lemma_static_provenance_stable(res[k], map0, c1, c2, h1, h2);
    }
}

/// Appending one taken `class.field` entry's placeholders, each paired with
/// the field's byte offset, keeps the resolution list's provenance.
proof fn lemma_static_res_push_entry(res1: Seq<(PlaceholderRef, u32)>, res2: Seq<(PlaceholderRef, u32)>, entry: (String, Vec<PlaceholderRef>), ic: int, fjc: int, lo: int, map0: Seq<(String, Vec<PlaceholderRef>)>, classes: Seq<CompiledClass>, h2: int)
    requires
        0 <= lo,
        static_resolutions_ok(res1, lo, map0, classes, h2),
        0 <= ic < h2,
        ic < classes.len(),
        0 <= fjc < classes[ic].static_fields@.len(),
        8 * fjc <= u32::MAX,
        map0.contains(entry),
        entry.0@ == classes[ic].class_name@ + "."@ + classes[ic].static_fields@[fjc]@,
        res2 == res1 + entry.1@.map_values(|ph: PlaceholderRef| (ph, (8 * fjc) as u32)),
    ensures
        static_resolutions_ok(res2, lo, map0, classes, h2),
{
    assert forall|k: int| lo <= k < res2.len()
        implies static_offset_provenance(#[trigger] res2[k], map0, classes, h2) by {
        if k < res1.len() {
            assert(res2[k] == res1[k]);
            assert(static_offset_provenance(res1[k], map0, classes, h2));
        } else {
            let off = k - res1.len();
            assert(res2[k]
                == entry.1@.map_values(|ph: PlaceholderRef| (ph, (8 * fjc) as u32))[off]);
            assert(res2[k] == (entry.1@[off], (8 * fjc) as u32));
            assert(entry.1@.contains(entry.1@[off]));
            assert(map0.contains(entry));
            assert(classes[ic].static_fields@[fjc] == classes[ic].static_fields@[fjc]);
        }
    }
}

/// One v-table-slot resolution's provenance: its placeholder was registered
/// under a declaring symbol, and its value is a slot of the built table
/// whose declaring symbol is exactly that key.
pub open spec fn vtable_slot_provenance(r: (PlaceholderRef, u32), map0: Seq<(String, Vec<PlaceholderRef>)>, table: Seq<VtSlot>) -> bool {
    exists|e: (String, Vec<PlaceholderRef>)|
        #![trigger map0.contains(e)]
        map0.contains(e) && e.1@.contains(r.0) && (r.1 as int) < table.len()
            && table[r.1 as int].decl_symbol@ == e.0@
}

pub open spec fn vtable_resolutions_ok(res: Seq<(PlaceholderRef, u32)>, lo: int, map0: Seq<(String, Vec<PlaceholderRef>)>, table: Seq<VtSlot>) -> bool {
    forall|k: int|
        lo <= k < res.len() ==> vtable_slot_provenance(#[trigger] res[k], map0, table)
}

proof fn lemma_vtable_provenance_stable(r: (PlaceholderRef, u32), map0: Seq<(String, Vec<PlaceholderRef>)>, t1: Seq<VtSlot>, t2: Seq<VtSlot>)
    requires
        vtable_slot_provenance(r, map0, t1),
        t2.len() >= t1.len(),
        forall|s: int| 0 <= s < t1.len() ==> #[trigger] t2[s].decl_symbol == t1[s].decl_symbol,
    ensures
        vtable_slot_provenance(r, map0, t2),
{
    let e = choose|e: (String, Vec<PlaceholderRef>)|
        #![trigger map0.contains(e)]
        map0.contains(e) && e.1@.contains(r.0) && (r.1 as int) < t1.len()
            && t1[r.1 as int].decl_symbol@ == e.0@;
    assert(map0.contains(e));
    assert(t2[r.1 as int].decl_symbol == t1[r.1 as int].decl_symbol);
}

proof fn lemma_vtable_res_stable(res: Seq<(PlaceholderRef, u32)>, lo: int, map0: Seq<(String, Vec<PlaceholderRef>)>, t1: Seq<VtSlot>, t2: Seq<VtSlot>)
    requires
        0 <= lo,
        vtable_resolutions_ok(res, lo, map0, t1),
        t2.len() >= t1.len(),
        forall|s: int| 0 <= s < t1.len() ==> #[trigger] t2[s].decl_symbol == t1[s].decl_symbol,
    ensures
        vtable_resolutions_ok(res, lo, map0, t2),
{
    assert forall|k: int| lo <= k < res.len()
        implies vtable_slot_provenance(#[trigger] res[k], map0, t2) by {
        assert(vtable_slot_provenance(res[k], map0, t1));
        lemma_vtable_provenance_stable(res[k], map0, t1, t2);
    }
}

/// Appending one taken declaring-symbol entry's placeholders, each paired
/// with the slot just appended under that symbol, keeps the resolution
/// list's provenance.
proof fn lemma_vtable_res_push_entry(res1: Seq<(PlaceholderRef, u32)>, res2: Seq<(PlaceholderRef, u32)>, entry: (String, Vec<PlaceholderRef>), slot: int, lo: int, map0: Seq<(String, Vec<PlaceholderRef>)>, table: Seq<VtSlot>)
    requires
        0 <= lo,
        vtable_resolutions_ok(res1, lo, map0, table),
        0 <= slot < table.len(),
        slot <= u32::MAX,
        map0.contains(entry),
        table[slot].decl_symbol@ == entry.0@,
        res2 == res1 + entry.1@.map_values(|ph: PlaceholderRef| (ph, slot as u32)),
    ensures
        vtable_resolutions_ok(res2, lo, map0, table),
{
    assert forall|k: int| lo <= k < res2.len()
        implies vtable_slot_provenance(#[trigger] res2[k], map0, table) by {
        if k < res1.len() {
            assert(res2[k] == res1[k]);
            assert(vtable_slot_provenance(res1[k], map0, table));
        } else {
            let off = k - res1.len();
            assert(res2[k] == entry.1@.map_values(|ph: PlaceholderRef| (ph, slot as u32))[off]);
            assert(res2[k] == (entry.1@[off], slot as u32));
            assert(entry.1@.contains(entry.1@[off]));
            assert(map0.contains(entry));
        }
    }
}

/// What linking may do to one instruction: leave it, or — when it is a
/// placeholder some resolution names — install that resolution's constant.
pub open spec fn inst_change_ok(old_i: IrInst, new_i: IrInst, fi: usize, res: Seq<(PlaceholderRef, u32)>) -> bool {
    ||| new_i == old_i
    ||| (match old_i {
        IrInst::Placeholder { dest } => exists|r: int|
            #![trigger res[r]]
            0 <= r < res.len() && res[r].0 == (PlaceholderRef { func: fi, value: dest })
                && new_i == (IrInst::ConstI32 { dest, value: res[r].1 as i32 }),
        _ => false,
    })
}

/// No placeholder instruction for `ph` survives in its function.
pub open spec fn placeholder_gone(fns: Seq<IrFunction>, ph: PlaceholderRef) -> bool {
    (ph.func as int) < fns.len() ==> forall|b: int, k: int|
        0 <= b < fns[ph.func as int].blocks@.len()
            && 0 <= k < fns[ph.func as int].blocks@[b].insts@.len()
            ==> !((#[trigger] fns[ph.func as int].blocks@[b].insts@[k])
                matches IrInst::Placeholder { dest } && dest == ph.value)
}

/// Function shape (symbol, signature, block structure) is untouched;
/// only instructions may change, one for one.
pub open spec fn functions_same_shape(f1: Seq<IrFunction>, f2: Seq<IrFunction>) -> bool {
    &&& f1.len() == f2.len()
    &&& forall|f: int| 0 <= f < f1.len() ==> {
        let a = #[trigger] f1[f];
        let b = f2[f];
        &&& a.symbol == b.symbol
        &&& a.is_static == b.is_static
        &&& a.param_tys == b.param_tys
        &&& a.ret_ty == b.ret_ty
        &&& a.next_value == b.next_value
        &&& a.blocks@.len() == b.blocks@.len()
        &&& forall|bi: int| 0 <= bi < a.blocks@.len() ==> {
            let ba = #[trigger] a.blocks@[bi];
            let bb = b.blocks@[bi];
            &&& ba.addr == bb.addr
            &&& ba.phis == bb.phis
            &&& ba.term == bb.term
            &&& ba.insts@.len() == bb.insts@.len()
        }
    }
}

/// Every instruction changed only as `inst_change_ok` allows.
pub open spec fn functions_rewritten_ok(f1: Seq<IrFunction>, f2: Seq<IrFunction>, res: Seq<(PlaceholderRef, u32)>) -> bool {
    forall|f: int, b: int, k: int|
        0 <= f < f1.len() && 0 <= b < f1[f].blocks@.len() && 0 <= k < f1[f].blocks@[b].insts@.len()
            ==> inst_change_ok(
                (#[trigger] f1[f].blocks@[b].insts@[k]),
                f2[f].blocks@[b].insts@[k],
                f as usize,
                res,
            )
}

// ------------------------------------------------------------------
// The compilation root.
// ------------------------------------------------------------------

pub struct CodeGen {
    /// The codegen context: interned globals and the placeholder registry.
    pub cc: CodegenContext,
    pub tracing_enabled: bool,
    /// The class-identifier table, filled by `assign_class_ids`.
    pub class_ids: Vec<(String, ClassID)>,
    /// The parent class of each class, by identifier.
    pub class_parents: Vec<ClassID>,
    pub java_lang_object_class_id: ClassID,
    pub max_class_id: ClassID,
    /// Every class added so far; sorted by name once identifiers are
    /// assigned.
    pub classes: Vec<CompiledClass>,
    /// `<main class>.main:([Ljava/lang/String;)V`.
    pub main_class_symbol: String,
    /// Declaring symbol to v-table slot, for every slot ever appended.
    pub vtable_offsets: Vec<(String, usize)>,
    /// The built v-tables, by class identifier.
    pub vtables: Vec<Option<Vec<VtSlot>>>,
}

impl CodeGen {
    pub open spec fn ids_wf(&self) -> bool {
        forall|i: int, j: int|
            0 <= i < j < self.class_ids@.len() ==> self.class_ids@[i].0@ != self.class_ids@[j].0@
    }

    pub fn new(main_class_name: &str) -> (r: Self)
        ensures
            r.cc.wf(),
            r.ids_wf(),
            r.classes@.len() == 0,
            r.class_ids@.len() == 0,
            r.cc.class_id_values.entries@.len() == 0,
            r.cc.static_field_offset_values.entries@.len() == 0,
            r.cc.virtual_method_offset_values.entries@.len() == 0,
            r.cc.resolutions@.len() == 0,
            !r.tracing_enabled,
            r.main_class_symbol@ == main_class_name@ + ".main:([Ljava/lang/String;)V"@,
    {
        let mut main_class_symbol = main_class_name.to_owned();
        main_class_symbol.append(".main:([Ljava/lang/String;)V");
        Self {
            cc: CodegenContext::new(),
            tracing_enabled: false,
            class_ids: Vec::new(),
            class_parents: Vec::new(),
            java_lang_object_class_id: 0,
            max_class_id: 0,
            classes: Vec::new(),
            main_class_symbol,
            vtable_offsets: Vec::new(),
            vtables: Vec::new(),
        }
    }

    pub fn enable_tracing(&mut self)
        ensures
            *final(self) == (CodeGen { tracing_enabled: true, ..*old(self) }),
    {
        self.tracing_enabled = true;
    }

    /// The identifier assigned to `class_name`.
    pub fn class_id(&self, class_name: &str) -> (r: ClassID)
        requires
            cid_lookup(self.class_ids@, class_name@) is Some,
        ensures
            Some(r) == cid_lookup(self.class_ids@, class_name@),
    {
        let n = self.class_ids.len();
        let mut i: usize = 0;
        proof {
            assert(self.class_ids@.skip(0) =~= self.class_ids@);
        }
        loop
            invariant
                i <= n,
                n == self.class_ids@.len(),
                cid_lookup(self.class_ids@, class_name@) is Some,
                cid_lookup(self.class_ids@.skip(i as int), class_name@)
                    == cid_lookup(self.class_ids@, class_name@),
            decreases n - i,
        {
            proof {
                if i == n {
                    assert(self.class_ids@.skip(i as int) =~= Seq::<(String, ClassID)>::empty());
                    assert(false);
                }
                assert(self.class_ids@.skip(i as int)[0] == self.class_ids@[i as int]);
                assert(self.class_ids@.skip(i as int).drop_first() =~= self.class_ids@.skip(i as int + 1));
            }
            if self.class_ids[i].0 == class_name.to_owned() {
                return self.class_ids[i].1;
            }
            i = i + 1;
        }
    }

    /// Adds a ready-made class record.  A class initializer or a native
    /// static method brings an external declaration with it.
    pub fn add_class(&mut self, class: CompiledClass)
        requires
            old(self).cc.wf(),
        ensures
            final(self).cc.wf(),
            final(self).classes@ == old(self).classes@.push(class),
            final(self).class_ids == old(self).class_ids,
            final(self).cc.class_id_values == old(self).cc.class_id_values,
            final(self).cc.static_field_offset_values == old(self).cc.static_field_offset_values,
            final(self).cc.virtual_method_offset_values == old(self).cc.virtual_method_offset_values,
            final(self).cc.resolutions == old(self).cc.resolutions,
            final(self).tracing_enabled == old(self).tracing_enabled,
            final(self).main_class_symbol == old(self).main_class_symbol,
            // the class's externals are declared: its initializer under
            // `<class>.clinit`, then one entry per native static method
            native_decl_views(final(self).cc.native_decls@)
                == native_decl_views(old(self).cc.native_decls@) + (match class.clinit {
                    Some(h) => seq![(class.class_name@ + ".clinit"@, h)],
                    None => Seq::<(Seq<char>, NativeHook)>::empty(),
                }) + static_native_decl_views(class.static_methods@),
    {
        if let Some(hook) = class.clinit {
            let mut sym = class.class_name.clone();
            sym.append(".clinit");
            self.cc.declare_native(sym, hook);
        }
        let ghost base = native_decl_views(self.cc.native_decls@);
        proof {
            assert(base =~= native_decl_views(old(self).cc.native_decls@) + (match class.clinit {
                Some(h) => seq![(class.class_name@ + ".clinit"@, h)],
                None => Seq::<(Seq<char>, NativeHook)>::empty(),
            }));
            assert(static_native_decl_views(class.static_methods@.subrange(0, 0))
                =~= Seq::<(Seq<char>, NativeHook)>::empty());
            assert(base + Seq::<(Seq<char>, NativeHook)>::empty() =~= base);
        }
        let mut k: usize = 0;
        while k < class.static_methods.len()
            invariant
                k <= class.static_methods@.len(),
                old(self).cc.wf(),
                self.cc.wf(),
                self.classes == old(self).classes,
                self.class_ids == old(self).class_ids,
                self.cc.class_id_values == old(self).cc.class_id_values,
                self.cc.static_field_offset_values == old(self).cc.static_field_offset_values,
                self.cc.virtual_method_offset_values == old(self).cc.virtual_method_offset_values,
                self.cc.resolutions == old(self).cc.resolutions,
                self.tracing_enabled == old(self).tracing_enabled,
                self.main_class_symbol == old(self).main_class_symbol,
                self.vtable_offsets == old(self).vtable_offsets,
                self.vtables == old(self).vtables,
                self.class_parents == old(self).class_parents,
                self.java_lang_object_class_id == old(self).java_lang_object_class_id,
                self.max_class_id == old(self).max_class_id,
                native_decl_views(self.cc.native_decls@)
                    == base + static_native_decl_views(
                        class.static_methods@.subrange(0, k as int),
                    ),
            decreases class.static_methods@.len() - k,
        {
            let ghost pre = native_decl_views(self.cc.native_decls@);
            let ghost sub0 = class.static_methods@.subrange(0, k as int);
            let ghost sub1 = class.static_methods@.subrange(0, k as int + 1);
            proof {
                assert(sub1.drop_last() =~= sub0);
                assert(sub1.last() == class.static_methods@[k as int]);
            }
            if let Some(hook) = class.static_methods[k].ptr {
                let sym = class.static_methods[k].symbol.clone();
                let ghost symv = sym@;
                self.cc.declare_native(sym, hook);
                proof {
                    assert(native_decl_views(self.cc.native_decls@) =~= pre.push((symv, hook)));
                    assert(static_native_decl_views(sub1)
                        =~= static_native_decl_views(sub0) + seq![(symv, hook)]);
                    assert(native_decl_views(self.cc.native_decls@)
                        =~= base + static_native_decl_views(sub1));
                }
            } else {
                proof {
                    assert(static_native_decl_views(sub1) =~= static_native_decl_views(sub0));
                    assert(native_decl_views(self.cc.native_decls@)
                        =~= base + static_native_decl_views(sub1));
                }
            }
            k = k + 1;
        }
        self.classes.push(class);
        proof {
            assert(class.static_methods@.subrange(0, class.static_methods@.len() as int)
                =~= class.static_methods@);
        }
    }

    /// Step one of linking: sort the classes by name and let each class's
    /// index become its identifier; resolve every class-identifier
    /// placeholder whose class exists.
    ///
    /// The assignment is a permutation of `0..n`: the classes after the call
    /// hold exactly the classes added before it, each class's identifier is
    /// its position, and positions are ordered by name.
    pub fn assign_class_ids(&mut self) -> (r: Result<(), LinkError>)
        requires
            old(self).cc.wf(),
        ensures
            final(self).cc.wf(),
            // success is owed whenever the identifier space suffices
            r is Ok <==> old(self).classes@.len() <= 0x7fff_ffff,
            r is Err ==> r == Err::<(), LinkError>(LinkError::CapacityExceeded)
                && *final(self) == *old(self),
            r is Ok ==> {
                &&& final(self).classes@.to_multiset() == old(self).classes@.to_multiset()
                &&& final(self).classes@.len() == old(self).classes@.len()
                &&& classes_sorted(final(self).classes@)
                &&& final(self).ids_wf()
                &&& final(self).class_ids@.len() <= final(self).classes@.len()
                &&& forall|i: int| 0 <= i < final(self).classes@.len()
                    ==> (forall|j: int| 0 <= j < final(self).classes@.len() && j != i
                            ==> final(self).classes@[j].class_name@ != final(self).classes@[i].class_name@)
                        ==> cid_lookup(final(self).class_ids@, #[trigger] final(self).classes@[i].class_name@)
                            == Some(i as ClassID)
                &&& final(self).max_class_id as int == (if final(self).classes@.len() == 0 {
                    0int
                } else {
                    final(self).classes@.len() - 1
                })
                // resolutions only grow, and each new one pairs a placeholder
                // registered under some class's name with that class's
                // identifier
                &&& final(self).cc.resolutions@.len() >= old(self).cc.resolutions@.len()
                &&& forall|k: int| 0 <= k < old(self).cc.resolutions@.len()
                    ==> #[trigger] final(self).cc.resolutions@[k] == old(self).cc.resolutions@[k]
                &&& class_id_resolutions_ok(
                    final(self).cc.resolutions@,
                    old(self).cc.resolutions@.len() as int,
                    old(self).cc.class_id_values.entries@,
                    final(self).classes@,
                    final(self).classes@.len() as int,
                )
            },
            final(self).tracing_enabled == old(self).tracing_enabled,
            final(self).main_class_symbol == old(self).main_class_symbol,
            final(self).cc.static_field_offset_values == old(self).cc.static_field_offset_values,
            final(self).cc.virtual_method_offset_values == old(self).cc.virtual_method_offset_values,
    {
        let n = self.classes.len();
        if n > 0x7fff_ffffusize {
            return Err(LinkError::CapacityExceeded);
        }
        let mut taken: Vec<CompiledClass> = Vec::new();
        core::mem::swap(&mut taken, &mut self.classes);
        let sorted = sort_classes(taken);
        self.classes = sorted;
        let mut ids: Vec<(String, ClassID)> = Vec::new();
        let mut i: usize = 0;
        while i < n
            invariant
                n == self.classes@.len(),
                n <= 0x7fff_ffff,
                i <= n,
                ids@.len() <= i,
                forall|a: int, b: int| 0 <= a < b < ids@.len() ==> ids@[a].0@ != ids@[b].0@,
                forall|a: int| 0 <= a < ids@.len()
                    ==> exists|c: int| 0 <= c < i && #[trigger] ids@[a].0@ == self.classes@[c].class_name@,
                forall|c: int| 0 <= c < i
                    ==> (forall|j: int| 0 <= j < n && j != c ==> self.classes@[j].class_name@ != self.classes@[c].class_name@)
                        ==> cid_lookup(ids@, #[trigger] self.classes@[c].class_name@) == Some(c as ClassID),
            decreases n - i,
        {
            let name = self.classes[i].class_name.clone();
            let ghost old_ids = ids@;
            let mut found: Option<usize> = None;
            let mut k: usize = 0;
            while k < ids.len() && found.is_none()
                invariant
                    k <= ids@.len(),
                    ids@ == old_ids,
                    match found {
                        Some(f) => f < ids@.len() && ids@[f as int].0@ == name@,
                        None => forall|a: int| 0 <= a < k ==> ids@[a].0@ != name@,
                    },
                decreases ids@.len() - k + (if found is None { 1int } else { 0int }),
            {
                if ids[k].0 == name {
                    found = Some(k);
                } else {
                    k = k + 1;
                }
            }
            proof {
                if found is None {
                    assert(k == ids@.len());
                }
            }
            match found {
                Some(f) => {
                    proof {
                        assert(old_ids[f as int].0@ == name@);
                    }
                    ids[f] = (name, i as ClassID);
                    proof {
                        assert forall|a: int, b: int| 0 <= a < b < ids@.len()
                            implies ids@[a].0@ != ids@[b].0@ by {
                            assert(old_ids[a].0@ != old_ids[b].0@);
                            assert(ids@[a].0@ == old_ids[a].0@ || a == f);
                            assert(ids@[b].0@ == old_ids[b].0@ || b == f);
                        }
                        let cs = self.classes@;
                        let c2 = choose|c2: int| 0 <= c2 < i && #[trigger] old_ids[f as int].0@ == cs[c2].class_name@;
                        assert forall|c: int| 0 <= c < i + 1
                            implies ((forall|j: int| 0 <= j < n && j != c ==> cs[j].class_name@ != cs[c].class_name@)
                                ==> cid_lookup(ids@, #[trigger] cs[c].class_name@) == Some(c as ClassID)) by {
                            if forall|j: int| 0 <= j < n && j != c ==> cs[j].class_name@ != cs[c].class_name@ {
                                if c == i {
                                    // name@ equals an earlier class's name, so it is not unique
                                    assert(cs[c2].class_name@ == cs[c].class_name@);
                                    assert(false);
                                } else {
                                    assert(cs[c].class_name@ != name@) by {
                                        if cs[c].class_name@ == name@ {
                                            if c2 == c {
                                                assert(cs[i as int].class_name@ == cs[c].class_name@);
                                            } else {
                                                assert(cs[c2].class_name@ == cs[c].class_name@);
                                            }
                                        }
                                    }
                                    lemma_cid_lookup_update(old_ids, f as int, (ids@[f as int].0, ids@[f as int].1), cs[c].class_name@);
                                }
                            }
                        }
                        assert forall|a: int| 0 <= a < ids@.len()
                            implies exists|c: int| 0 <= c < i + 1 && #[trigger] ids@[a].0@ == cs[c].class_name@ by {
                            if a == f {
                                assert(ids@[a].0@ == cs[i as int].class_name@);
                            } else {
                                let c = choose|c: int| 0 <= c < i && #[trigger] old_ids[a].0@ == cs[c].class_name@;
                                assert(ids@[a].0@ == cs[c].class_name@);
                            }
                        }
                    }
                },
                None => {
                    ids.push((name, i as ClassID));
                    proof {
                        assert forall|a: int, b: int| 0 <= a < b < ids@.len()
                            implies ids@[a].0@ != ids@[b].0@ by {
                            if b == ids@.len() - 1 {
                                assert(old_ids[a].0@ != name@);
                            } else {
                                assert(old_ids[a].0@ != old_ids[b].0@);
                            }
                        }
                        let cs = self.classes@;
                        let kv = (ids@[ids@.len() - 1].0, ids@[ids@.len() - 1].1);
                        assert(kv.0@ == name@);
                        assert(kv.1 == i as ClassID);
                        assert forall|c: int| 0 <= c < i + 1
                            implies ((forall|j: int| 0 <= j < n && j != c ==> cs[j].class_name@ != cs[c].class_name@)
                                ==> cid_lookup(ids@, #[trigger] cs[c].class_name@) == Some(c as ClassID)) by {
                            if forall|j: int| 0 <= j < n && j != c ==> cs[j].class_name@ != cs[c].class_name@ {
                                lemma_cid_lookup_push(old_ids, kv, cs[c].class_name@);
                                if c == i {
                                    if cid_lookup(old_ids, cs[c].class_name@) is Some {
                                        lemma_cid_lookup_exists(old_ids, cs[c].class_name@);
                                        let a = choose|a: int| 0 <= a < old_ids.len()
                                            && #[trigger] old_ids[a].0@ == cs[c].class_name@
                                            && old_ids[a].1 == cid_lookup(old_ids, cs[c].class_name@)->Some_0;
                                        let cw = choose|cw: int| 0 <= cw < i && #[trigger] old_ids[a].0@ == cs[cw].class_name@;
                                        assert(cs[cw].class_name@ == cs[c].class_name@);
                                        assert(false);
                                    }
                                }
                            }
                        }
                        assert forall|a: int| 0 <= a < ids@.len()
                            implies exists|c: int| 0 <= c < i + 1 && #[trigger] ids@[a].0@ == cs[c].class_name@ by {
                            if a == ids@.len() - 1 {
                                assert(ids@[a].0@ == cs[i as int].class_name@);
                            } else {
                                let c = choose|c: int| 0 <= c < i && #[trigger] old_ids[a].0@ == cs[c].class_name@;
                                assert(ids@[a].0@ == cs[c].class_name@);
                            }
                        }
                    }
                },
            }
            i = i + 1;
        }
        self.class_ids = ids;
        self.max_class_id = if n == 0 {
            0
        } else {
            (n - 1) as ClassID
        };
        // Resolve the class-identifier placeholders for every known class:
        // each one becomes its class's identifier.
        let ghost snap = *self;
        proof {
            lemma_entries_from_refl(old(self).cc.class_id_values.entries@);
            assert(self.cc.class_id_values.entries@ == old(self).cc.class_id_values.entries@);
        }
        let mut c: usize = 0;
        while c < n
            invariant
                n == self.classes@.len(),
                n <= 0x7fff_ffff,
                c <= n,
                self.cc.wf(),
                self.classes == snap.classes,
                self.class_ids == snap.class_ids,
                self.max_class_id == snap.max_class_id,
                self.main_class_symbol == snap.main_class_symbol,
                self.tracing_enabled == snap.tracing_enabled,
                self.cc.static_field_offset_values == snap.cc.static_field_offset_values,
                self.cc.virtual_method_offset_values == snap.cc.virtual_method_offset_values,
                snap.cc.class_id_values == old(self).cc.class_id_values,
                snap.cc.resolutions == old(self).cc.resolutions,
                // remaining registrations all come from the map as it was
                entries_from(
                    self.cc.class_id_values.entries@,
                    old(self).cc.class_id_values.entries@,
                ),
                // resolutions only grow, and each new one pairs a
                // registered placeholder with its class's identifier
                self.cc.resolutions@.len() >= old(self).cc.resolutions@.len(),
                forall|k: int| 0 <= k < old(self).cc.resolutions@.len()
                    ==> #[trigger] self.cc.resolutions@[k] == old(self).cc.resolutions@[k],
                class_id_resolutions_ok(
                    self.cc.resolutions@,
                    old(self).cc.resolutions@.len() as int,
                    old(self).cc.class_id_values.entries@,
                    self.classes@,
                    c as int,
                ),
            decreases n - c,
        {
            let name = self.classes[c].class_name.clone();
            let ghost pre = self.cc;
            self.cc.resolve_class_id_key(name.as_str(), c as u32);
            proof {
                let map0 = old(self).cc.class_id_values.entries@;
                let lo = old(self).cc.resolutions@.len() as int;
                assert(class_id_resolutions_ok(pre.resolutions@, lo, map0, self.classes@, c as int));
                if !pre.class_id_values.has_key(name@) {
                    assert(self.cc.class_id_values == pre.class_id_values);
                    assert(self.cc.resolutions == pre.resolutions);
                    lemma_class_id_res_weaken(
                        self.cc.resolutions@, lo, map0, self.classes@, c as int, c + 1,
                    );
                } else {
                    let j = choose|j: int|
                        0 <= j < pre.class_id_values.entries@.len()
                            && (#[trigger] pre.class_id_values.entries@[j]).0@ == name@
                            && self.cc.class_id_values.entries@
                                == pre.class_id_values.entries@.remove(j)
                            && self.cc.resolutions@ == pre.resolutions@
                                + pre.class_id_values.entries@[j].1@.map_values(
                                    |ph: PlaceholderRef| (ph, c as u32),
                                );
                    lemma_entries_from_remove(pre.class_id_values.entries@, j, map0);
                    let ghost entry = pre.class_id_values.entries@[j];
                    assert(map0.contains(entry));
                    lemma_class_id_res_weaken(
                        pre.resolutions@, lo, map0, self.classes@, c as int, c + 1,
                    );
                    lemma_class_id_res_push_entry(
                        pre.resolutions@,
                        self.cc.resolutions@,
                        entry,
                        c as int,
                        lo,
                        map0,
                        self.classes@,
                        c + 1,
                    );
                }
            }
            c = c + 1;
        }
        Ok(())
    }
}


impl CodeGen {
    /// The identifier assigned to `class_name`, if any.
    pub fn try_class_id(&self, class_name: &str) -> (r: Option<ClassID>)
        ensures
            r == cid_lookup(self.class_ids@, class_name@),
    {
        let n = self.class_ids.len();
        let mut i: usize = 0;
        proof {
            assert(self.class_ids@.skip(0) =~= self.class_ids@);
        }
        while i < n
            invariant
                i <= n,
                n == self.class_ids@.len(),
                cid_lookup(self.class_ids@.skip(i as int), class_name@)
                    == cid_lookup(self.class_ids@, class_name@),
            decreases n - i,
        {
            proof {
                assert(self.class_ids@.skip(i as int)[0] == self.class_ids@[i as int]);
                assert(self.class_ids@.skip(i as int).drop_first() =~= self.class_ids@.skip(i as int + 1));
            }
            if self.class_ids[i].0 == class_name.to_owned() {
                return Some(self.class_ids[i].1);
            }
            i = i + 1;
        }
        proof {
            assert(self.class_ids@.skip(i as int) =~= Seq::<(String, ClassID)>::empty());
        }
        None
    }

    /// Step two of linking: sort each class's static fields by name; field
    /// `j` lives at byte offset `8 * j`.  Resolves every static-field-offset
    /// placeholder whose class and field exist.
    pub fn resolve_static_field_offsets(&mut self) -> (r: Result<(), LinkError>)
        requires
            old(self).cc.wf(),
        ensures
            final(self).cc.wf(),
            final(self).classes@.len() == old(self).classes@.len(),
            // success is owed whenever every field list fits the offset
            // space
            r is Ok <==> (forall|i: int| 0 <= i < old(self).classes@.len()
                ==> (#[trigger] old(self).classes@[i]).static_fields@.len() <= 0x1fff_ffff),
            r is Err ==> r == Err::<(), LinkError>(LinkError::CapacityExceeded),
            forall|i: int| 0 <= i < final(self).classes@.len() ==> {
                let c = #[trigger] final(self).classes@[i];
                let c0 = old(self).classes@[i];
                &&& c.class_name == c0.class_name
                &&& c.static_methods == c0.static_methods
                &&& c.virtual_methods == c0.virtual_methods
                &&& c.instance_size == c0.instance_size
                &&& c.clinit == c0.clinit
                &&& c.super_class == c0.super_class
                &&& (r is Ok ==> strings_sorted(c.static_fields@)
                    && c.static_fields@.to_multiset() == c0.static_fields@.to_multiset())
            },
            final(self).class_ids == old(self).class_ids,
            final(self).class_parents == old(self).class_parents,
            final(self).java_lang_object_class_id == old(self).java_lang_object_class_id,
            final(self).max_class_id == old(self).max_class_id,
            final(self).main_class_symbol == old(self).main_class_symbol,
            final(self).tracing_enabled == old(self).tracing_enabled,
            final(self).cc.class_id_values == old(self).cc.class_id_values,
            final(self).cc.virtual_method_offset_values == old(self).cc.virtual_method_offset_values,
            // resolutions only grow, and each new one pairs a placeholder
            // registered under `class.field` with eight times the field's
            // rank in that class's sorted field list
            final(self).cc.resolutions@.len() >= old(self).cc.resolutions@.len(),
            forall|k: int| 0 <= k < old(self).cc.resolutions@.len()
                ==> #[trigger] final(self).cc.resolutions@[k] == old(self).cc.resolutions@[k],
            r is Ok ==> static_resolutions_ok(
                final(self).cc.resolutions@,
                old(self).cc.resolutions@.len() as int,
                old(self).cc.static_field_offset_values.entries@,
                final(self).classes@,
                final(self).classes@.len() as int,
            ),
    {
        let n = self.classes.len();
        proof {
            lemma_entries_from_refl(old(self).cc.static_field_offset_values.entries@);
        }
        let mut i: usize = 0;
        while i < n
            invariant
                n == self.classes@.len(),
                i <= n,
                self.cc.wf(),
                self.classes@.len() == old(self).classes@.len(),
                forall|k: int| 0 <= k < n ==> {
                    let c = #[trigger] self.classes@[k];
                    let c0 = old(self).classes@[k];
                    &&& c.class_name == c0.class_name
                    &&& c.static_methods == c0.static_methods
                    &&& c.virtual_methods == c0.virtual_methods
                    &&& c.instance_size == c0.instance_size
                    &&& c.clinit == c0.clinit
                    &&& c.super_class == c0.super_class
                    &&& c.static_fields@.len() == c0.static_fields@.len()
                    &&& (k < i ==> strings_sorted(c.static_fields@)
                        && c.static_fields@.to_multiset() == c0.static_fields@.to_multiset())
                    &&& (k >= i ==> c.static_fields == c0.static_fields)
                },
                forall|k: int| 0 <= k < i
                    ==> (#[trigger] old(self).classes@[k]).static_fields@.len() <= 0x1fff_ffff,
                self.class_ids == old(self).class_ids,
                self.class_parents == old(self).class_parents,
                self.java_lang_object_class_id == old(self).java_lang_object_class_id,
                self.max_class_id == old(self).max_class_id,
                self.main_class_symbol == old(self).main_class_symbol,
                self.tracing_enabled == old(self).tracing_enabled,
                self.cc.class_id_values == old(self).cc.class_id_values,
                self.cc.virtual_method_offset_values == old(self).cc.virtual_method_offset_values,
                self.vtables == old(self).vtables,
                self.vtable_offsets == old(self).vtable_offsets,
                entries_from(
                    self.cc.static_field_offset_values.entries@,
                    old(self).cc.static_field_offset_values.entries@,
                ),
                self.cc.resolutions@.len() >= old(self).cc.resolutions@.len(),
                forall|k: int| 0 <= k < old(self).cc.resolutions@.len()
                    ==> #[trigger] self.cc.resolutions@[k] == old(self).cc.resolutions@[k],
                static_resolutions_ok(
                    self.cc.resolutions@,
                    old(self).cc.resolutions@.len() as int,
                    old(self).cc.static_field_offset_values.entries@,
                    self.classes@,
                    i as int,
                ),
            decreases n - i,
        {
            let ghost classes_pre = self.classes@;
            let mut fields: Vec<String> = Vec::new();
            let ci = &mut self.classes[i];
            core::mem::swap(&mut fields, &mut ci.static_fields);
            let sorted = sort_strings(fields);
            ci.static_fields = sorted;
            proof {
                lemma_static_res_stable(
                    self.cc.resolutions@,
                    old(self).cc.resolutions@.len() as int,
                    old(self).cc.static_field_offset_values.entries@,
                    classes_pre,
                    self.classes@,
                    i as int,
                    i as int + 1,
                );
            }
            let class_name = self.classes[i].class_name.clone();
            let nf = self.classes[i].static_fields.len();
            if nf > 0x1fff_ffffusize {
                proof {
                    // the sorted list has the original's length
                    assert(old(self).classes@[i as int].static_fields@.len() > 0x1fff_ffff);
                }
                return Err(LinkError::CapacityExceeded);
            }
            let mut j: usize = 0;
            let ghost snap2 = *self;
            while j < nf
                invariant
                    j <= nf,
                    self.cc.wf(),
                    nf == self.classes@[i as int].static_fields@.len(),
                    i < n,
                    n == self.classes@.len(),
                    self.classes == snap2.classes,
                    self.class_ids == snap2.class_ids,
                    self.class_parents == snap2.class_parents,
                    self.java_lang_object_class_id == snap2.java_lang_object_class_id,
                    self.max_class_id == snap2.max_class_id,
                    self.main_class_symbol == snap2.main_class_symbol,
                    self.tracing_enabled == snap2.tracing_enabled,
                    self.cc.class_id_values == snap2.cc.class_id_values,
                    self.cc.virtual_method_offset_values == snap2.cc.virtual_method_offset_values,
                    self.vtables == snap2.vtables,
                    self.vtable_offsets == snap2.vtable_offsets,
                    nf <= 0x1fff_ffff,
                    class_name@ == self.classes@[i as int].class_name@,
                    entries_from(
                        self.cc.static_field_offset_values.entries@,
                        old(self).cc.static_field_offset_values.entries@,
                    ),
                    self.cc.resolutions@.len() >= old(self).cc.resolutions@.len(),
                    forall|k: int| 0 <= k < old(self).cc.resolutions@.len()
                        ==> #[trigger] self.cc.resolutions@[k] == old(self).cc.resolutions@[k],
                    static_resolutions_ok(
                        self.cc.resolutions@,
                        old(self).cc.resolutions@.len() as int,
                        old(self).cc.static_field_offset_values.entries@,
                        self.classes@,
                        i as int + 1,
                    ),
                decreases nf - j,
            {
                let mut key = class_name.clone();
                key.append(".");
                key.append(self.classes[i].static_fields[j].as_str());
                let ghost pre = self.cc;
                self.cc.resolve_static_field_key(key.as_str(), (j * 8) as u32);
                proof {
                    let map0 = old(self).cc.static_field_offset_values.entries@;
                    let lo = old(self).cc.resolutions@.len() as int;
                    if !pre.static_field_offset_values.has_key(key@) {
                        assert(self.cc.static_field_offset_values
                            == pre.static_field_offset_values);
                        assert(self.cc.resolutions == pre.resolutions);
                    } else {
                        let jx = choose|jx: int|
                            0 <= jx < pre.static_field_offset_values.entries@.len()
                                && (#[trigger] pre.static_field_offset_values.entries@[jx]).0@
                                    == key@
                                && self.cc.static_field_offset_values.entries@
                                    == pre.static_field_offset_values.entries@.remove(jx)
                                && self.cc.resolutions@ == pre.resolutions@
                                    + pre.static_field_offset_values.entries@[jx].1@.map_values(
                                        |ph: PlaceholderRef| (ph, (j * 8) as u32),
                                    );
                        lemma_entries_from_remove(
                            pre.static_field_offset_values.entries@, jx, map0,
                        );
                        let ghost entry = pre.static_field_offset_values.entries@[jx];
                        assert(map0.contains(entry));
                        assert(entry.0@ == self.classes@[i as int].class_name@ + "."@
                            + self.classes@[i as int].static_fields@[j as int]@);
                        lemma_static_res_push_entry(
                            pre.resolutions@,
                            self.cc.resolutions@,
                            entry,
                            i as int,
                            j as int,
                            lo,
                            map0,
                            self.classes@,
                            i as int + 1,
                        );
                    }
                }
                j = j + 1;
            }
            i = i + 1;
        }
        Ok(())
    }

    /// Step three of linking: `java/lang/Object` is the root; every class
    /// lacking an explicit super class has the root as its parent.
    pub fn build_inheritance_tree(&mut self) -> (r: Result<(), LinkError>)
        ensures
            final(self).cc == old(self).cc,
            final(self).classes == old(self).classes,
            final(self).class_ids == old(self).class_ids,
            final(self).max_class_id == old(self).max_class_id,
            final(self).main_class_symbol == old(self).main_class_symbol,
            final(self).tracing_enabled == old(self).tracing_enabled,
            final(self).vtables == old(self).vtables,
            final(self).vtable_offsets == old(self).vtable_offsets,
            // success is owed whenever the root exists and every named
            // super class is known
            r is Ok <==> ({
                &&& (cid_lookup(old(self).class_ids@, "java/lang/Object"@) matches Some(root)
                    && (root as int) < old(self).classes@.len())
                &&& forall|i: int| 0 <= i < old(self).classes@.len()
                    ==> (match (#[trigger] old(self).classes@[i]).super_class {
                        Some(sup) => cid_lookup(old(self).class_ids@, sup@) matches Some(p)
                            && (p as int) < old(self).classes@.len(),
                        None => true,
                    })
            }),
            r is Err ==> (r == Err::<(), LinkError>(LinkError::MissingJavaLangObject)
                || r == Err::<(), LinkError>(LinkError::UnknownSuperClass)),
            r == Err::<(), LinkError>(LinkError::MissingJavaLangObject)
                <==> !(cid_lookup(old(self).class_ids@, "java/lang/Object"@) matches Some(root)
                    && (root as int) < old(self).classes@.len()),
            r is Ok ==> {
                &&& Some(final(self).java_lang_object_class_id)
                    == cid_lookup(final(self).class_ids@, "java/lang/Object"@)
                &&& (final(self).java_lang_object_class_id as int) < final(self).classes@.len()
                &&& final(self).class_parents@.len() == final(self).classes@.len()
                &&& forall|i: int| 0 <= i < final(self).classes@.len()
                    ==> (#[trigger] final(self).class_parents@[i] as int) < final(self).classes@.len()
                &&& forall|i: int| 0 <= i < final(self).classes@.len()
                    ==> #[trigger] final(self).class_parents@[i] == (match final(self).classes@[i].super_class {
                        Some(sup) => cid_lookup(final(self).class_ids@, sup@)->Some_0,
                        None => final(self).java_lang_object_class_id,
                    })
            },
    {
        let n = self.classes.len();
        let root = match self.try_class_id("java/lang/Object") {
            Some(id) => id,
            None => {
                return Err(LinkError::MissingJavaLangObject);
            },
        };
        if root as usize >= n {
            return Err(LinkError::MissingJavaLangObject);
        }
        self.java_lang_object_class_id = root;
        let mut parents: Vec<ClassID> = Vec::new();
        let mut i: usize = 0;
        while i < n
            invariant
                n == self.classes@.len(),
                i <= n,
                (root as int) < n,
                parents@.len() == i,
                Some(root) == cid_lookup(self.class_ids@, "java/lang/Object"@),
                self.cc == old(self).cc,
                self.classes == old(self).classes,
                self.class_ids == old(self).class_ids,
                self.max_class_id == old(self).max_class_id,
                self.main_class_symbol == old(self).main_class_symbol,
                self.tracing_enabled == old(self).tracing_enabled,
                self.vtables == old(self).vtables,
                self.vtable_offsets == old(self).vtable_offsets,
                self.java_lang_object_class_id == root,
                forall|k: int| 0 <= k < i ==> (#[trigger] parents@[k] as int) < n,
                forall|k: int| 0 <= k < i
                    ==> #[trigger] parents@[k] == (match self.classes@[k].super_class {
                        Some(sup) => cid_lookup(self.class_ids@, sup@)->Some_0,
                        None => root,
                    }),
                forall|k: int| 0 <= k < i
                    ==> (match (#[trigger] self.classes@[k]).super_class {
                        Some(sup) => cid_lookup(self.class_ids@, sup@) matches Some(p)
                            && (p as int) < n,
                        None => true,
                    }),
            decreases n - i,
        {
            let pid: ClassID = match &self.classes[i].super_class {
                Some(sup) => {
                    match self.try_class_id(sup.as_str()) {
                        Some(p) => p,
                        None => {
                            return Err(LinkError::UnknownSuperClass);
                        },
                    }
                },
                None => root,
            };
            if pid as usize >= n {
                return Err(LinkError::UnknownSuperClass);
            }
            parents.push(pid);
            i = i + 1;
        }
        self.class_parents = parents;
        Ok(())
    }
}

// ------------------------------------------------------------------
// V-table construction.
// ------------------------------------------------------------------

/// Sortedness of a method list by symbol.
pub open spec fn methods_sorted(ms: Seq<VirtualMethodInfo>) -> bool {
    forall|i: int, j: int|
        0 <= i < j < ms.len() ==> lex_leq(#[trigger] ms[i].symbol@, #[trigger] ms[j].symbol@)
}

/// The function a method record installs: its native hook, or the emitted
/// function under its own symbol.
pub open spec fn vt_target_of(m: VirtualMethodInfo) -> VtFn {
    match m.ptr {
        Some(h) => VtFn::Native(h),
        None => VtFn::Emitted(m.symbol),
    }
}

/// The first slot at or after `i` whose declaring symbol is `sym`.
pub open spec fn find_decl_from(table: Seq<VtSlot>, sym: Seq<char>, i: int) -> Option<int>
    decreases table.len() - i when 0 <= i <= table.len()
{
    if i >= table.len() {
        None
    } else if table[i].decl_symbol@ == sym {
        Some(i)
    } else {
        find_decl_from(table, sym, i + 1)
    }
}

/// The first slot whose declaring symbol is `sym`.
pub open spec fn find_decl(table: Seq<VtSlot>, sym: Seq<char>) -> Option<int> {
    find_decl_from(table, sym, 0)
}

proof fn lemma_find_decl_char(table: Seq<VtSlot>, sym: Seq<char>, i: int)
    requires
        0 <= i <= table.len(),
    ensures
        match find_decl_from(table, sym, i) {
            Some(j) => i <= j < table.len() && table[j].decl_symbol@ == sym
                && forall|k: int| i <= k < j ==> table[k].decl_symbol@ != sym,
            None => forall|k: int| i <= k < table.len() ==> table[k].decl_symbol@ != sym,
        },
    decreases table.len() - i,
{
    if i < table.len() && table[i].decl_symbol@ != sym {
        lemma_find_decl_char(table, sym, i + 1);
    }
}

proof fn lemma_find_decl_exact(table: Seq<VtSlot>, sym: Seq<char>, i: int, j: int)
    requires
        0 <= i <= j < table.len(),
        table[j].decl_symbol@ == sym,
        forall|k: int| i <= k < j ==> table[k].decl_symbol@ != sym,
    ensures
        find_decl_from(table, sym, i) == Some(j),
    decreases j - i,
{
    if i < j {
        lemma_find_decl_exact(table, sym, i + 1, j);
    }
}

/// Applies one virtual-method record to a v-table under construction: an
/// override replaces the inherited slot in place (keeping the declaring
/// symbol), a new method appends.
pub open spec fn vt_apply_one(table: Seq<VtSlot>, m: VirtualMethodInfo) -> Option<Seq<VtSlot>> {
    match m.overrides {
        Some(ov) => match find_decl(table, ov@) {
            Some(s) => Some(table.update(s, VtSlot { decl_symbol: table[s].decl_symbol, target: vt_target_of(m) })),
            None => None,
        },
        None => Some(table.push(VtSlot { decl_symbol: m.symbol, target: vt_target_of(m) })),
    }
}

/// Applies a method list in order.
pub open spec fn vt_apply_all(table: Seq<VtSlot>, ms: Seq<VirtualMethodInfo>) -> Option<Seq<VtSlot>>
    decreases ms.len(),
{
    if ms.len() == 0 {
        Some(table)
    } else {
        match vt_apply_one(table, ms[0]) {
            Some(t2) => vt_apply_all(t2, ms.drop_first()),
            None => None,
        }
    }
}

/// Construction never moves an inherited slot: lengths only grow, and every
/// inherited slot keeps its declaring symbol.
pub proof fn lemma_vt_apply_preserves(table: Seq<VtSlot>, ms: Seq<VirtualMethodInfo>)
    requires
        vt_apply_all(table, ms) is Some,
    ensures
        ({
            let t2 = vt_apply_all(table, ms)->Some_0;
            &&& t2.len() >= table.len()
            &&& forall|s: int| 0 <= s < table.len()
                ==> #[trigger] t2[s].decl_symbol == table[s].decl_symbol
        }),
    decreases ms.len(),
{
    if ms.len() > 0 {
        let t1 = vt_apply_one(table, ms[0])->Some_0;
        lemma_find_decl_char(table, match ms[0].overrides {
            Some(ov) => ov@,
            None => Seq::empty(),
        }, 0);
        assert(t1.len() >= table.len());
        assert(forall|s: int| 0 <= s < table.len()
            ==> #[trigger] t1[s].decl_symbol == table[s].decl_symbol);
        lemma_vt_apply_preserves(t1, ms.drop_first());
    }
}

fn min_method_index(v: &Vec<VirtualMethodInfo>, from: usize) -> (r: usize)
    requires
        from < v@.len(),
    ensures
        from <= r < v@.len(),
        forall|k: int| from <= k < v@.len() ==> lex_leq(v@[r as int].symbol@, #[trigger] v@[k].symbol@),
{
    let n = v.len();
    let mut best = from;
    let mut i = from + 1;
    proof {
        lemma_lex_irrefl(v@[from as int].symbol@);
    }
    while i < n
        invariant
            n == v@.len(),
            from <= best < n,
            from < i <= n,
            forall|k: int| from <= k < i ==> lex_leq(v@[best as int].symbol@, #[trigger] v@[k].symbol@),
        decreases n - i,
    {
        if str_lt(v[i].symbol.as_str(), v[best].symbol.as_str()) {
            proof {
                lemma_lex_irrefl(v@[i as int].symbol@);
                assert forall|k: int| from <= k < i + 1
                    implies lex_leq(v@[i as int].symbol@, #[trigger] v@[k].symbol@) by {
                    if k < i {
                        if lex_lt(v@[k].symbol@, v@[i as int].symbol@) {
                            lemma_lex_trans(v@[k].symbol@, v@[i as int].symbol@, v@[best as int].symbol@);
                        }
                    }
                }
            }
            best = i;
        }
        i = i + 1;
    }
    best
}

/// Sorts a method list by symbol; the result holds the same methods.
fn sort_virtual_methods(v: Vec<VirtualMethodInfo>) -> (r: Vec<VirtualMethodInfo>)
    ensures
        r@.to_multiset() == v@.to_multiset(),
        r@.len() == v@.len(),
        methods_sorted(r@),
{
    broadcast use vstd::seq_lib::group_to_multiset_ensures;

    let mut rest = v;
    let mut out: Vec<VirtualMethodInfo> = Vec::new();
    while rest.len() > 0
        invariant
            out@.to_multiset().add(rest@.to_multiset()) == v@.to_multiset(),
            out@.len() + rest@.len() == v@.len(),
            methods_sorted(out@),
            forall|i: int, j: int| 0 <= i < out@.len() && 0 <= j < rest@.len()
                ==> lex_leq(#[trigger] out@[i].symbol@, #[trigger] rest@[j].symbol@),
        decreases rest@.len(),
    {
        let m = min_method_index(&rest, 0);
        let ghost old_out = out@;
        let ghost old_rest = rest@;
        let c = rest.remove(m);
        out.push(c);
        proof {
            old_rest.to_multiset_ensures();
            old_out.to_multiset_ensures();
            assert(old_rest.remove(m as int).to_multiset() =~= old_rest.to_multiset().remove(old_rest[m as int]));
            assert(old_out.push(old_rest[m as int]).to_multiset() =~= old_out.to_multiset().insert(old_rest[m as int]));
            assert(old_rest.contains(old_rest[m as int]));
            assert(old_rest.to_multiset().count(old_rest[m as int]) > 0);
            assert(out@.to_multiset().add(rest@.to_multiset()) =~= v@.to_multiset());
            assert forall|i: int, j: int| 0 <= i < out@.len() && 0 <= j < rest@.len()
                implies lex_leq(#[trigger] out@[i].symbol@, #[trigger] rest@[j].symbol@) by {
                let jj = if j < m { j } else { j + 1 };
                assert(rest@[j] == old_rest[jj]);
                if i < old_out.len() {
                    assert(lex_leq(out@[i].symbol@, rest@[j].symbol@));
                } else {
                    assert(lex_leq(old_rest[m as int].symbol@, old_rest[jj].symbol@));
                }
            }
            assert forall|i: int, j: int| 0 <= i < j < out@.len()
                implies lex_leq(#[trigger] out@[i].symbol@, #[trigger] out@[j].symbol@) by {
                if j < old_out.len() {
                } else {
                    assert(out@[j] == old_rest[m as int]);
                    assert(old_rest.to_multiset().contains(old_rest[m as int]));
                }
            }
        }
    }
    proof {
        assert(rest@.to_multiset() =~= Multiset::<VirtualMethodInfo>::empty());
        assert(out@.to_multiset().add(Multiset::<VirtualMethodInfo>::empty()) =~= out@.to_multiset());
    }
    out
}

fn vt_target_exec(m: &VirtualMethodInfo) -> (r: VtFn)
    ensures
        r == vt_target_of(*m),
{
    match &m.ptr {
        Some(h) => VtFn::Native(*h),
        None => VtFn::Emitted(m.symbol.clone()),
    }
}

fn dup_vtslots(v: &Vec<VtSlot>) -> (r: Vec<VtSlot>)
    ensures
        r@ == v@,
{
    let mut out: Vec<VtSlot> = Vec::new();
    let n = v.len();
    let mut i: usize = 0;
    while i < n
        invariant
            i <= n,
            n == v@.len(),
            out@ =~= v@.subrange(0, i as int),
        decreases n - i,
    {
        let slot = &v[i];
        let target = match &slot.target {
            VtFn::Emitted(sym) => VtFn::Emitted(sym.clone()),
            VtFn::Native(h) => VtFn::Native(*h),
        };
        out.push(VtSlot { decl_symbol: slot.decl_symbol.clone(), target });
        proof {
            assert(out@ =~= v@.subrange(0, i as int + 1));
        }
        i = i + 1;
    }
    proof {
        assert(v@.subrange(0, n as int) =~= v@);
    }
    out
}

fn find_decl_exec(table: &Vec<VtSlot>, sym: &str) -> (r: Option<usize>)
    ensures
        match r {
            Some(i) => find_decl(table@, sym@) == Some(i as int),
            None => find_decl(table@, sym@) is None,
        },
{
    let n = table.len();
    let mut i: usize = 0;
    while i < n
        invariant
            i <= n,
            n == table@.len(),
            forall|k: int| 0 <= k < i ==> table@[k].decl_symbol@ != sym@,
        decreases n - i,
    {
        if table[i].decl_symbol == sym.to_owned() {
            proof {
                lemma_find_decl_exact(table@, sym@, 0, i as int);
            }
            return Some(i);
        }
        i = i + 1;
    }
    proof {
        lemma_find_decl_char(table@, sym@, 0);
        if find_decl(table@, sym@) is Some {
            let w = find_decl(table@, sym@)->Some_0;
            assert(table@[w].decl_symbol@ != sym@);
            assert(false);
        }
    }
    None
}

/// Builds one class's v-table from its parent's table and its (sorted)
/// virtual methods, resolving the v-table-slot placeholders of every newly
/// appended symbol.
fn build_class_vtable(
    cc: &mut CodegenContext,
    vtable_offsets: &mut Vec<(String, usize)>,
    parent: Vec<VtSlot>,
    methods: &Vec<VirtualMethodInfo>,
) -> (r: Result<Vec<VtSlot>, LinkError>)
    requires
        old(cc).wf(),
    ensures
        final(cc).wf(),
        final(cc).class_id_values == old(cc).class_id_values,
        final(cc).static_field_offset_values == old(cc).static_field_offset_values,
        final(cc).const_strings == old(cc).const_strings,
        final(cc).forward_vtables == old(cc).forward_vtables,
        final(cc).native_decls == old(cc).native_decls,
        // resolutions only grow, and each new one pairs a placeholder
        // registered under a declaring symbol with the slot that now
        // carries that symbol
        final(cc).resolutions@.len() >= old(cc).resolutions@.len(),
        forall|k: int| 0 <= k < old(cc).resolutions@.len()
            ==> #[trigger] final(cc).resolutions@[k] == old(cc).resolutions@[k],
        r is Err ==> (r == Err::<Vec<VtSlot>, LinkError>(LinkError::UnknownOverride)
            || r == Err::<Vec<VtSlot>, LinkError>(LinkError::CapacityExceeded)),
        (match r {
            Ok(t) => vt_apply_all(parent@, methods@) == Some(t@)
                && vtable_resolutions_ok(
                    final(cc).resolutions@,
                    old(cc).resolutions@.len() as int,
                    old(cc).virtual_method_offset_values.entries@,
                    t@,
                ),
            Err(_) => true,
        }),
{
    let ghost pv = parent@;
    let mut cur = parent;
    let nm = methods.len();
    let mut k: usize = 0;
    proof {
        assert(methods@.skip(0) =~= methods@);
        lemma_entries_from_refl(old(cc).virtual_method_offset_values.entries@);
    }
    while k < nm
        invariant
            k <= nm,
            nm == methods@.len(),
            cc.wf(),
            cc.class_id_values == old(cc).class_id_values,
            cc.static_field_offset_values == old(cc).static_field_offset_values,
            cc.const_strings == old(cc).const_strings,
            cc.forward_vtables == old(cc).forward_vtables,
            cc.native_decls == old(cc).native_decls,
            vt_apply_all(pv, methods@) == vt_apply_all(cur@, methods@.skip(k as int)),
            entries_from(
                cc.virtual_method_offset_values.entries@,
                old(cc).virtual_method_offset_values.entries@,
            ),
            cc.resolutions@.len() >= old(cc).resolutions@.len(),
            forall|q: int| 0 <= q < old(cc).resolutions@.len()
                ==> #[trigger] cc.resolutions@[q] == old(cc).resolutions@[q],
            vtable_resolutions_ok(
                cc.resolutions@,
                old(cc).resolutions@.len() as int,
                old(cc).virtual_method_offset_values.entries@,
                cur@,
            ),
        decreases nm - k,
    {
        proof {
            assert(methods@.skip(k as int)[0] == methods@[k as int]);
            assert(methods@.skip(k as int).drop_first() =~= methods@.skip(k as int + 1));
        }
        let is_override = methods[k].overrides.is_some();
        if is_override {
            let ghost old_cur = cur@;
            let ov_ref = match &methods[k].overrides {
                Some(ov) => ov,
                None => {
                    proof {
                        assert(false);
                    }
                    &methods[k].symbol
                },
            };
            let si = find_decl_exec(&cur, ov_ref.as_str());
            match si {
                Some(si) => {
                    proof {
                        lemma_find_decl_char(cur@, ov_ref@, 0);
                    }
                    let target = vt_target_exec(&methods[k]);
                    let slot = &mut cur[si];
                    slot.target = target;
                    proof {
                        assert(cur@ =~= old_cur.update(si as int, VtSlot {
                            decl_symbol: old_cur[si as int].decl_symbol,
                            target: vt_target_of(methods@[k as int]),
                        }));
                        assert(vt_apply_one(old_cur, methods@[k as int]) == Some(cur@));
                        lemma_vtable_res_stable(
                            cc.resolutions@,
                            old(cc).resolutions@.len() as int,
                            old(cc).virtual_method_offset_values.entries@,
                            old_cur,
                            cur@,
                        );
                    }
                },
                None => {
                    return Err(LinkError::UnknownOverride);
                },
            }
        } else {
            let ghost old_cur = cur@;
            let offset = cur.len();
            if offset > 0xffff_fffeusize {
                return Err(LinkError::CapacityExceeded);
            }
            let target = vt_target_exec(&methods[k]);
            cur.push(VtSlot { decl_symbol: methods[k].symbol.clone(), target });
            proof {
                assert(vt_apply_one(old_cur, methods@[k as int]) == Some(cur@));
                lemma_vtable_res_stable(
                    cc.resolutions@,
                    old(cc).resolutions@.len() as int,
                    old(cc).virtual_method_offset_values.entries@,
                    old_cur,
                    cur@,
                );
            }
            vtable_offsets.push((methods[k].symbol.clone(), offset));
            let ghost pre = *cc;
            cc.resolve_vtable_key(methods[k].symbol.as_str(), offset as u32);
            proof {
                let map0 = old(cc).virtual_method_offset_values.entries@;
                let lo = old(cc).resolutions@.len() as int;
                if !pre.virtual_method_offset_values.has_key(methods@[k as int].symbol@) {
                    assert(cc.virtual_method_offset_values == pre.virtual_method_offset_values);
                    assert(cc.resolutions == pre.resolutions);
                } else {
                    let jx = choose|jx: int|
                        0 <= jx < pre.virtual_method_offset_values.entries@.len()
                            && (#[trigger] pre.virtual_method_offset_values.entries@[jx]).0@
                                == methods@[k as int].symbol@
                            && cc.virtual_method_offset_values.entries@
                                == pre.virtual_method_offset_values.entries@.remove(jx)
                            && cc.resolutions@ == pre.resolutions@
                                + pre.virtual_method_offset_values.entries@[jx].1@.map_values(
                                    |ph: PlaceholderRef| (ph, offset as u32),
                                );
                    lemma_entries_from_remove(
                        pre.virtual_method_offset_values.entries@, jx, map0,
                    );
                    let ghost entry = pre.virtual_method_offset_values.entries@[jx];
                    assert(map0.contains(entry));
                    assert(cur@[offset as int].decl_symbol@ == entry.0@);
                    lemma_vtable_res_push_entry(
                        pre.resolutions@,
                        cc.resolutions@,
                        entry,
                        offset as int,
                        lo,
                        map0,
                        cur@,
                    );
                }
            }
        }
        k = k + 1;
    }
    proof {
        assert(methods@.skip(nm as int) =~= Seq::<VirtualMethodInfo>::empty());
    }
    Ok(cur)
}

/// Equality of everything in a class record except its virtual methods.
pub open spec fn class_shell_eq(a: CompiledClass, b: CompiledClass) -> bool {
    &&& a.class_name == b.class_name
    &&& a.static_fields == b.static_fields
    &&& a.static_methods == b.static_methods
    &&& a.instance_size == b.instance_size
    &&& a.clinit == b.clinit
    &&& a.opaque == b.opaque
    &&& a.super_class == b.super_class
}

impl CodeGen {
    /// Class `i`'s v-table was built by the construction step: its methods
    /// are sorted, and its table is its parent's table (empty for the root)
    /// with its own methods applied in order.
    pub open spec fn vt_built_ok(&self, i: int) -> bool {
        let root = self.java_lang_object_class_id as int;
        &&& self.vtables@[i] is Some
        &&& methods_sorted(self.classes@[i].virtual_methods@)
        &&& if i == root {
            vt_apply_all(Seq::empty(), self.classes@[i].virtual_methods@)
                == Some(self.vtables@[i]->Some_0@)
        } else {
            let p = self.class_parents@[i] as int;
            &&& self.vtables@[p] is Some
            &&& vt_apply_all(self.vtables@[p]->Some_0@, self.classes@[i].virtual_methods@)
                == Some(self.vtables@[i]->Some_0@)
        }
    }

    /// Slot zero of class `i`'s v-table carries the same declaring symbol as
    /// slot zero of the root's v-table.
    pub open spec fn vt_slot0_ok(&self, i: int) -> bool {
        let root = self.java_lang_object_class_id as int;
        &&& self.vtables@[root] is Some
        &&& (self.vtables@[root]->Some_0@.len() >= 1 ==> {
            &&& self.vtables@[i] is Some
            &&& self.vtables@[i]->Some_0@.len() >= 1
            &&& self.vtables@[i]->Some_0@[0].decl_symbol@
                == self.vtables@[root]->Some_0@[0].decl_symbol@
        })
    }

    /// Step four of linking: build every class's v-table by walking from the
    /// root outwards, resolving the v-table-slot placeholders of every newly
    /// appended method.
    pub fn construct_vtables(&mut self) -> (r: Result<(), LinkError>)
        requires
            old(self).cc.wf(),
            old(self).class_parents@.len() == old(self).classes@.len(),
            forall|i: int| 0 <= i < old(self).classes@.len()
                ==> (#[trigger] old(self).class_parents@[i] as int) < old(self).classes@.len(),
            old(self).classes@.len() == 0
                || (old(self).java_lang_object_class_id as int) < old(self).classes@.len(),
        ensures
            final(self).cc.wf(),
            final(self).cc.class_id_values == old(self).cc.class_id_values,
            final(self).cc.static_field_offset_values == old(self).cc.static_field_offset_values,
            final(self).cc.const_strings == old(self).cc.const_strings,
            final(self).cc.forward_vtables == old(self).cc.forward_vtables,
            final(self).cc.native_decls == old(self).cc.native_decls,
            final(self).classes@.len() == old(self).classes@.len(),
            final(self).class_parents == old(self).class_parents,
            final(self).java_lang_object_class_id == old(self).java_lang_object_class_id,
            final(self).class_ids == old(self).class_ids,
            final(self).main_class_symbol == old(self).main_class_symbol,
            final(self).tracing_enabled == old(self).tracing_enabled,
            forall|i: int| 0 <= i < final(self).classes@.len()
                ==> class_shell_eq(#[trigger] final(self).classes@[i], old(self).classes@[i])
                    && final(self).classes@[i].virtual_methods@.to_multiset()
                        == old(self).classes@[i].virtual_methods@.to_multiset(),
            r is Err ==> (r == Err::<(), LinkError>(LinkError::UnknownOverride)
                || r == Err::<(), LinkError>(LinkError::CapacityExceeded)
                || r == Err::<(), LinkError>(LinkError::InheritanceCycle)),
            r is Ok ==> {
                &&& final(self).vtables@.len() == final(self).classes@.len()
                &&& forall|i: int| 0 <= i < final(self).classes@.len()
                    ==> #[trigger] final(self).vtables@[i] is Some
                &&& forall|i: int| 0 <= i < final(self).classes@.len()
                    ==> final(self).vt_built_ok(i)
                &&& forall|i: int| 0 <= i < final(self).classes@.len()
                    ==> final(self).vt_slot0_ok(i)
            },
    {
        let n = self.classes.len();
        let mut vts: Vec<Option<Vec<VtSlot>>> = Vec::new();
        let mut z: usize = 0;
        while z < n
            invariant
                z <= n,
                vts@.len() == z,
                forall|k: int| 0 <= k < z ==> #[trigger] vts@[k] is None,
            decreases n - z,
        {
            vts.push(None);
            z = z + 1;
        }
        self.vtables = vts;
        if n == 0 {
            return Ok(());
        }
        let root = self.java_lang_object_class_id as usize;
        let mut pass: usize = 0;
        while pass < n
            invariant
                pass <= n,
                n == self.classes@.len(),
                n == old(self).classes@.len(),
                n == self.class_parents@.len(),
                self.vtables@.len() == n,
                root == self.java_lang_object_class_id as usize,
                (root as int) < n,
                self.cc.wf(),
                self.cc.class_id_values == old(self).cc.class_id_values,
                self.cc.static_field_offset_values == old(self).cc.static_field_offset_values,
                self.cc.const_strings == old(self).cc.const_strings,
                self.cc.forward_vtables == old(self).cc.forward_vtables,
                self.cc.native_decls == old(self).cc.native_decls,
                self.class_parents == old(self).class_parents,
                self.java_lang_object_class_id == old(self).java_lang_object_class_id,
                self.class_ids == old(self).class_ids,
                self.main_class_symbol == old(self).main_class_symbol,
                self.tracing_enabled == old(self).tracing_enabled,
                forall|k: int| 0 <= k < n
                    ==> (#[trigger] self.class_parents@[k] as int) < n,
                forall|k: int| 0 <= k < n
                    ==> class_shell_eq(#[trigger] self.classes@[k], old(self).classes@[k])
                        && self.classes@[k].virtual_methods@.to_multiset()
                            == old(self).classes@[k].virtual_methods@.to_multiset(),
                forall|k: int| 0 <= k < n && self.vtables@[k] is None
                    ==> #[trigger] self.classes@[k].virtual_methods
                        == old(self).classes@[k].virtual_methods,
                forall|k: int| 0 <= k < n && #[trigger] self.vtables@[k] is Some
                    ==> self.vt_built_ok(k) && self.vt_slot0_ok(k),
            decreases n - pass,
        {
            let mut i: usize = 0;
            while i < n
                invariant
                    i <= n,
                    n == self.classes@.len(),
                    n == old(self).classes@.len(),
                    n == self.class_parents@.len(),
                    self.vtables@.len() == n,
                    root == self.java_lang_object_class_id as usize,
                    (root as int) < n,
                    self.cc.wf(),
                    self.cc.class_id_values == old(self).cc.class_id_values,
                    self.cc.static_field_offset_values == old(self).cc.static_field_offset_values,
                    self.cc.const_strings == old(self).cc.const_strings,
                    self.cc.forward_vtables == old(self).cc.forward_vtables,
                    self.cc.native_decls == old(self).cc.native_decls,
                    self.class_parents == old(self).class_parents,
                    self.java_lang_object_class_id == old(self).java_lang_object_class_id,
                    self.class_ids == old(self).class_ids,
                    self.main_class_symbol == old(self).main_class_symbol,
                    self.tracing_enabled == old(self).tracing_enabled,
                    forall|k: int| 0 <= k < n
                        ==> (#[trigger] self.class_parents@[k] as int) < n,
                    forall|k: int| 0 <= k < n
                        ==> class_shell_eq(#[trigger] self.classes@[k], old(self).classes@[k])
                            && self.classes@[k].virtual_methods@.to_multiset()
                                == old(self).classes@[k].virtual_methods@.to_multiset(),
                    forall|k: int| 0 <= k < n && self.vtables@[k] is None
                        ==> #[trigger] self.classes@[k].virtual_methods
                            == old(self).classes@[k].virtual_methods,
                    forall|k: int| 0 <= k < n && #[trigger] self.vtables@[k] is Some
                        ==> self.vt_built_ok(k) && self.vt_slot0_ok(k),
                decreases n - i,
            {
                let is_unbuilt = match &self.vtables[i] {
                    Some(_) => false,
                    None => true,
                };
                let parent_ready = if i == root {
                    true
                } else {
                    let p = self.class_parents[i] as usize;
                    match &self.vtables[p] {
                        Some(_) => true,
                        None => false,
                    }
                };
                if is_unbuilt && parent_ready {
                    let ghost pre = *self;
                    let mut tmp: Vec<VirtualMethodInfo> = Vec::new();
                    {
                        let ci = &mut self.classes[i];
                        core::mem::swap(&mut tmp, &mut ci.virtual_methods);
                    }
                    let sorted_ms = sort_virtual_methods(tmp);
                    {
                        let ci = &mut self.classes[i];
                        ci.virtual_methods = sorted_ms;
                    }
                    let pt: Vec<VtSlot> = if i == root {
                        Vec::new()
                    } else {
                        let p = self.class_parents[i] as usize;
                        match &self.vtables[p] {
                            Some(t) => dup_vtslots(t),
                            None => {
                                proof {
                                    assert(false);
                                }
                                Vec::new()
                            },
                        }
                    };
                    let ghost pt_snap = pt@;
                    let built = build_class_vtable(
                        &mut self.cc,
                        &mut self.vtable_offsets,
                        pt,
                        &self.classes[i].virtual_methods,
                    );
                    match built {
                        Ok(t) => {
                            proof {
                                lemma_vt_apply_preserves(pt_snap, self.classes@[i as int].virtual_methods@);
                            }
                            self.vtables[i] = Some(t);
                            proof {
                                let rooti = root as int;
                                let ii = i as int;
                                assert forall|k: int| 0 <= k < n && #[trigger] self.vtables@[k] is Some
                                    implies self.vt_built_ok(k) && self.vt_slot0_ok(k) by {
                                    if k == ii {
                                        if ii == rooti {
                                            assert(self.vt_built_ok(k));
                                            assert(self.vt_slot0_ok(k));
                                        } else {
                                            let p = self.class_parents@[ii] as int;
                                            assert(pre.vtables@[p] is Some);
                                            assert(p != ii);
                                            assert(self.vtables@[p] == pre.vtables@[p]);
                                            assert(pre.vt_built_ok(p));
                                            assert(pre.vt_slot0_ok(p));
                                            assert(pre.vtables@[rooti] is Some);
                                            assert(rooti != ii);
                                            assert(self.vtables@[rooti] == pre.vtables@[rooti]);
                                            assert(self.vt_built_ok(k));
                                            assert(self.vt_slot0_ok(k));
                                        }
                                    } else {
                                        assert(pre.vtables@[k] is Some);
                                        assert(pre.vt_built_ok(k));
                                        assert(pre.vt_slot0_ok(k));
                                        assert(pre.vtables@[pre.java_lang_object_class_id as int] is Some);
                                        assert(rooti != ii);
                                        if k != rooti && pre.class_parents@[k] as int != ii {
                                            assert(self.vtables@[pre.class_parents@[k] as int]
                                                == pre.vtables@[pre.class_parents@[k] as int]);
                                        }
                                        if k != rooti && pre.class_parents@[k] as int == ii {
                                            assert(pre.vtables@[ii] is None);
                                            assert(false);
                                        }
                                        assert(self.vt_built_ok(k));
                                        assert(self.vt_slot0_ok(k));
                                    }
                                }
                            }
                        },
                        Err(e) => {
                            proof {
                                assert forall|k: int| 0 <= k < n
                                    implies class_shell_eq(#[trigger] self.classes@[k], old(self).classes@[k])
                                        && self.classes@[k].virtual_methods@.to_multiset()
                                            == old(self).classes@[k].virtual_methods@.to_multiset() by {
                                    if k == i as int {
                                        assert(class_shell_eq(self.classes@[k], pre.classes@[k]));
                                    }
                                }
                            }
                            return Err(e);
                        },
                    }
                }
                i = i + 1;
            }
            pass = pass + 1;
        }
        let mut i: usize = 0;
        while i < n
            invariant
                i <= n,
                n == self.classes@.len(),
                n == old(self).classes@.len(),
                self.vtables@.len() == n,
                self.cc.wf(),
                self.cc.class_id_values == old(self).cc.class_id_values,
                self.cc.static_field_offset_values == old(self).cc.static_field_offset_values,
                self.cc.const_strings == old(self).cc.const_strings,
                self.cc.forward_vtables == old(self).cc.forward_vtables,
                self.cc.native_decls == old(self).cc.native_decls,
                self.class_parents == old(self).class_parents,
                self.java_lang_object_class_id == old(self).java_lang_object_class_id,
                self.class_ids == old(self).class_ids,
                self.main_class_symbol == old(self).main_class_symbol,
                self.tracing_enabled == old(self).tracing_enabled,
                forall|k: int| 0 <= k < n
                    ==> class_shell_eq(#[trigger] self.classes@[k], old(self).classes@[k])
                        && self.classes@[k].virtual_methods@.to_multiset()
                            == old(self).classes@[k].virtual_methods@.to_multiset(),
                forall|k: int| 0 <= k < n && #[trigger] self.vtables@[k] is Some
                    ==> self.vt_built_ok(k) && self.vt_slot0_ok(k),
                forall|k: int| 0 <= k < i ==> #[trigger] self.vtables@[k] is Some,
            decreases n - i,
        {
            match &self.vtables[i] {
                Some(_) => {},
                None => {
                    return Err(LinkError::InheritanceCycle);
                },
            }
            i = i + 1;
        }
        Ok(())
    }
}

/// Allocates a fresh SSA value number.
fn alloc_value(next: &mut u32) -> (r: Result<ValueId, LinkError>)
    ensures
        match r {
            Ok(v) => v == *old(next) && *final(next) == *old(next) + 1
                && *old(next) < 0xffff_ffff,
            Err(e) => *final(next) == *old(next) && e == LinkError::CapacityExceeded
                && *old(next) == 0xffff_ffff,
        },
{
    if *next == 0xffff_ffffu32 {
        return Err(LinkError::CapacityExceeded);
    }
    let v = *next;
    *next = *next + 1;
    Ok(v)
}

/// The six-instruction group the synthetic entry point emits for class `c`:
/// its identifier, static-field size, instance size, v-table address and
/// optional initializer are materialized and handed to `NewClassObject`.
pub open spec fn main_alloc_entry(insts: Seq<IrInst>, classes: Seq<CompiledClass>, c: int) -> bool {
    &&& (insts[6 * c] matches IrInst::ConstI32 { dest, value }
        && dest == (2 + 5 * c) as u32 && value == c as i32)
    &&& (insts[6 * c + 1] matches IrInst::ConstI32 { dest, .. } && dest == (3 + 5 * c) as u32)
    &&& (insts[6 * c + 2] matches IrInst::ConstI32 { dest, .. } && dest == (4 + 5 * c) as u32)
    &&& (insts[6 * c + 3] matches IrInst::VtableAddr { dest, class_name }
        && dest == (5 + 5 * c) as u32 && class_name@ == classes[c].class_name@)
    &&& ((insts[6 * c + 4] matches IrInst::FunctionAddr { dest, symbol }
        && dest == (6 + 5 * c) as u32 && symbol@ == classes[c].class_name@ + ".clinit"@)
        || insts[6 * c + 4] == (IrInst::ConstNull { dest: (6 + 5 * c) as u32 }))
    &&& (insts[6 * c + 5] matches IrInst::CallRuntime { dest, callee, args }
        && dest is None && callee == RuntimeFn::NewClassObject && args@.len() == 6
        && args@[0] == 0u32 && args@[1] == (2 + 5 * c) as u32 && args@[2] == (3 + 5 * c) as u32
        && args@[3] == (4 + 5 * c) as u32 && args@[4] == (5 + 5 * c) as u32
        && args@[5] == (6 + 5 * c) as u32)
}

/// The three-instruction group the synthetic entry point emits for class `c`
/// of `n`: its identifier and the initialization flag are materialized and
/// handed to `GetClassObject`, in ascending identifier order.
pub open spec fn main_barrier_entry(insts: Seq<IrInst>, n: int, c: int) -> bool {
    &&& (insts[6 * n + 3 * c] matches IrInst::ConstI32 { dest, value }
        && dest == (2 + 5 * n + 2 * c) as u32 && value == c as i32)
    &&& (insts[6 * n + 3 * c + 1] matches IrInst::ConstI32 { dest, value }
        && dest == (3 + 5 * n + 2 * c) as u32 && value == 1i32)
    &&& (insts[6 * n + 3 * c + 2] matches IrInst::CallRuntime { dest, callee, args }
        && dest is None && callee == RuntimeFn::GetClassObject && args@.len() == 3
        && args@[0] == 0u32 && args@[1] == (2 + 5 * n + 2 * c) as u32
        && args@[2] == (3 + 5 * n + 2 * c) as u32)
}

/// The whole shape of the synthetic entry point over the linked classes: one
/// block that allocates a class object per class, runs the initialization
/// barrier over every class in identifier order, converts the host
/// arguments, and tail-calls the user entry point.
pub open spec fn synthetic_main_ok(f: IrFunction, classes: Seq<CompiledClass>, main_sym: Seq<char>) -> bool {
    let n = classes.len() as int;
    let insts = f.blocks@[0].insts@;
    &&& f.symbol@ == "main"@
    &&& f.is_static
    &&& f.blocks@.len() == 1
    &&& f.blocks@[0].addr == 0
    &&& f.blocks@[0].phis@.len() == 0
    &&& (f.blocks@[0].term matches Some(Terminator::Ret { value }) && value is None)
    &&& insts.len() == 9 * n + 2
    &&& (forall|c: int| 0 <= c < n ==> #[trigger] main_alloc_entry(insts, classes, c))
    &&& (forall|c: int| 0 <= c < n ==> #[trigger] main_barrier_entry(insts, n, c))
    &&& (insts[9 * n] matches IrInst::CallRuntime { dest, callee, args }
        && dest == Some((2 + 7 * n) as u32) && callee == RuntimeFn::AllocateArgs
        && args@.len() == 2 && args@[0] == 0u32 && args@[1] == 1u32)
    &&& (insts[9 * n + 1] matches IrInst::CallDirect { dest, symbol, args }
        && dest is None && symbol@ == main_sym && args@.len() == 2
        && args@[0] == 0u32 && args@[1] == (2 + 7 * n) as u32)
}

/// Whether any function still holds an unresolved placeholder instruction.
pub open spec fn program_has_placeholder(fns: Seq<IrFunction>) -> bool {
    exists|f: int, b: int, k: int|
        0 <= f < fns.len() && 0 <= b < fns[f].blocks@.len() && 0 <= k < fns[f].blocks@[b].insts@.len()
            && (#[trigger] fns[f].blocks@[b].insts@[k]) is Placeholder
}

impl CodeGen {
    /// Whether the user entry point is available, as an emitted function or
    /// as a declared native one.
    pub open spec fn main_symbol_present(self) -> bool {
        (exists|f: int| 0 <= f < self.cc.functions@.len()
            && (#[trigger] self.cc.functions@[f].symbol)@ == self.main_class_symbol@)
        || (exists|f: int| 0 <= f < self.cc.native_decls@.len()
            && (#[trigger] self.cc.native_decls@[f].0)@ == self.main_class_symbol@)
    }

    /// Whether `symbol` names an emitted function.
    fn has_emitted_function(&self, symbol: &str) -> (r: bool)
        ensures
            r <==> exists|f: int| 0 <= f < self.cc.functions@.len()
                && (#[trigger] self.cc.functions@[f].symbol)@ == symbol@,
    {
        let n = self.cc.functions.len();
        let mut f: usize = 0;
        while f < n
            invariant
                forall|k: int| 0 <= k < f
                    ==> (#[trigger] self.cc.functions@[k].symbol)@ != symbol@,
                f <= n,
                n == self.cc.functions@.len(),
            decreases n - f,
        {
            if self.cc.functions[f].symbol == symbol.to_owned() {
                return true;
            }
            f = f + 1;
        }
        false
    }

    /// Whether `symbol` names a declared native function.
    fn has_native_decl(&self, symbol: &str) -> (r: bool)
        ensures
            r <==> exists|f: int| 0 <= f < self.cc.native_decls@.len()
                && (#[trigger] self.cc.native_decls@[f].0)@ == symbol@,
    {
        let n = self.cc.native_decls.len();
        let mut f: usize = 0;
        while f < n
            invariant
                forall|k: int| 0 <= k < f
                    ==> (#[trigger] self.cc.native_decls@[k].0)@ != symbol@,
                f <= n,
                n == self.cc.native_decls@.len(),
            decreases n - f,
        {
            if self.cc.native_decls[f].0 == symbol.to_owned() {
                return true;
            }
            f = f + 1;
        }
        false
    }

    /// Step five of linking: emit the synthetic `main`, which allocates all
    /// class objects, runs the initialization barrier over every class in
    /// identifier order, converts the host arguments, and calls the user
    /// entry point.
    #[verifier::rlimit(100)]
    pub fn compile_main_function(&mut self) -> (r: Result<(), LinkError>)
        requires
            old(self).cc.wf(),
        ensures
            final(self).cc.wf(),
            final(self).cc.class_id_values == old(self).cc.class_id_values,
            final(self).cc.static_field_offset_values == old(self).cc.static_field_offset_values,
            final(self).cc.virtual_method_offset_values == old(self).cc.virtual_method_offset_values,
            final(self).cc.resolutions == old(self).cc.resolutions,
            final(self).classes == old(self).classes,
            final(self).class_parents == old(self).class_parents,
            final(self).java_lang_object_class_id == old(self).java_lang_object_class_id,
            final(self).class_ids == old(self).class_ids,
            final(self).main_class_symbol == old(self).main_class_symbol,
            final(self).tracing_enabled == old(self).tracing_enabled,
            final(self).vtables == old(self).vtables,
            final(self).vtable_offsets == old(self).vtable_offsets,
            r is Err ==> *final(self) == *old(self),
            // the entry point is owed exactly when every capacity bound holds
            // and the user entry point exists
            (r is Ok <==> old(self).classes@.len() <= 0x7fff_ffff
                && old(self).main_symbol_present()
                && (forall|i: int| 0 <= i < old(self).classes@.len()
                    ==> (#[trigger] old(self).classes@[i]).static_fields@.len() <= 0x1fff_ffff)
                && 7 * old(self).classes@.len() + 2 < 0xffff_ffff),
            (r == Err::<(), LinkError>(LinkError::MissingMainMethod)
                <==> old(self).classes@.len() <= 0x7fff_ffff
                    && !old(self).main_symbol_present()),
            r is Ok ==> final(self).cc.functions@
                == old(self).cc.functions@.push(final(self).cc.functions@.last())
                && synthetic_main_ok(
                    final(self).cc.functions@.last(),
                    old(self).classes@,
                    old(self).main_class_symbol@,
                ),
    {
        let n = self.classes.len();
        if n > 0x7fff_ffffusize {
            return Err(LinkError::CapacityExceeded);
        }
        let main_sym = self.main_class_symbol.clone();
        if !self.has_emitted_function(main_sym.as_str()) && !self.has_native_decl(main_sym.as_str()) {
            proof {
                assert(!self.main_symbol_present());
            }
            return Err(LinkError::MissingMainMethod);
        }
        proof {
            assert(self.main_symbol_present());
        }
        let mut next: u32 = 2;
        let mut insts: Vec<IrInst> = Vec::new();
        let isolate: ValueId = 0;
        let raw_args: ValueId = 1;
        let mut i: usize = 0;
        while i < n
            invariant
                i <= n,
                n == self.classes@.len(),
                n <= 0x7fff_ffff,
                self.cc.wf(),
                *self == *old(self),
                isolate == 0,
                raw_args == 1,
                old(self).main_symbol_present(),
                next == 2 + 5 * i,
                insts@.len() == 6 * i,
                forall|c: int| 0 <= c < i
                    ==> #[trigger] main_alloc_entry(insts@, self.classes@, c),
                forall|c: int| 0 <= c < i
                    ==> (#[trigger] self.classes@[c]).static_fields@.len() <= 0x1fff_ffff,
            decreases n - i,
        {
            let ghost pre = insts@;
            let sfs_count = self.classes[i].static_fields.len();
            if sfs_count > 0x1fff_ffffusize {
                proof {
                    assert(old(self).classes@[i as int].static_fields@.len() > 0x1fff_ffff);
                }
                return Err(LinkError::CapacityExceeded);
            }
            let v_cid = match alloc_value(&mut next) {
                Ok(v) => v,
                Err(e) => return Err(e),
            };
            insts.push(IrInst::ConstI32 { dest: v_cid, value: i as i32 });
            let v_sfs = match alloc_value(&mut next) {
                Ok(v) => v,
                Err(e) => return Err(e),
            };
            let sfs = self.classes[i].static_field_size();
            insts.push(IrInst::ConstI32 { dest: v_sfs, value: #[verifier::truncate] (sfs as i32) });
            let v_isz = match alloc_value(&mut next) {
                Ok(v) => v,
                Err(e) => return Err(e),
            };
            let isz = self.classes[i].instance_size;
            insts.push(IrInst::ConstI32 { dest: v_isz, value: #[verifier::truncate] (isz as i32) });
            let v_vt = match alloc_value(&mut next) {
                Ok(v) => v,
                Err(e) => return Err(e),
            };
            insts.push(IrInst::VtableAddr { dest: v_vt, class_name: self.classes[i].class_name.clone() });
            let mut clinit_sym = self.classes[i].class_name.clone();
            clinit_sym.append(".clinit");
            let v_cl = match alloc_value(&mut next) {
                Ok(v) => v,
                Err(e) => return Err(e),
            };
            let have_clinit = self.has_emitted_function(clinit_sym.clone().as_str())
                || self.has_native_decl(clinit_sym.clone().as_str());
            if have_clinit {
                insts.push(IrInst::FunctionAddr { dest: v_cl, symbol: clinit_sym });
            } else {
                insts.push(IrInst::ConstNull { dest: v_cl });
            }
            let mut args: Vec<ValueId> = Vec::new();
            args.push(isolate);
            args.push(v_cid);
            args.push(v_sfs);
            args.push(v_isz);
            args.push(v_vt);
            args.push(v_cl);
            let ghost argsv = args@;
            insts.push(IrInst::CallRuntime { dest: None, callee: RuntimeFn::NewClassObject, args });
            proof {
                assert(insts@.len() == 6 * i + 6);
                assert forall|c: int| 0 <= c < i + 1 implies #[trigger] main_alloc_entry(
                    insts@,
                    self.classes@,
                    c,
                ) by {
                    if c < i {
                        assert(main_alloc_entry(pre, self.classes@, c));
                        assert(insts@[6 * c] == pre[6 * c]);
                        assert(insts@[6 * c + 1] == pre[6 * c + 1]);
                        assert(insts@[6 * c + 2] == pre[6 * c + 2]);
                        assert(insts@[6 * c + 3] == pre[6 * c + 3]);
                        assert(insts@[6 * c + 4] == pre[6 * c + 4]);
                        assert(insts@[6 * c + 5] == pre[6 * c + 5]);
                    } else {
                        assert(insts@[6 * c] matches IrInst::ConstI32 { dest, value }
                            && dest == (2 + 5 * c) as u32 && value == c as i32);
                        assert(insts@[6 * c + 1] matches IrInst::ConstI32 { dest, .. }
                            && dest == (3 + 5 * c) as u32);
                        assert(insts@[6 * c + 2] matches IrInst::ConstI32 { dest, .. }
                            && dest == (4 + 5 * c) as u32);
                        assert(insts@[6 * c + 3] matches IrInst::VtableAddr { dest, class_name }
                            && dest == (5 + 5 * c) as u32
                            && class_name@ == self.classes@[c].class_name@);
                        assert((insts@[6 * c + 4] matches IrInst::FunctionAddr { dest, symbol }
                            && dest == (6 + 5 * c) as u32
                            && symbol@ == self.classes@[c].class_name@ + ".clinit"@)
                            || insts@[6 * c + 4] == (IrInst::ConstNull {
                                dest: (6 + 5 * c) as u32,
                            }));
                        assert(insts@[6 * c + 5] matches IrInst::CallRuntime { dest, callee, args }
                            && dest is None && callee == RuntimeFn::NewClassObject
                            && args@ == argsv);
                        assert(argsv.len() == 6);
                        assert(argsv[0] == 0u32);
                        assert(argsv[1] == v_cid);
                        assert(v_cid == (2 + 5 * c) as u32);
                        assert(argsv[2] == (3 + 5 * c) as u32);
                        assert(argsv[3] == (4 + 5 * c) as u32);
                        assert(argsv[4] == (5 + 5 * c) as u32);
                        assert(argsv[5] == (6 + 5 * c) as u32);
                    }
                }
            }
            i = i + 1;
        }
        // Initialization barrier, in identifier order.
        let mut i: usize = 0;
        while i < n
            invariant
                i <= n,
                n == self.classes@.len(),
                n <= 0x7fff_ffff,
                self.cc.wf(),
                *self == *old(self),
                isolate == 0,
                raw_args == 1,
                old(self).main_symbol_present(),
                next == 2 + 5 * n + 2 * i,
                insts@.len() == 6 * n + 3 * i,
                forall|c: int| 0 <= c < n
                    ==> #[trigger] main_alloc_entry(insts@, self.classes@, c),
                forall|c: int| 0 <= c < n
                    ==> (#[trigger] self.classes@[c]).static_fields@.len() <= 0x1fff_ffff,
                forall|c: int| 0 <= c < i
                    ==> #[trigger] main_barrier_entry(insts@, n as int, c),
            decreases n - i,
        {
            let ghost pre = insts@;
            let v_cid = match alloc_value(&mut next) {
                Ok(v) => v,
                Err(e) => return Err(e),
            };
            insts.push(IrInst::ConstI32 { dest: v_cid, value: i as i32 });
            let v_true = match alloc_value(&mut next) {
                Ok(v) => v,
                Err(e) => return Err(e),
            };
            insts.push(IrInst::ConstI32 { dest: v_true, value: 1 });
            let mut args: Vec<ValueId> = Vec::new();
            args.push(isolate);
            args.push(v_cid);
            args.push(v_true);
            let ghost argsv = args@;
            insts.push(IrInst::CallRuntime { dest: None, callee: RuntimeFn::GetClassObject, args });
            proof {
                assert(insts@.len() == 6 * n + 3 * i + 3);
                assert forall|c: int| 0 <= c < n implies #[trigger] main_alloc_entry(
                    insts@,
                    self.classes@,
                    c,
                ) by {
                    assert(main_alloc_entry(pre, self.classes@, c));
                    assert(insts@[6 * c] == pre[6 * c]);
                    assert(insts@[6 * c + 1] == pre[6 * c + 1]);
                    assert(insts@[6 * c + 2] == pre[6 * c + 2]);
                    assert(insts@[6 * c + 3] == pre[6 * c + 3]);
                    assert(insts@[6 * c + 4] == pre[6 * c + 4]);
                    assert(insts@[6 * c + 5] == pre[6 * c + 5]);
                }
                assert forall|c: int| 0 <= c < i + 1 implies #[trigger] main_barrier_entry(
                    insts@,
                    n as int,
                    c,
                ) by {
                    if c < i {
                        assert(main_barrier_entry(pre, n as int, c));
                        assert(insts@[6 * n + 3 * c] == pre[6 * n + 3 * c]);
                        assert(insts@[6 * n + 3 * c + 1] == pre[6 * n + 3 * c + 1]);
                        assert(insts@[6 * n + 3 * c + 2] == pre[6 * n + 3 * c + 2]);
                    } else {
                        assert(insts@[6 * n + 3 * c] matches IrInst::ConstI32 { dest, value }
                            && dest == (2 + 5 * n + 2 * c) as u32 && value == c as i32);
                        assert(insts@[6 * n + 3 * c + 1] matches IrInst::ConstI32 { dest, value }
                            && dest == (3 + 5 * n + 2 * c) as u32 && value == 1i32);
                        assert(insts@[6 * n + 3 * c + 2] matches IrInst::CallRuntime {
                            dest,
                            callee,
                            args,
                        } && dest is None && callee == RuntimeFn::GetClassObject
                            && args@ == argsv);
                        assert(argsv.len() == 3);
                        assert(argsv[0] == 0u32);
                        assert(argsv[1] == (2 + 5 * n + 2 * c) as u32);
                        assert(argsv[2] == (3 + 5 * n + 2 * c) as u32);
                    }
                }
            }
            i = i + 1;
        }
        let v_args = match alloc_value(&mut next) {
            Ok(v) => v,
            Err(e) => return Err(e),
        };
        let mut aargs: Vec<ValueId> = Vec::new();
        aargs.push(isolate);
        aargs.push(raw_args);
        let ghost pre2 = insts@;
        let ghost aargsv = aargs@;
        insts.push(IrInst::CallRuntime { dest: Some(v_args), callee: RuntimeFn::AllocateArgs, args: aargs });
        let mut margs: Vec<ValueId> = Vec::new();
        margs.push(isolate);
        margs.push(v_args);
        let ghost margsv = margs@;
        insts.push(IrInst::CallDirect { dest: None, symbol: self.main_class_symbol.clone(), args: margs });
        let ghost instsv = insts@;
        proof {
            assert(instsv.len() == 9 * n + 2);
            assert forall|c: int| 0 <= c < n implies #[trigger] main_alloc_entry(
                instsv,
                self.classes@,
                c,
            ) by {
                assert(main_alloc_entry(pre2, self.classes@, c));
                assert(instsv[6 * c] == pre2[6 * c]);
                assert(instsv[6 * c + 1] == pre2[6 * c + 1]);
                assert(instsv[6 * c + 2] == pre2[6 * c + 2]);
                assert(instsv[6 * c + 3] == pre2[6 * c + 3]);
                assert(instsv[6 * c + 4] == pre2[6 * c + 4]);
                assert(instsv[6 * c + 5] == pre2[6 * c + 5]);
            }
            assert forall|c: int| 0 <= c < n implies #[trigger] main_barrier_entry(
                instsv,
                n as int,
                c,
            ) by {
                assert(main_barrier_entry(pre2, n as int, c));
                assert(instsv[6 * n + 3 * c] == pre2[6 * n + 3 * c]);
                assert(instsv[6 * n + 3 * c + 1] == pre2[6 * n + 3 * c + 1]);
                assert(instsv[6 * n + 3 * c + 2] == pre2[6 * n + 3 * c + 2]);
            }
            assert(instsv[9 * n] matches IrInst::CallRuntime { args, .. } && args@ == aargsv);
            assert(instsv[9 * n + 1] matches IrInst::CallDirect { args, .. } && args@ == margsv);
        }
        let mut param_tys: Vec<IrType> = Vec::new();
        param_tys.push(IrType::Ptr);
        param_tys.push(IrType::Ptr);
        let mut blocks: Vec<IrBlock> = Vec::new();
        blocks.push(IrBlock { addr: 0, phis: Vec::new(), insts, term: Some(Terminator::Ret { value: None }) });
        self.cc.functions.push(IrFunction {
            symbol: "main".to_owned(),
            is_static: true,
            param_tys,
            ret_ty: None,
            blocks,
            next_value: next,
        });
        Ok(())
    }

    /// Rewrites every resolved placeholder to its concrete 32-bit constant
    /// and deletes the resolution list.
    pub fn apply_resolutions(&mut self)
        requires
            old(self).cc.wf(),
        ensures
            final(self).cc.wf(),
            final(self).cc.class_id_values == old(self).cc.class_id_values,
            final(self).cc.static_field_offset_values == old(self).cc.static_field_offset_values,
            final(self).cc.virtual_method_offset_values == old(self).cc.virtual_method_offset_values,
            final(self).classes == old(self).classes,
            final(self).class_parents == old(self).class_parents,
            final(self).java_lang_object_class_id == old(self).java_lang_object_class_id,
            final(self).class_ids == old(self).class_ids,
            final(self).main_class_symbol == old(self).main_class_symbol,
            final(self).tracing_enabled == old(self).tracing_enabled,
            final(self).vtables == old(self).vtables,
            final(self).vtable_offsets == old(self).vtable_offsets,
            final(self).cc.functions@.len() == old(self).cc.functions@.len(),
            forall|i: int| 0 <= i < final(self).cc.functions@.len()
                ==> (#[trigger] final(self).cc.functions@[i]).symbol
                    == old(self).cc.functions@[i].symbol,
            // shape is untouched, every change installs a recorded
            // resolution's constant, and no resolved placeholder survives
            functions_same_shape(old(self).cc.functions@, final(self).cc.functions@),
            functions_rewritten_ok(
                old(self).cc.functions@,
                final(self).cc.functions@,
                old(self).cc.resolutions@,
            ),
            forall|r: int| 0 <= r < old(self).cc.resolutions@.len()
                ==> placeholder_gone(
                    final(self).cc.functions@,
                    (#[trigger] old(self).cc.resolutions@[r]).0,
                ),
            final(self).cc.resolutions@.len() == 0,
    {
        let nr = self.cc.resolutions.len();
        let mut r: usize = 0;
        proof {
            assert(functions_same_shape(old(self).cc.functions@, self.cc.functions@));
            assert(functions_rewritten_ok(
                old(self).cc.functions@, self.cc.functions@, old(self).cc.resolutions@,
            ));
        }
        while r < nr
            invariant
                r <= nr,
                nr == self.cc.resolutions@.len(),
                self.cc.wf(),
                self.cc.functions@.len() == old(self).cc.functions@.len(),
                forall|i: int| 0 <= i < self.cc.functions@.len()
                    ==> (#[trigger] self.cc.functions@[i]).symbol
                        == old(self).cc.functions@[i].symbol,
                self.cc.class_id_values == old(self).cc.class_id_values,
                self.cc.static_field_offset_values == old(self).cc.static_field_offset_values,
                self.cc.virtual_method_offset_values == old(self).cc.virtual_method_offset_values,
                self.cc.resolutions == old(self).cc.resolutions,
                self.classes == old(self).classes,
                self.class_parents == old(self).class_parents,
                self.java_lang_object_class_id == old(self).java_lang_object_class_id,
                self.class_ids == old(self).class_ids,
                self.main_class_symbol == old(self).main_class_symbol,
                self.tracing_enabled == old(self).tracing_enabled,
                self.vtables == old(self).vtables,
                self.vtable_offsets == old(self).vtable_offsets,
                functions_same_shape(old(self).cc.functions@, self.cc.functions@),
                functions_rewritten_ok(
                    old(self).cc.functions@, self.cc.functions@, old(self).cc.resolutions@,
                ),
                forall|q: int| 0 <= q < r
                    ==> placeholder_gone(
                        self.cc.functions@,
                        (#[trigger] old(self).cc.resolutions@[q]).0,
                    ),
            decreases nr - r,
        {
            let ph = self.cc.resolutions[r].0;
            let value: i32 = #[verifier::truncate] (self.cc.resolutions[r].1 as i32);
            let ghost mid = self.cc.functions@;
            if ph.func < self.cc.functions.len() {
                let fi = ph.func;
                let func = &mut self.cc.functions[fi];
                let ghost mfn = mid[fi as int];
                let nb = func.blocks.len();
                let mut b: usize = 0;
                while b < nb
                    invariant
                        b <= nb,
                        nb == func.blocks@.len(),
                        nb == mfn.blocks@.len(),
                        func.symbol == mfn.symbol,
                        func.is_static == mfn.is_static,
                        func.param_tys == mfn.param_tys,
                        func.ret_ty == mfn.ret_ty,
                        func.next_value == mfn.next_value,
                        forall|bi: int| b <= bi < nb
                            ==> #[trigger] func.blocks@[bi] == mfn.blocks@[bi],
                        forall|bi: int| 0 <= bi < b ==> {
                            let ba = #[trigger] func.blocks@[bi];
                            let bm = mfn.blocks@[bi];
                            &&& ba.addr == bm.addr
                            &&& ba.phis == bm.phis
                            &&& ba.term == bm.term
                            &&& ba.insts@.len() == bm.insts@.len()
                        },
                        forall|bi: int, k: int|
                            0 <= bi < b && 0 <= k < mfn.blocks@[bi].insts@.len() ==> {
                                let ni = #[trigger] func.blocks@[bi].insts@[k];
                                let mi = mfn.blocks@[bi].insts@[k];
                                &&& (ni == mi || (mi matches IrInst::Placeholder { dest }
                                    && dest == ph.value
                                    && ni == (IrInst::ConstI32 { dest: ph.value, value: value })))
                                &&& !(ni matches IrInst::Placeholder { dest } && dest == ph.value)
                            },
                    decreases nb - b,
                {
                    let blk = &mut func.blocks[b];
                    let ghost mblk = mfn.blocks@[b as int];
                    let ni = blk.insts.len();
                    let mut k: usize = 0;
                    while k < ni
                        invariant
                            k <= ni,
                            ni == blk.insts@.len(),
                            ni == mblk.insts@.len(),
                            blk.addr == mblk.addr,
                            blk.phis == mblk.phis,
                            blk.term == mblk.term,
                            forall|kk: int| k <= kk < ni
                                ==> #[trigger] blk.insts@[kk] == mblk.insts@[kk],
                            forall|kk: int| 0 <= kk < k ==> {
                                let nii = #[trigger] blk.insts@[kk];
                                let mii = mblk.insts@[kk];
                                &&& (nii == mii || (mii matches IrInst::Placeholder { dest }
                                    && dest == ph.value
                                    && nii == (IrInst::ConstI32 { dest: ph.value, value: value })))
                                &&& !(nii matches IrInst::Placeholder { dest }
                                    && dest == ph.value)
                            },
                        decreases ni - k,
                    {
                        let hit = match &blk.insts[k] {
                            IrInst::Placeholder { dest } => *dest == ph.value,
                            _ => false,
                        };
                        if hit {
                            blk.insts[k] = IrInst::ConstI32 { dest: ph.value, value };
                        }
                        k = k + 1;
                    }
                    b = b + 1;
                }
            }
            proof {
                let res0 = old(self).cc.resolutions@;
                let fns0 = old(self).cc.functions@;
                if (ph.func as int) < mid.len() {
                    let fi = ph.func as int;
                    // shape
                    assert(functions_same_shape(fns0, self.cc.functions@)) by {
                        assert forall|f: int| 0 <= f < fns0.len() implies {
                            let a = #[trigger] fns0[f];
                            let bfn = self.cc.functions@[f];
                            &&& a.symbol == bfn.symbol
                            &&& a.is_static == bfn.is_static
                            &&& a.param_tys == bfn.param_tys
                            &&& a.ret_ty == bfn.ret_ty
                            &&& a.next_value == bfn.next_value
                            &&& a.blocks@.len() == bfn.blocks@.len()
                            &&& forall|bi: int| 0 <= bi < a.blocks@.len() ==> {
                                let ba = #[trigger] a.blocks@[bi];
                                let bb = bfn.blocks@[bi];
                                &&& ba.addr == bb.addr
                                &&& ba.phis == bb.phis
                                &&& ba.term == bb.term
                                &&& ba.insts@.len() == bb.insts@.len()
                            }
                        } by {
                            if f != fi {
                                assert(self.cc.functions@[f] == mid[f]);
                            }
                            assert(fns0[f] == fns0[f]);
                        }
                    }
                    // per-instruction change justification
                    assert(functions_rewritten_ok(fns0, self.cc.functions@, res0)) by {
                        assert forall|f: int, bi: int, k: int|
                            0 <= f < fns0.len() && 0 <= bi < fns0[f].blocks@.len()
                                && 0 <= k < fns0[f].blocks@[bi].insts@.len()
                            implies inst_change_ok(
                                (#[trigger] fns0[f].blocks@[bi].insts@[k]),
                                self.cc.functions@[f].blocks@[bi].insts@[k],
                                f as usize,
                                res0,
                            ) by {
                            assert(inst_change_ok(
                                fns0[f].blocks@[bi].insts@[k],
                                mid[f].blocks@[bi].insts@[k],
                                f as usize,
                                res0,
                            ));
                            if f == fi {
                                let mi = mid[f].blocks@[bi].insts@[k];
                                let nii = self.cc.functions@[f].blocks@[bi].insts@[k];
                                if nii != mi {
                                    assert(mi matches IrInst::Placeholder { dest }
                                        && dest == ph.value
                                        && nii == (IrInst::ConstI32 {
                                            dest: ph.value,
                                            value: value,
                                        }));
                                    assert(fns0[f].blocks@[bi].insts@[k] == mi);
                                    assert(res0[r as int].0
                                        == (PlaceholderRef { func: f as usize, value: ph.value }));
                                    assert(res0[r as int] == res0[r as int]);
                                }
                            } else {
                                assert(self.cc.functions@[f] == mid[f]);
                            }
                        }
                    }
                    // resolved placeholders stay gone, and this one is now gone
                    assert forall|q: int| 0 <= q < r + 1
                        implies placeholder_gone(
                            self.cc.functions@,
                            (#[trigger] res0[q]).0,
                        ) by {
                        let qp = res0[q].0;
                        if (qp.func as int) < self.cc.functions@.len() {
                            assert forall|bi: int, k: int|
                                0 <= bi < self.cc.functions@[qp.func as int].blocks@.len()
                                    && 0 <= k < self.cc.functions@[
                                        qp.func as int
                                    ].blocks@[bi].insts@.len()
                                implies !((#[trigger] self.cc.functions@[
                                    qp.func as int
                                ].blocks@[bi].insts@[k]) matches IrInst::Placeholder { dest }
                                    && dest == qp.value) by {
                                if q < r {
                                    if qp.func as int == fi {
                                        let mi = mid[fi].blocks@[bi].insts@[k];
                                        assert(!(mi matches IrInst::Placeholder { dest }
                                            && dest == qp.value));
                                    } else {
                                        assert(self.cc.functions@[qp.func as int]
                                            == mid[qp.func as int]);
                                        assert(!(mid[qp.func as int].blocks@[bi].insts@[k]
                                            matches IrInst::Placeholder { dest }
                                            && dest == qp.value));
                                    }
                                } else {
                                    assert(qp == ph);
                                }
                            }
                        }
                    }
                } else {
                    assert forall|q: int| 0 <= q < r + 1
                        implies placeholder_gone(
                            self.cc.functions@,
                            (#[trigger] old(self).cc.resolutions@[q]).0,
                        ) by {
                        if q == r {
                            assert(old(self).cc.resolutions@[q].0 == ph);
                            assert((ph.func as int) >= self.cc.functions@.len());
                        }
                    }
                }
            }
            r = r + 1;
        }
        self.cc.resolutions = Vec::new();
    }

    /// Whether any emitted function still holds a placeholder.
    pub fn scan_has_placeholder(&self) -> (r: bool)
        ensures
            !r ==> !program_has_placeholder(self.cc.functions@),
    {
        let nf = self.cc.functions.len();
        let mut f: usize = 0;
        while f < nf
            invariant
                f <= nf,
                nf == self.cc.functions@.len(),
                forall|ff: int, b: int, k: int|
                    0 <= ff < f && 0 <= b < self.cc.functions@[ff].blocks@.len()
                        && 0 <= k < self.cc.functions@[ff].blocks@[b].insts@.len()
                        ==> !((#[trigger] self.cc.functions@[ff].blocks@[b].insts@[k]) is Placeholder),
            decreases nf - f,
        {
            let func = &self.cc.functions[f];
            let nb = func.blocks.len();
            let mut b: usize = 0;
            while b < nb
                invariant
                    b <= nb,
                    nb == func.blocks@.len(),
                    forall|bb: int, k: int|
                        0 <= bb < b && 0 <= k < func.blocks@[bb].insts@.len()
                            ==> !((#[trigger] func.blocks@[bb].insts@[k]) is Placeholder),
                decreases nb - b,
            {
                let blk = &func.blocks[b];
                let ni = blk.insts.len();
                let mut k: usize = 0;
                while k < ni
                    invariant
                        k <= ni,
                        ni == blk.insts@.len(),
                        forall|kk: int| 0 <= kk < k
                            ==> !((#[trigger] blk.insts@[kk]) is Placeholder),
                    decreases ni - k,
                {
                    match &blk.insts[k] {
                        IrInst::Placeholder { .. } => {
                            return true;
                        },
                        _ => {},
                    }
                    k = k + 1;
                }
                b = b + 1;
            }
            f = f + 1;
        }
        false
    }

    /// Links everything: assigns class identifiers, lays out static fields,
    /// builds the inheritance tree and the v-tables, emits the synthetic
    /// `main`, and resolves every placeholder.  After a successful link no
    /// placeholder remains registered in any of the three multimaps and no
    /// placeholder instruction remains in the emitted program.
    pub fn done_compilation(&mut self) -> (r: Result<(), LinkError>)
        requires
            old(self).cc.wf(),
        ensures
            final(self).cc.wf(),
            r is Ok ==> {
                &&& final(self).cc.class_id_values.entries@.len() == 0
                &&& final(self).cc.static_field_offset_values.entries@.len() == 0
                &&& final(self).cc.virtual_method_offset_values.entries@.len() == 0
                &&& !program_has_placeholder(final(self).cc.functions@)
                &&& exists|i: int| 0 <= i < final(self).cc.functions@.len()
                    && (#[trigger] final(self).cc.functions@[i]).symbol@ == "main"@
                &&& classes_sorted(final(self).classes@)
                &&& final(self).vtables@.len() == final(self).classes@.len()
                &&& final(self).class_parents@.len() == final(self).classes@.len()
                &&& forall|i: int| 0 <= i < final(self).classes@.len()
                    ==> (#[trigger] final(self).class_parents@[i] as int) < final(self).classes@.len()
                &&& (final(self).java_lang_object_class_id as int) < final(self).classes@.len()
                    || final(self).classes@.len() == 0
                &&& forall|i: int| 0 <= i < final(self).classes@.len()
                    ==> final(self).vt_built_ok(i)
                &&& forall|i: int| 0 <= i < final(self).classes@.len()
                    ==> final(self).vt_slot0_ok(i)
            },
    {
        match self.assign_class_ids() {
            Ok(()) => {},
            Err(e) => return Err(e),
        }
        let ghost st_a = *self;
        match self.resolve_static_field_offsets() {
            Ok(()) => {},
            Err(e) => return Err(e),
        }
        let ghost st_b = *self;
        proof {
            assert forall|i: int, j: int| 0 <= i < j < self.classes@.len()
                implies lex_leq(#[trigger] self.classes@[i].class_name@, #[trigger] self.classes@[j].class_name@) by {
                assert(st_b.classes@[i].class_name@ == st_a.classes@[i].class_name@);
                assert(st_b.classes@[j].class_name@ == st_a.classes@[j].class_name@);
                assert(lex_leq(st_a.classes@[i].class_name@, st_a.classes@[j].class_name@));
            }
        }
        match self.build_inheritance_tree() {
            Ok(()) => {},
            Err(e) => return Err(e),
        }
        let ghost st_c = *self;
        match self.construct_vtables() {
            Ok(()) => {},
            Err(e) => return Err(e),
        }
        let ghost st_d = *self;
        proof {
            assert forall|i: int, j: int| 0 <= i < j < self.classes@.len()
                implies lex_leq(#[trigger] self.classes@[i].class_name@, #[trigger] self.classes@[j].class_name@) by {
                assert(class_shell_eq(st_d.classes@[i], st_c.classes@[i]));
                assert(class_shell_eq(st_d.classes@[j], st_c.classes@[j]));
                assert(lex_leq(st_c.classes@[i].class_name@, st_c.classes@[j].class_name@));
            }
        }
        match self.compile_main_function() {
            Ok(()) => {},
            Err(e) => return Err(e),
        }
        let ghost st_e = *self;
        self.apply_resolutions();
        proof {
            let n = self.cc.functions@.len() as int;
            assert(st_e.cc.functions@[n - 1].symbol@ == "main"@);
            assert(self.cc.functions@[n - 1].symbol == st_e.cc.functions@[n - 1].symbol);
            assert(classes_sorted(self.classes@)) by {
                assert(self.classes == st_d.classes);
                assert(classes_sorted(st_d.classes@));
            }
            assert forall|i: int| 0 <= i < self.classes@.len()
                implies self.vt_built_ok(i) && self.vt_slot0_ok(i) by {
                assert(st_d.vt_built_ok(i));
                assert(st_d.vt_slot0_ok(i));
                assert(self.classes == st_d.classes);
                assert(self.vtables == st_d.vtables);
                assert(self.class_parents == st_d.class_parents);
                assert(self.java_lang_object_class_id == st_d.java_lang_object_class_id);
            }
        }
        let maps_empty = self.cc.class_id_values.is_empty()
            && self.cc.static_field_offset_values.is_empty()
            && self.cc.virtual_method_offset_values.is_empty();
        if !maps_empty {
            return Err(LinkError::UnresolvedPlaceholder);
        }
        if self.scan_has_placeholder() {
            return Err(LinkError::UnresolvedPlaceholder);
        }
        Ok(())
    }

    /// Hands the linked program to the backend collaborator: the interned
    /// strings, the native declarations and the emitted functions exactly as
    /// accumulated, and — once every v-table is built — the v-table globals
    /// in class-identifier order.
    pub fn into_program(self) -> (r: IrProgram)
        ensures
            r.const_strings == self.cc.const_strings,
            r.native_decls == self.cc.native_decls,
            r.functions == self.cc.functions,
            (self.vtables@.len() == self.classes@.len() && (forall|i: int|
                0 <= i < self.vtables@.len() ==> (#[trigger] self.vtables@[i]) is Some))
                ==> r.vtables@.len() == self.classes@.len() && (forall|i: int|
                    0 <= i < r.vtables@.len()
                        ==> (#[trigger] r.vtables@[i]).0@ == self.classes@[i].class_name@
                            && r.vtables@[i].1@ == self.vtables@[i]->Some_0@),
    {
        let mut vtables: Vec<(String, Vec<VtSlot>)> = Vec::new();
        let n = self.vtables.len();
        let mut i: usize = 0;
        let cn = self.classes.len();
        while i < n
            invariant
                i <= n,
                n == self.vtables@.len(),
                cn == self.classes@.len(),
                (n == cn && (forall|k: int| 0 <= k < n
                    ==> (#[trigger] self.vtables@[k]) is Some))
                    ==> vtables@.len() == i && (forall|k: int| 0 <= k < i
                        ==> (#[trigger] vtables@[k]).0@ == self.classes@[k].class_name@
                            && vtables@[k].1@ == self.vtables@[k]->Some_0@),
            decreases n - i,
        {
            if i < cn {
                match &self.vtables[i] {
                    Some(t) => {
                        let name = self.classes[i].class_name.clone();
                        let slots = dup_vtslots(t);
                        vtables.push((name, slots));
                    },
                    None => {},
                }
            }
            i = i + 1;
        }
        IrProgram {
            const_strings: self.cc.const_strings,
            native_decls: self.cc.native_decls,
            functions: self.cc.functions,
            vtables,
        }
    }
}

impl CodeGen {
    /// Compiles one parsed class: analyzes and lowers every method and adds
    /// the resulting class record.
    pub fn compile(&mut self, class: &crate::classfile::ClassModel) -> (r: Result<
        (),
        crate::codegen::codegen_class::JitError,
    >)
        requires
            old(self).cc.wf(),
        ensures
            final(self).cc.wf(),
            final(self).class_ids == old(self).class_ids,
            final(self).main_class_symbol == old(self).main_class_symbol,
            final(self).tracing_enabled == old(self).tracing_enabled,
            r is Ok ==> final(self).classes@.len() == old(self).classes@.len() + 1,
    {
        let c = match crate::codegen::codegen_class::compile_class(&mut self.cc, class, self.tracing_enabled) {
            Ok(c) => c,
            Err(e) => return Err(e),
        };
        self.classes.push(c);
        Ok(())
    }
}

// ------------------------------------------------------------------
// Laws of the linker.
// ------------------------------------------------------------------

/// Class-identifier assignment orders identifiers exactly as names: with
/// distinct names, position (= identifier) `i` precedes `j` exactly when
/// name `i` precedes name `j`.  Together with the multiset preservation of
/// `assign_class_ids` this makes the assignment a permutation of `0..n`.
pub proof fn lemma_class_id_order(cs: Seq<CompiledClass>)
    requires
        classes_sorted(cs),
        forall|i: int, j: int| 0 <= i < cs.len() && 0 <= j < cs.len() && i != j
            ==> #[trigger] cs[i].class_name@ != #[trigger] cs[j].class_name@,
    ensures
        forall|i: int, j: int| 0 <= i < cs.len() && 0 <= j < cs.len()
            ==> (i < j <==> lex_lt(#[trigger] cs[i].class_name@, #[trigger] cs[j].class_name@)),
{
    assert forall|i: int, j: int| 0 <= i < cs.len() && 0 <= j < cs.len()
        implies (i < j <==> lex_lt(#[trigger] cs[i].class_name@, #[trigger] cs[j].class_name@)) by {
        if i < j {
            if !lex_lt(cs[i].class_name@, cs[j].class_name@) {
                lemma_lex_total(cs[i].class_name@, cs[j].class_name@);
            }
        } else if i == j {
            lemma_lex_irrefl(cs[i].class_name@);
        } else {
            if !lex_lt(cs[j].class_name@, cs[i].class_name@) {
                lemma_lex_total(cs[j].class_name@, cs[i].class_name@);
            }
            if lex_lt(cs[i].class_name@, cs[j].class_name@) {
                lemma_lex_trans(cs[i].class_name@, cs[j].class_name@, cs[i].class_name@);
                lemma_lex_irrefl(cs[i].class_name@);
            }
        }
    }
}

/// Decl-preserving table growth keeps every successful first-match lookup.
proof fn lemma_find_decl_stable(t: Seq<VtSlot>, t2: Seq<VtSlot>, sym: Seq<char>, s: int)
    requires
        t2.len() >= t.len(),
        forall|i: int| 0 <= i < t.len() ==> #[trigger] t2[i].decl_symbol == t[i].decl_symbol,
        find_decl(t, sym) == Some(s),
    ensures
        find_decl(t2, sym) == Some(s),
{
    lemma_find_decl_char(t, sym, 0);
    assert(t2[s].decl_symbol@ == sym);
    assert forall|k: int| 0 <= k < s implies t2[k].decl_symbol@ != sym by {
        assert(t[k].decl_symbol@ != sym);
    }
    lemma_find_decl_exact(t2, sym, 0, s);
}

/// A slot that no method overrides is inherited unchanged: after applying
/// the whole method list, slot `s` still holds exactly what the parent's
/// table held.
pub proof fn lemma_vt_slot_inherited(table: Seq<VtSlot>, ms: Seq<VirtualMethodInfo>, s: int)
    requires
        vt_apply_all(table, ms) is Some,
        0 <= s < table.len(),
        forall|j: int| 0 <= j < ms.len()
            ==> !((#[trigger] ms[j].overrides) matches Some(o) && o@ == table[s].decl_symbol@),
    ensures
        vt_apply_all(table, ms)->Some_0.len() >= table.len(),
        vt_apply_all(table, ms)->Some_0[s] == table[s],
    decreases ms.len(),
{
    lemma_vt_apply_preserves(table, ms);
    if ms.len() > 0 {
        let t1 = vt_apply_one(table, ms[0])->Some_0;
        match ms[0].overrides {
            Some(ov) => {
                lemma_find_decl_char(table, ov@, 0);
                let s2 = find_decl(table, ov@)->Some_0;
                assert(table[s2].decl_symbol@ == ov@);
                assert(s2 != s);
                assert(t1[s] == table[s]);
            },
            None => {
                assert(t1[s] == table[s]);
            },
        }
        assert forall|j: int| 0 <= j < ms.drop_first().len()
            implies !((#[trigger] ms.drop_first()[j].overrides) matches Some(o)
                && o@ == t1[s].decl_symbol@) by {
            assert(ms.drop_first()[j] == ms[j + 1]);
        }
        lemma_vt_slot_inherited(t1, ms.drop_first(), s);
    }
}

/// An override is installed at the slot of its target symbol: the last
/// method of the list overriding that symbol determines what the slot
/// finally holds, and the slot keeps its declaring symbol.  Together with
/// `lemma_vt_slot_inherited` this pins every slot to the override installed
/// at the most derived class, else the inherited definition.
pub proof fn lemma_vt_override_installs(table: Seq<VtSlot>, ms: Seq<VirtualMethodInfo>, k: int, s: int)
    requires
        vt_apply_all(table, ms) is Some,
        0 <= k < ms.len(),
        ms[k].overrides is Some,
        find_decl(table, ms[k].overrides->Some_0@) == Some(s),
        forall|j: int| k < j < ms.len()
            ==> !((#[trigger] ms[j].overrides) matches Some(o)
                && o@ == ms[k].overrides->Some_0@),
    ensures
        0 <= s < table.len(),
        vt_apply_all(table, ms)->Some_0[s].target == vt_target_of(ms[k]),
        vt_apply_all(table, ms)->Some_0[s].decl_symbol == table[s].decl_symbol,
    decreases ms.len(),
{
    let ov = ms[k].overrides->Some_0;
    lemma_find_decl_char(table, ov@, 0);
    let t1 = vt_apply_one(table, ms[0])->Some_0;
    if k == 0 {
        assert(t1[s].target == vt_target_of(ms[0]));
        assert(t1[s].decl_symbol == table[s].decl_symbol);
        assert(t1[s].decl_symbol@ == ov@);
        assert forall|j: int| 0 <= j < ms.drop_first().len()
            implies !((#[trigger] ms.drop_first()[j].overrides) matches Some(o)
                && o@ == t1[s].decl_symbol@) by {
            assert(ms.drop_first()[j] == ms[j + 1]);
        }
        lemma_vt_slot_inherited(t1, ms.drop_first(), s);
    } else {
        // Applying the first method keeps the first-match slot of `ov`.
        match ms[0].overrides {
            Some(o0) => {
                lemma_find_decl_char(table, o0@, 0);
            },
            None => {},
        }
        assert forall|i: int| 0 <= i < table.len()
            implies #[trigger] t1[i].decl_symbol == table[i].decl_symbol by {}
        lemma_find_decl_stable(table, t1, ov@, s);
        assert(ms.drop_first()[k - 1] == ms[k]);
        assert forall|j: int| k - 1 < j < ms.drop_first().len()
            implies !((#[trigger] ms.drop_first()[j].overrides) matches Some(o)
                && o@ == ms.drop_first()[k - 1].overrides->Some_0@) by {
            assert(ms.drop_first()[j] == ms[j + 1]);
        }
        lemma_vt_override_installs(t1, ms.drop_first(), k - 1, s);
        assert(t1[s].decl_symbol == table[s].decl_symbol);
    }
}

/// Slot zero of the root's v-table is its first declared method, and every
/// later method of the root leaves slot zero's declaring symbol in place;
/// with `vt_slot0_ok` this makes slot zero carry the root's first declared
/// symbol in every class's v-table.
pub proof fn lemma_vtable_slot_zero(ms: Seq<VirtualMethodInfo>, table0: Seq<VtSlot>)
    requires
        vt_apply_all(Seq::empty(), ms) == Some(table0),
        ms.len() >= 1,
    ensures
        table0.len() >= 1,
        table0[0].decl_symbol == ms[0].symbol,
{
    let e: Seq<VtSlot> = Seq::empty();
    match ms[0].overrides {
        Some(ov) => {
            assert(find_decl(e, ov@) is None);
            assert(false);
        },
        None => {},
    }
    let t1 = vt_apply_one(e, ms[0])->Some_0;
    assert(t1[0].decl_symbol == ms[0].symbol);
    lemma_vt_apply_preserves(t1, ms.drop_first());
}

/// The `k`-th ancestor of class `c` under the parent relation.
pub open spec fn ancestor(parents: Seq<ClassID>, c: int, k: nat) -> int
    decreases k,
{
    if k == 0 {
        c
    } else {
        parents[ancestor(parents, c, (k - 1) as nat)] as int
    }
}

proof fn lemma_ancestor_shift(parents: Seq<ClassID>, c: int, k: nat)
    requires
        k >= 1,
        0 <= c < parents.len(),
        forall|i: int| 0 <= i < parents.len() ==> (#[trigger] parents[i] as int) < parents.len(),
    ensures
        ancestor(parents, c, k) == ancestor(parents, parents[c] as int, (k - 1) as nat),
    decreases k,
{
    assert(ancestor(parents, c, 0nat) == c);
    assert(ancestor(parents, parents[c] as int, 0nat) == parents[c] as int);
    if k > 1 {
        lemma_ancestor_shift(parents, c, (k - 1) as nat);
        lemma_ancestor_bound(parents, c, (k - 1) as nat);
        assert(ancestor(parents, parents[c] as int, (k - 1) as nat)
            == parents[ancestor(parents, parents[c] as int, (k - 2) as nat)] as int);
    }
}

proof fn lemma_ancestor_bound(parents: Seq<ClassID>, c: int, k: nat)
    requires
        0 <= c < parents.len(),
        forall|i: int| 0 <= i < parents.len() ==> (#[trigger] parents[i] as int) < parents.len(),
    ensures
        0 <= ancestor(parents, c, k) < parents.len(),
    decreases k,
{
    if k > 0 {
        lemma_ancestor_bound(parents, c, (k - 1) as nat);
    }
}

/// Every class's v-table was built by applying its own (sorted) methods to
/// its parent's table; the root's to the empty table.
pub open spec fn vt_chain_built(classes: Seq<CompiledClass>, parents: Seq<ClassID>, vts: Seq<Seq<VtSlot>>, root: int) -> bool {
    &&& classes.len() == parents.len()
    &&& classes.len() == vts.len()
    &&& forall|i: int| 0 <= i < classes.len() ==> (#[trigger] parents[i] as int) < classes.len()
    &&& forall|i: int| 0 <= i < classes.len()
        ==> (if i == root {
            vt_apply_all(Seq::empty(), (#[trigger] classes[i]).virtual_methods@) == Some(vts[i])
        } else {
            vt_apply_all(vts[parents[i] as int], classes[i].virtual_methods@) == Some(vts[i])
        })
}

/// The chain form of slot inheritance: when no class between `c` and its
/// `k`-th ancestor (the ancestor excluded) overrides the declaring symbol of
/// slot `s`, class `c`'s v-table holds at `s` exactly what the ancestor's
/// holds — the most derived override below the ancestor, or the original
/// definition the ancestor installed.
pub proof fn lemma_vt_slot_from_ancestor(classes: Seq<CompiledClass>, parents: Seq<ClassID>, vts: Seq<Seq<VtSlot>>, root: int, c: int, k: nat, s: int)
    requires
        vt_chain_built(classes, parents, vts, root),
        0 <= c < classes.len(),
        forall|q: nat| q < k ==> #[trigger] ancestor(parents, c, q) != root,
        0 <= s < vts[ancestor(parents, c, k)].len(),
        forall|q: nat, j: int| q < k && 0 <= j < classes[ancestor(parents, c, q)].virtual_methods@.len()
            ==> !((#[trigger] classes[ancestor(parents, c, q)].virtual_methods@[j].overrides)
                matches Some(o) && o@ == vts[ancestor(parents, c, k)][s].decl_symbol@),
    ensures
        s < vts[c].len(),
        vts[c][s] == vts[ancestor(parents, c, k)][s],
    decreases k,
{
    if k > 0 {
        let p = parents[c] as int;
        lemma_ancestor_shift(parents, c, k);
        assert(ancestor(parents, c, 0nat) == c);
        assert(c != root);
        assert forall|q: nat| q < (k - 1) as nat
            implies #[trigger] ancestor(parents, p, q) != root by {
            lemma_ancestor_shift_q(parents, c, q);
            assert(ancestor(parents, c, (q + 1) as nat) != root);
        }
        assert forall|q: nat, j: int| q < (k - 1) as nat
            && 0 <= j < classes[ancestor(parents, p, q)].virtual_methods@.len()
            implies !((#[trigger] classes[ancestor(parents, p, q)].virtual_methods@[j].overrides)
                matches Some(o) && o@ == vts[ancestor(parents, p, (k - 1) as nat)][s].decl_symbol@) by {
            lemma_ancestor_shift_q(parents, c, q);
            assert(ancestor(parents, p, q) == ancestor(parents, c, (q + 1) as nat));
        }
        lemma_vt_slot_from_ancestor(classes, parents, vts, root, p, (k - 1) as nat, s);
        // One step down: nothing in c's own methods overrides the slot.
        lemma_ancestor_bound(parents, c, k);
        assert(vts[p][s] == vts[ancestor(parents, c, k)][s]);
        assert forall|j: int| 0 <= j < classes[c].virtual_methods@.len()
            implies !((#[trigger] classes[c].virtual_methods@[j].overrides) matches Some(o)
                && o@ == vts[p][s].decl_symbol@) by {
            assert(ancestor(parents, c, 0nat) == c);
            assert(!((classes[ancestor(parents, c, 0nat)].virtual_methods@[j].overrides)
                matches Some(o) && o@ == vts[ancestor(parents, c, k)][s].decl_symbol@));
        }
        lemma_vt_slot_inherited(vts[p], classes[c].virtual_methods@, s);
        lemma_vt_apply_preserves(vts[p], classes[c].virtual_methods@);
    }
}

/// `ancestor` one step in from either end.
proof fn lemma_ancestor_shift_q(parents: Seq<ClassID>, c: int, q: nat)
    requires
        0 <= c < parents.len(),
        forall|i: int| 0 <= i < parents.len() ==> (#[trigger] parents[i] as int) < parents.len(),
    ensures
        ancestor(parents, parents[c] as int, q) == ancestor(parents, c, (q + 1) as nat),
    decreases q,
{
    assert(ancestor(parents, c, 0nat) == c);
    assert(ancestor(parents, parents[c] as int, 0nat) == parents[c] as int);
    assert(ancestor(parents, c, 1nat) == parents[ancestor(parents, c, 0nat)] as int);
    if q > 0 {
        lemma_ancestor_shift_q(parents, c, (q - 1) as nat);
        lemma_ancestor_bound(parents, c, q);
        assert(ancestor(parents, c, (q + 1) as nat) == parents[ancestor(parents, c, q)] as int);
    }
}

/// The built v-tables, stripped of their option wrappers.
pub open spec fn vtable_views(cg: &CodeGen) -> Seq<Seq<VtSlot>> {
    Seq::new(cg.vtables@.len(), |i: int| cg.vtables@[i]->Some_0@)
}

/// After linking, the v-tables form a built chain, on which
/// `lemma_vt_slot_from_ancestor` and the override laws apply.
pub proof fn lemma_chain_built_after_linking(cg: &CodeGen)
    requires
        cg.vtables@.len() == cg.classes@.len(),
        cg.class_parents@.len() == cg.classes@.len(),
        forall|i: int| 0 <= i < cg.classes@.len()
            ==> (#[trigger] cg.class_parents@[i] as int) < cg.classes@.len(),
        forall|i: int| 0 <= i < cg.classes@.len() ==> cg.vt_built_ok(i),
    ensures
        vt_chain_built(
            cg.classes@,
            cg.class_parents@,
            vtable_views(cg),
            cg.java_lang_object_class_id as int,
        ),
{
    let vts = vtable_views(cg);
    let root = cg.java_lang_object_class_id as int;
    assert forall|i: int| 0 <= i < cg.classes@.len()
        implies (if i == root {
            vt_apply_all(Seq::empty(), (#[trigger] cg.classes@[i]).virtual_methods@) == Some(vts[i])
        } else {
            vt_apply_all(vts[cg.class_parents@[i] as int], cg.classes@[i].virtual_methods@)
                == Some(vts[i])
        }) by {
        assert(cg.vt_built_ok(i));
        assert(vts[i] == cg.vtables@[i]->Some_0@);
        if i != root {
            let p = cg.class_parents@[i] as int;
            assert(cg.vt_built_ok(p));
            assert(vts[p] == cg.vtables@[p]->Some_0@);
        }
    }
}

} // verus!
