//! Field and method type descriptors (JVM specification, section 4.3).
//!
//! A field descriptor is one of the base-type letters, `L<class>;` for an
//! object type, or `[` followed by a field descriptor for an array.  A method
//! descriptor is `(<field>*)<return>` where the return is a field descriptor
//! or `V`.  Object types naming one of the eight boxed wrapper classes lower
//! to distinguished variants so the tracer can box primitives uniformly.

use vstd::prelude::*;
use vstd::string::*;

verus! {

#[derive(PartialEq, Eq, Debug, Clone, Copy)]
pub enum BaseType {
    Byte,
    Char,
    Double,
    Float,
    Int,
    Long,
    Short,
    Boolean,
    Void,
}

pub type ObjectType = String;

#[derive(PartialEq, Debug)]
pub enum FieldType {
    BaseType(BaseType),
    ObjectTypeJavaLangByte,
    ObjectTypeJavaLangChar,
    ObjectTypeJavaLangDouble,
    ObjectTypeJavaLangFloat,
    ObjectTypeJavaLangInteger,
    ObjectTypeJavaLangLong,
    ObjectTypeJavaLangShort,
    ObjectTypeJavaLangBoolean,
    ObjectType(ObjectType),
    ArrayType(Box<FieldType>),
}

pub type ParameterType = FieldType;

pub type ReturnType = Option<FieldType>;

#[derive(PartialEq, Debug)]
pub struct MethodType {
    pub parameter_types: Vec<ParameterType>,
    pub return_type: ReturnType,
}

/// The mathematical element type of a field descriptor: what is left after
/// stripping the array dimensions.
pub enum GElemType {
    Base(BaseType),
    JavaLangByte,
    JavaLangChar,
    JavaLangDouble,
    JavaLangFloat,
    JavaLangInteger,
    JavaLangLong,
    JavaLangShort,
    JavaLangBoolean,
    Object(Seq<char>),
}

/// The mathematical form of a field type: an element type under `dims` array
/// dimensions.
pub struct GFieldType {
    pub dims: nat,
    pub elem: GElemType,
}

pub struct GMethodType {
    pub params: Seq<GFieldType>,
    pub ret: Option<GFieldType>,
}

impl View for FieldType {
    type V = GFieldType;

    open spec fn view(&self) -> GFieldType
        decreases self,
    {
        match self {
            FieldType::BaseType(b) => GFieldType { dims: 0, elem: GElemType::Base(*b) },
            FieldType::ObjectTypeJavaLangByte => GFieldType { dims: 0, elem: GElemType::JavaLangByte },
            FieldType::ObjectTypeJavaLangChar => GFieldType { dims: 0, elem: GElemType::JavaLangChar },
            FieldType::ObjectTypeJavaLangDouble => GFieldType { dims: 0, elem: GElemType::JavaLangDouble },
            FieldType::ObjectTypeJavaLangFloat => GFieldType { dims: 0, elem: GElemType::JavaLangFloat },
            FieldType::ObjectTypeJavaLangInteger => GFieldType { dims: 0, elem: GElemType::JavaLangInteger },
            FieldType::ObjectTypeJavaLangLong => GFieldType { dims: 0, elem: GElemType::JavaLangLong },
            FieldType::ObjectTypeJavaLangShort => GFieldType { dims: 0, elem: GElemType::JavaLangShort },
            FieldType::ObjectTypeJavaLangBoolean => GFieldType { dims: 0, elem: GElemType::JavaLangBoolean },
            FieldType::ObjectType(name) => GFieldType { dims: 0, elem: GElemType::Object(name@) },
            FieldType::ArrayType(inner) => {
                let g = (**inner)@;
                GFieldType { dims: g.dims + 1, elem: g.elem }
            },
        }
    }
}

impl View for MethodType {
    type V = GMethodType;

    open spec fn view(&self) -> GMethodType {
        GMethodType {
            params: self.parameter_types@.map_values(|p: FieldType| p@),
            ret: match &self.return_type {
                Some(t) => Some(t@),
                None => None,
            },
        }
    }
}

// ------------------------------------------------------------------
// Parsing, at the mathematical level.
// ------------------------------------------------------------------

/// The position of the first `;` at or after `i`, if any.
pub open spec fn find_semi(s: Seq<char>, i: int) -> Option<int>
    decreases s.len() - i when 0 <= i <= s.len()
{
    if i >= s.len() {
        None
    } else if s[i] == ';' {
        Some(i)
    } else {
        find_semi(s, i + 1)
    }
}

/// The element type a single base-type letter denotes.
pub open spec fn char_elem(c: char) -> Option<GElemType> {
    if c == 'B' {
        Some(GElemType::Base(BaseType::Byte))
    } else if c == 'C' {
        Some(GElemType::Base(BaseType::Char))
    } else if c == 'D' {
        Some(GElemType::Base(BaseType::Double))
    } else if c == 'F' {
        Some(GElemType::Base(BaseType::Float))
    } else if c == 'I' {
        Some(GElemType::Base(BaseType::Int))
    } else if c == 'J' {
        Some(GElemType::Base(BaseType::Long))
    } else if c == 'S' {
        Some(GElemType::Base(BaseType::Short))
    } else if c == 'Z' {
        Some(GElemType::Base(BaseType::Boolean))
    } else if c == 'V' {
        Some(GElemType::Base(BaseType::Void))
    } else {
        None
    }
}

/// Lowers an object-type name, mapping the eight boxed wrapper classes to
/// their distinguished variants.
pub open spec fn boxed_elem(name: Seq<char>) -> GElemType {
    if name == "java/lang/Byte"@ {
        GElemType::JavaLangByte
    } else if name == "java/lang/Char"@ {
        GElemType::JavaLangChar
    } else if name == "java/lang/Double"@ {
        GElemType::JavaLangDouble
    } else if name == "java/lang/Float"@ {
        GElemType::JavaLangFloat
    } else if name == "java/lang/Integer"@ {
        GElemType::JavaLangInteger
    } else if name == "java/lang/Long"@ {
        GElemType::JavaLangLong
    } else if name == "java/lang/Short"@ {
        GElemType::JavaLangShort
    } else if name == "java/lang/Boolean"@ {
        GElemType::JavaLangBoolean
    } else {
        GElemType::Object(name)
    }
}

/// Parses one element type at position `i`: a base-type letter or `L<name>;`.
pub open spec fn spec_parse_elem(s: Seq<char>, i: int) -> Option<(GElemType, int)> {
    if 0 <= i < s.len() {
        if s[i] == 'L' {
            match find_semi(s, i + 1) {
                None => None,
                Some(j) => Some((boxed_elem(s.subrange(i + 1, j)), j + 1)),
            }
        } else {
            match char_elem(s[i]) {
                Some(e) => Some((e, i + 1)),
                None => None,
            }
        }
    } else {
        None
    }
}

/// Parses one field type at position `i`: array dimensions then an element.
pub open spec fn spec_parse_field(s: Seq<char>, i: int) -> Option<(GFieldType, int)>
    decreases s.len() - i when 0 <= i <= s.len()
{
    if i < s.len() && s[i] == '[' {
        match spec_parse_field(s, i + 1) {
            None => None,
            Some((t, j)) => Some((GFieldType { dims: t.dims + 1, elem: t.elem }, j)),
        }
    } else {
        match spec_parse_elem(s, i) {
            None => None,
            Some((e, j)) => Some((GFieldType { dims: 0, elem: e }, j)),
        }
    }
}

pub proof fn lemma_parse_elem_progress(s: Seq<char>, i: int)
    requires
        spec_parse_elem(s, i) is Some,
    ensures
        i < spec_parse_elem(s, i)->Some_0.1 <= s.len(),
    decreases s.len() - i,
{
    if 0 <= i < s.len() && s[i] == 'L' {
        lemma_find_semi(s, i + 1);
    }
}

pub proof fn lemma_parse_field_progress(s: Seq<char>, i: int)
    requires
        spec_parse_field(s, i) is Some,
        0 <= i <= s.len(),
    ensures
        i < spec_parse_field(s, i)->Some_0.1 <= s.len(),
    decreases s.len() - i,
{
    if i < s.len() && s[i] == '[' {
        lemma_parse_field_progress(s, i + 1);
    } else {
        lemma_parse_elem_progress(s, i);
    }
}

/// Characterizes `find_semi`: its answer is the first semicolon.
pub proof fn lemma_find_semi(s: Seq<char>, i: int)
    requires
        0 <= i <= s.len(),
    ensures
        match find_semi(s, i) {
            Some(j) => i <= j < s.len() && s[j] == ';' && forall|k: int| i <= k < j ==> s[k] != ';',
            None => forall|k: int| i <= k < s.len() ==> s[k] != ';',
        },
    decreases s.len() - i,
{
    if i < s.len() && s[i] != ';' {
        lemma_find_semi(s, i + 1);
    }
}

/// If there is a semicolon at `j` and none before it, `find_semi` returns `j`.
pub proof fn lemma_find_semi_exact(s: Seq<char>, i: int, j: int)
    requires
        0 <= i <= j < s.len(),
        s[j] == ';',
        forall|k: int| i <= k < j ==> s[k] != ';',
    ensures
        find_semi(s, i) == Some(j),
    decreases j - i,
{
    if i < j {
        lemma_find_semi_exact(s, i + 1, j);
    }
}

/// Parses parameter types until the closing parenthesis.
pub open spec fn spec_parse_params(s: Seq<char>, i: int) -> Option<(Seq<GFieldType>, int)>
    decreases s.len() - i
        via spec_parse_params_decreases
{
    if 0 <= i < s.len() {
        if s[i] == ')' {
            Some((Seq::empty(), i + 1))
        } else {
            match spec_parse_field(s, i) {
                None => None,
                Some((t, j)) => match spec_parse_params(s, j) {
                    None => None,
                    Some((rest, k)) => Some((seq![t] + rest, k)),
                },
            }
        }
    } else {
        None
    }
}

#[via_fn]
proof fn spec_parse_params_decreases(s: Seq<char>, i: int) {
    if 0 <= i < s.len() && s[i] != ')' {
        if spec_parse_field(s, i) is Some {
            lemma_parse_field_progress(s, i);
        }
    }
}

/// Parses a whole method descriptor: `(<field>*)<return>`.
pub open spec fn spec_parse_method(s: Seq<char>) -> Option<GMethodType> {
    if s.len() > 0 && s[0] == '(' {
        match spec_parse_params(s, 1) {
            None => None,
            Some((ps, j)) => {
                if j < s.len() {
                    if s[j] == 'V' {
                        Some(GMethodType { params: ps, ret: None })
                    } else {
                        match spec_parse_field(s, j) {
                            None => None,
                            Some((t, _k)) => Some(GMethodType { params: ps, ret: Some(t) }),
                        }
                    }
                } else {
                    None
                }
            },
        }
    } else {
        None
    }
}

// ------------------------------------------------------------------
// Rendering, at the mathematical level.
// ------------------------------------------------------------------

pub open spec fn base_char(b: BaseType) -> char {
    match b {
        BaseType::Byte => 'B',
        BaseType::Char => 'C',
        BaseType::Double => 'D',
        BaseType::Float => 'F',
        BaseType::Int => 'I',
        BaseType::Long => 'J',
        BaseType::Short => 'S',
        BaseType::Boolean => 'Z',
        BaseType::Void => 'V',
    }
}

/// The class name that a boxed or object element renders with, if it is not a
/// base type.
pub open spec fn elem_name(e: GElemType) -> Seq<char> {
    match e {
        GElemType::Base(_) => Seq::empty(),
        GElemType::JavaLangByte => "java/lang/Byte"@,
        GElemType::JavaLangChar => "java/lang/Char"@,
        GElemType::JavaLangDouble => "java/lang/Double"@,
        GElemType::JavaLangFloat => "java/lang/Float"@,
        GElemType::JavaLangInteger => "java/lang/Integer"@,
        GElemType::JavaLangLong => "java/lang/Long"@,
        GElemType::JavaLangShort => "java/lang/Short"@,
        GElemType::JavaLangBoolean => "java/lang/Boolean"@,
        GElemType::Object(name) => name,
    }
}

pub open spec fn render_elem(e: GElemType) -> Seq<char> {
    match e {
        GElemType::Base(b) => seq![base_char(b)],
        _ => seq!['L'] + elem_name(e) + seq![';'],
    }
}

pub open spec fn render_field(t: GFieldType) -> Seq<char>
    decreases t.dims,
{
    if t.dims == 0 {
        render_elem(t.elem)
    } else {
        seq!['['] + render_field(GFieldType { dims: (t.dims - 1) as nat, elem: t.elem })
    }
}

pub open spec fn render_params(ps: Seq<GFieldType>) -> Seq<char>
    decreases ps.len(),
{
    if ps.len() == 0 {
        Seq::empty()
    } else {
        render_field(ps[0]) + render_params(ps.drop_first())
    }
}

pub open spec fn render_method(m: GMethodType) -> Seq<char> {
    seq!['('] + render_params(m.params) + seq![')'] + (match m.ret {
        None => seq!['V'],
        Some(t) => render_field(t),
    })
}

/// Well-formedness of an element: an object name holds no semicolon and is
/// not one of the eight boxed wrapper names (those use their own variants).
pub open spec fn wf_elem(e: GElemType) -> bool {
    match e {
        GElemType::Object(name) => {
            &&& forall|k: int| 0 <= k < name.len() ==> name[k] != ';'
            &&& boxed_elem(name) == GElemType::Object(name)
        },
        _ => true,
    }
}

pub open spec fn wf_field(t: GFieldType) -> bool {
    wf_elem(t.elem)
}

/// Well-formedness of a method type: every parameter is well formed, and the
/// return type, if present, is not the bare `void` scalar (which renders as
/// `V` and would parse back as no return type).
pub open spec fn wf_method(m: GMethodType) -> bool {
    &&& forall|k: int| 0 <= k < m.params.len() ==> wf_field(#[trigger] m.params[k])
    &&& match m.ret {
        None => true,
        Some(t) => wf_field(t) && !(t.dims == 0 && t.elem == GElemType::Base(BaseType::Void)),
    }
}

/// No boxed wrapper class name holds a semicolon, and each is recognized by
/// `boxed_elem`.
proof fn lemma_boxed_names()
    ensures
        forall|k: int| 0 <= k < "java/lang/Byte"@.len() ==> #[trigger] "java/lang/Byte"@[k] != ';',
        forall|k: int| 0 <= k < "java/lang/Char"@.len() ==> #[trigger] "java/lang/Char"@[k] != ';',
        forall|k: int| 0 <= k < "java/lang/Double"@.len() ==> #[trigger] "java/lang/Double"@[k] != ';',
        forall|k: int| 0 <= k < "java/lang/Float"@.len() ==> #[trigger] "java/lang/Float"@[k] != ';',
        forall|k: int| 0 <= k < "java/lang/Integer"@.len() ==> #[trigger] "java/lang/Integer"@[k] != ';',
        forall|k: int| 0 <= k < "java/lang/Long"@.len() ==> #[trigger] "java/lang/Long"@[k] != ';',
        forall|k: int| 0 <= k < "java/lang/Short"@.len() ==> #[trigger] "java/lang/Short"@[k] != ';',
        forall|k: int| 0 <= k < "java/lang/Boolean"@.len() ==> #[trigger] "java/lang/Boolean"@[k] != ';',
{
    reveal_strlit("java/lang/Byte");
    reveal_strlit("java/lang/Char");
    reveal_strlit("java/lang/Double");
    reveal_strlit("java/lang/Float");
    reveal_strlit("java/lang/Integer");
    reveal_strlit("java/lang/Long");
    reveal_strlit("java/lang/Short");
    reveal_strlit("java/lang/Boolean");
}

/// What a successful element parse yields: a well-formed element whose
/// rendering is exactly the consumed input.
pub proof fn lemma_parse_elem_render(s: Seq<char>, i: int)
    requires
        spec_parse_elem(s, i) is Some,
    ensures
        ({
            let (e, j) = spec_parse_elem(s, i)->Some_0;
            wf_elem(e) && render_elem(e) == s.subrange(i, j)
        }),
{
    let (e, j) = spec_parse_elem(s, i)->Some_0;
    if s[i] == 'L' {
        lemma_find_semi(s, i + 1);
        let jsemi = find_semi(s, i + 1)->Some_0;
        let name = s.subrange(i + 1, jsemi);
        lemma_boxed_names();
        assert(elem_name(e) == name || e == GElemType::Object(name));
        assert(elem_name(boxed_elem(name)) == name);
        assert(render_elem(e) =~= s.subrange(i, j));
        if boxed_elem(name) == GElemType::Object(name) {
            assert(wf_elem(e));
        } else {
            assert(wf_elem(e));
        }
    } else {
        assert(render_elem(e) =~= s.subrange(i, j));
    }
}

/// What a successful field parse yields: a well-formed field type whose
/// rendering is exactly the consumed input.
pub proof fn lemma_parse_field_render(s: Seq<char>, i: int)
    requires
        spec_parse_field(s, i) is Some,
        0 <= i <= s.len(),
    ensures
        ({
            let (t, j) = spec_parse_field(s, i)->Some_0;
            wf_field(t) && render_field(t) == s.subrange(i, j)
        }),
    decreases s.len() - i,
{
    let (t, j) = spec_parse_field(s, i)->Some_0;
    if i < s.len() && s[i] == '[' {
        lemma_parse_field_progress(s, i + 1);
        lemma_parse_field_render(s, i + 1);
        let (t0, _j0) = spec_parse_field(s, i + 1)->Some_0;
        assert(render_field(t) =~= seq!['['] + render_field(t0));
        assert(render_field(t) =~= s.subrange(i, j));
    } else {
        lemma_parse_elem_render(s, i);
    }
}

/// A field rendering never begins with `)` or `V` at the top level unless the
/// type is the bare void scalar; its first character is `[`, `L`, or a base
/// letter.
pub proof fn lemma_render_field_first(t: GFieldType)
    ensures
        render_field(t).len() > 0,
        render_field(t)[0] != ')',
        render_field(t)[0] != ';',
        (t.dims == 0 && t.elem == GElemType::Base(BaseType::Void)) <==> render_field(t)[0] == 'V',
    decreases t.dims,
{
    if t.dims == 0 {
    } else {
        lemma_render_field_first(GFieldType { dims: (t.dims - 1) as nat, elem: t.elem });
    }
}

/// One index of a subrange equality, stated so callers can pick the index.
pub proof fn lemma_subrange_index(s: Seq<char>, i: int, j: int, r: Seq<char>, k: int)
    requires
        0 <= i,
        i + r.len() == j,
        j <= s.len(),
        s.subrange(i, j) == r,
        0 <= k < r.len(),
    ensures
        s[i + k] == r[k],
{
    assert(s.subrange(i, j)[k] == r[k]);
}

/// Parsing an element out of its own rendering embedded in a larger string.
pub proof fn lemma_parse_of_render_elem(s: Seq<char>, i: int, e: GElemType)
    requires
        wf_elem(e),
        0 <= i,
        i + render_elem(e).len() <= s.len(),
        s.subrange(i, i + render_elem(e).len()) == render_elem(e),
    ensures
        spec_parse_elem(s, i) == Some((e, i + render_elem(e).len())),
{
    let r = render_elem(e);
    let j = i + r.len();
    match e {
        GElemType::Base(b) => {
            lemma_subrange_index(s, i, j, r, 0);
            assert(s[i] == base_char(b));
            assert(char_elem(base_char(b)) == Some(GElemType::Base(b)));
        },
        _ => {
            let name = elem_name(e);
            assert(r.len() == name.len() + 2);
            lemma_subrange_index(s, i, j, r, 0);
            assert(s[i] == 'L');
            lemma_subrange_index(s, i, j, r, r.len() - 1);
            assert(s[j - 1] == ';');
            assert forall|k: int| 0 <= k < name.len() implies s[i + 1 + k] == #[trigger] name[k] by {
                lemma_subrange_index(s, i, j, r, 1 + k);
                assert(r[1 + k] == name[k]);
            }
            reveal_strlit("java/lang/Byte");
            reveal_strlit("java/lang/Char");
            reveal_strlit("java/lang/Double");
            reveal_strlit("java/lang/Float");
            reveal_strlit("java/lang/Integer");
            reveal_strlit("java/lang/Long");
            reveal_strlit("java/lang/Short");
            reveal_strlit("java/lang/Boolean");
            assert forall|k: int| i + 1 <= k < j - 1 implies s[k] != ';' by {
                assert(name[k - i - 1] != ';');
                assert(s[i + 1 + (k - i - 1)] == name[k - i - 1]);
                assert(i + 1 + (k - i - 1) == k);
            }
            lemma_find_semi_exact(s, i + 1, j - 1);
            assert(s.subrange(i + 1, j - 1) =~= name);
            match e {
                GElemType::JavaLangChar => {
                    assert("java/lang/Char"@[10] != "java/lang/Byte"@[10]);
                },
                GElemType::JavaLangLong => {
                    assert("java/lang/Long"@[10] != "java/lang/Byte"@[10]);
                    assert("java/lang/Long"@[10] != "java/lang/Char"@[10]);
                },
                GElemType::JavaLangShort => {
                    assert("java/lang/Short"@[10] != "java/lang/Float"@[10]);
                },
                GElemType::JavaLangBoolean => {
                    assert("java/lang/Boolean"@[10] != "java/lang/Integer"@[10]);
                },
                _ => {},
            }
            assert(boxed_elem(name) == e);
        },
    }
}

/// Parsing a field type out of its own rendering embedded in a larger string.
pub proof fn lemma_parse_of_render_field(s: Seq<char>, i: int, t: GFieldType)
    requires
        wf_field(t),
        0 <= i,
        i + render_field(t).len() <= s.len(),
        s.subrange(i, i + render_field(t).len()) == render_field(t),
    ensures
        spec_parse_field(s, i) == Some((t, i + render_field(t).len())),
    decreases t.dims,
{
    let r = render_field(t);
    let j = i + r.len();
    if t.dims == 0 {
        lemma_parse_of_render_elem(s, i, t.elem);
        match t.elem {
            GElemType::Base(b) => {
                lemma_subrange_index(s, i, j, r, 0);
                assert(s[i] == base_char(b));
                assert(s[i] != '[');
            },
            _ => {
                lemma_subrange_index(s, i, j, r, 0);
                assert(s[i] == 'L');
            },
        }
    } else {
        let t0 = GFieldType { dims: (t.dims - 1) as nat, elem: t.elem };
        let r0 = render_field(t0);
        lemma_subrange_index(s, i, j, r, 0);
        assert(s[i] == '[');
        assert forall|k: int| 0 <= k < r0.len() implies s[i + 1 + k] == #[trigger] r0[k] by {
            lemma_subrange_index(s, i, j, r, 1 + k);
            assert(r[1 + k] == r0[k]);
        }
        assert(s.subrange(i + 1, i + 1 + r0.len()) =~= r0);
        lemma_parse_of_render_field(s, i + 1, t0);
        assert(spec_parse_field(s, i) == Some((GFieldType { dims: t0.dims + 1, elem: t0.elem }, j)));
        assert(GFieldType { dims: t0.dims + 1, elem: t0.elem } == t);
    }
}

/// Parsing a parameter list out of its own rendering followed by `)`.
pub proof fn lemma_parse_of_render_params(s: Seq<char>, i: int, ps: Seq<GFieldType>)
    requires
        forall|k: int| 0 <= k < ps.len() ==> wf_field(#[trigger] ps[k]),
        0 <= i,
        i + render_params(ps).len() + 1 <= s.len(),
        s.subrange(i, i + render_params(ps).len() + 1) == render_params(ps) + seq![')'],
    ensures
        spec_parse_params(s, i) == Some((ps, i + render_params(ps).len() + 1)),
    decreases ps.len(),
{
    let r = render_params(ps) + seq![')'];
    let j = i + r.len();
    if ps.len() == 0 {
        lemma_subrange_index(s, i, j, r, 0);
        assert(s[i] == ')');
    } else {
        let p0 = ps[0];
        let rest = ps.drop_first();
        let r0 = render_field(p0);
        lemma_render_field_first(p0);
        assert(render_params(ps) == r0 + render_params(rest));
        assert(r =~= r0 + (render_params(rest) + seq![')']));
        assert forall|k: int| 0 <= k < r0.len() implies s[i + k] == #[trigger] r0[k] by {
            lemma_subrange_index(s, i, j, r, k);
            assert(r[k] == r0[k]);
        }
        assert(s[i + 0] == r0[0]);
        assert(s[i] != ')');
        assert(s.subrange(i, i + r0.len()) =~= r0);
        lemma_parse_of_render_field(s, i, p0);
        let i2 = i + r0.len();
        let r1 = render_params(rest) + seq![')'];
        assert forall|k: int| 0 <= k < r1.len() implies s[i2 + k] == #[trigger] r1[k] by {
            lemma_subrange_index(s, i, j, r, r0.len() + k);
            assert(r[r0.len() + k] == r1[k]);
            assert(i + (r0.len() + k) == i2 + k);
        }
        assert(s.subrange(i2, i2 + render_params(rest).len() + 1) =~= r1);
        lemma_parse_of_render_params(s, i2, rest);
        assert(seq![p0] + rest =~= ps);
    }
}

/// The round-trip law for method descriptors: whatever string the parser
/// accepts, rendering the result and parsing it again yields an equal value.
pub proof fn lemma_method_descriptor_round_trip(s: Seq<char>)
    requires
        spec_parse_method(s) is Some,
    ensures
        spec_parse_method(render_method(spec_parse_method(s)->Some_0)) == spec_parse_method(s),
{
    let m = spec_parse_method(s)->Some_0;
    lemma_parse_method_wf(s);
    lemma_parse_method_of_render(m);
}

/// A parsed method type is well formed.
pub proof fn lemma_parse_method_wf(s: Seq<char>)
    requires
        spec_parse_method(s) is Some,
    ensures
        wf_method(spec_parse_method(s)->Some_0),
{
    let m = spec_parse_method(s)->Some_0;
    lemma_parse_params_wf(s, 1);
    match m.ret {
        None => {},
        Some(t) => {
            let j = spec_parse_params(s, 1)->Some_0.1;
            lemma_parse_params_end(s, 1);
            lemma_parse_field_render(s, j);
            lemma_render_field_first(t);
            let k = spec_parse_field(s, j)->Some_0.1;
            lemma_parse_field_progress(s, j);
            assert(render_field(t) == s.subrange(j, k));
            lemma_subrange_index(s, j, k, render_field(t), 0);
            assert(render_field(t)[0] == s[j]);
        },
    }
}

/// A successful parameter-list parse ends inside the string, past its start.
pub proof fn lemma_parse_params_end(s: Seq<char>, i: int)
    requires
        spec_parse_params(s, i) is Some,
    ensures
        0 <= i < s.len(),
        i < spec_parse_params(s, i)->Some_0.1 <= s.len(),
    decreases s.len() - i,
{
    if s[i] != ')' {
        lemma_parse_field_progress(s, i);
        let (_t, j) = spec_parse_field(s, i)->Some_0;
        lemma_parse_params_end(s, j);
    }
}

/// Every parameter that a successful parameter-list parse yields is well
/// formed.
pub proof fn lemma_parse_params_wf(s: Seq<char>, i: int)
    requires
        spec_parse_params(s, i) is Some,
    ensures
        ({
            let (ps, _j) = spec_parse_params(s, i)->Some_0;
            forall|k: int| 0 <= k < ps.len() ==> wf_field(#[trigger] ps[k])
        }),
    decreases s.len() - i,
{
    let (ps, _j) = spec_parse_params(s, i)->Some_0;
    assert(0 <= i < s.len());
    if s[i] == ')' {
    } else {
        lemma_parse_field_progress(s, i);
        lemma_parse_field_render(s, i);
        let (t, j2) = spec_parse_field(s, i)->Some_0;
        lemma_parse_params_wf(s, j2);
    }
}

/// Parsing the rendering of a well-formed method type yields it back.
pub proof fn lemma_parse_method_of_render(m: GMethodType)
    requires
        wf_method(m),
    ensures
        spec_parse_method(render_method(m)) == Some(m),
{
    let s = render_method(m);
    let rp = render_params(m.params);
    let rr = match m.ret {
        None => seq!['V'],
        Some(t) => render_field(t),
    };
    assert(s =~= seq!['('] + (rp + seq![')'] + rr));
    assert(s[0] == '(');
    let j: int = 1 + rp.len() as int + 1;
    assert forall|k: int| 0 <= k < rp.len() + 1 implies s[1 + k] == #[trigger] (rp + seq![')'])[k] by {
        assert(s[1 + k] == (rp + seq![')'] + rr)[k]);
    }
    assert(s.subrange(1, j) =~= rp + seq![')']);
    lemma_parse_of_render_params(s, 1, m.params);
    assert forall|k: int| 0 <= k < rr.len() implies s[j + k] == #[trigger] rr[k] by {
        assert(s[1 + (rp.len() + 1 + k)] == (rp + seq![')'] + rr)[rp.len() + 1 + k]);
        assert(1 + (rp.len() + 1 + k) == j + k);
    }
    match m.ret {
        None => {
            assert(s[j + 0] == rr[0]);
            assert(s[j] == 'V');
        },
        Some(t) => {
            lemma_render_field_first(t);
            assert(s[j + 0] == rr[0]);
            assert(s[j] != 'V');
            assert(s.subrange(j, j + render_field(t).len()) =~= render_field(t));
            lemma_parse_of_render_field(s, j, t);
        },
    }
}

// ------------------------------------------------------------------
// The executable parser.
// ------------------------------------------------------------------

/// Parse a method descriptor into a MethodType.
pub fn parse_method_descriptor(descriptor: &String) -> (r: MethodType)
    requires
        spec_parse_method(descriptor@) is Some,
    ensures
        r@ == spec_parse_method(descriptor@)->Some_0,
{
    let s = descriptor.as_str();
    let slen = s.unicode_len();
    proof {
        if !(slen > 0 && s@[0] == '(') {
            assert(spec_parse_method(s@) is None);
        }
    }
    let mut parameter_types: Vec<FieldType> = Vec::new();
    let mut i: usize = 1;
    let ghost whole = spec_parse_params(s@, 1)->Some_0;
    proof {
        assert(spec_parse_params(s@, 1) is Some);
        lemma_parse_params_progress(s@, 1);
    }
    while s.get_char(i) != ')'
        invariant
            1 <= i < slen,
            slen == s@.len(),
            spec_parse_method(descriptor@) is Some,
            descriptor@ == s@,
            spec_parse_params(s@, 1) == Some(whole),
            spec_parse_params(s@, i as int) is Some,
            ({
                let (rest, e) = spec_parse_params(s@, i as int)->Some_0;
                whole.0 =~= parameter_types@.map_values(|p: FieldType| p@) + rest && whole.1 == e
            }),
        decreases slen - i,
    {
        proof {
            lemma_parse_params_progress(s@, i as int);
        }
        let ghost (rest, e) = spec_parse_params(s@, i as int)->Some_0;
        let (p, j) = parse_field_type(s, i);
        let ghost (rest2, e2) = spec_parse_params(s@, j as int)->Some_0;
        proof {
            lemma_parse_params_progress(s@, j as int);
            assert(rest =~= seq![p@] + rest2);
            assert((parameter_types@ + seq![p]).map_values(|q: FieldType| q@)
                =~= parameter_types@.map_values(|q: FieldType| q@) + seq![p@]);
            assert(whole.0 =~= (parameter_types@ + seq![p]).map_values(|q: FieldType| q@) + rest2);
        }
        parameter_types.push(p);
        i = j;
    }
    let ghost (ps, jr) = whole;
    proof {
        lemma_parse_params_progress(s@, i as int);
        assert(spec_parse_params(s@, i as int) == Some((Seq::<GFieldType>::empty(), i + 1)));
        assert(parameter_types@.map_values(|p: FieldType| p@) + Seq::<GFieldType>::empty()
            =~= parameter_types@.map_values(|p: FieldType| p@));
        assert(parameter_types@.map_values(|p: FieldType| p@) =~= ps);
        assert(i + 1 == jr);
        if !(jr < s@.len()) {
            assert(spec_parse_method(s@) is None);
        }
    }
    let i2 = i + 1;
    let return_type = parse_return_type(s, i2);
    MethodType { parameter_types, return_type }
}

/// A successful parameter-list parse at a non-`)` position steps through one
/// field type.
proof fn lemma_parse_params_progress(s: Seq<char>, i: int)
    requires
        spec_parse_params(s, i) is Some,
    ensures
        0 <= i < s.len(),
        s[i] != ')' ==> spec_parse_field(s, i) is Some,
        s[i] != ')' ==> ({
            let (t, j) = spec_parse_field(s, i)->Some_0;
            &&& i < j <= s.len()
            &&& spec_parse_params(s, j) is Some
            &&& spec_parse_params(s, i)->Some_0.0 =~= seq![t] + spec_parse_params(s, j)->Some_0.0
            &&& spec_parse_params(s, i)->Some_0.1 == spec_parse_params(s, j)->Some_0.1
        }),
        s[i] == ')' ==> spec_parse_params(s, i) == Some((Seq::<GFieldType>::empty(), i + 1)),
{
    if s[i] != ')' {
        lemma_parse_field_progress(s, i);
    }
}

/// Parse a field type descriptor into a FieldType.
pub fn parse_field_type_descriptor(descriptor: &String) -> (r: FieldType)
    requires
        spec_parse_field(descriptor@, 0) is Some,
    ensures
        r@ == spec_parse_field(descriptor@, 0)->Some_0.0,
{
    let s = descriptor.as_str();
    let slen = s.unicode_len();
    proof {
        lemma_parse_field_progress(s@, 0);
    }
    let (t, _j) = parse_field_type(s, 0);
    t
}

/// Parses one field type at position `i` of `s`; returns it and the position
/// just past it.
pub fn parse_field_type(s: &str, i: usize) -> (r: (FieldType, usize))
    requires
        spec_parse_field(s@, i as int) is Some,
        i <= s@.len(),
        s@.len() <= usize::MAX,
    ensures
        ({
            let (t, j) = spec_parse_field(s@, i as int)->Some_0;
            r.0@ == t && r.1 == j
        }),
    decreases s@.len() - i,
{
    proof {
        lemma_parse_field_progress(s@, i as int);
        if !(i < s@.len()) {
            assert(spec_parse_elem(s@, i as int) is None);
        }
    }
    let c = s.get_char(i);
    if c == '[' {
        let (inner, j) = parse_field_type(s, i + 1);
        (FieldType::ArrayType(Box::new(inner)), j)
    } else if c == 'B' {
        (FieldType::BaseType(BaseType::Byte), i + 1)
    } else if c == 'C' {
        (FieldType::BaseType(BaseType::Char), i + 1)
    } else if c == 'D' {
        (FieldType::BaseType(BaseType::Double), i + 1)
    } else if c == 'F' {
        (FieldType::BaseType(BaseType::Float), i + 1)
    } else if c == 'I' {
        (FieldType::BaseType(BaseType::Int), i + 1)
    } else if c == 'J' {
        (FieldType::BaseType(BaseType::Long), i + 1)
    } else if c == 'S' {
        (FieldType::BaseType(BaseType::Short), i + 1)
    } else if c == 'Z' {
        (FieldType::BaseType(BaseType::Boolean), i + 1)
    } else if c == 'V' {
        (FieldType::BaseType(BaseType::Void), i + 1)
    } else {
        proof {
            if c != 'L' {
                assert(spec_parse_elem(s@, i as int) is None);
            }
            lemma_find_semi(s@, i as int + 1);
        }
        let slen = s.unicode_len();
        let mut j: usize = i + 1;
        while s.get_char(j) != ';'
            invariant
                i + 1 <= j <= slen,
                slen == s@.len(),
                i < s@.len(),
                s@[i as int] == 'L',
                find_semi(s@, i as int + 1) is Some,
                j <= find_semi(s@, i as int + 1)->Some_0,
                find_semi(s@, i as int + 1)->Some_0 < s@.len(),
                s@[find_semi(s@, i as int + 1)->Some_0] == ';',
                forall|k: int| i + 1 <= k < j ==> s@[k] != ';',
            decreases slen - j,
        {
            j = j + 1;
        }
        proof {
            lemma_find_semi_exact(s@, i as int + 1, j as int);
        }
        let name = s.substring_char(i + 1, j).to_owned();
        let elem = classify_object_name(name);
        (elem, j + 1)
    }
}

/// Maps an object-type name to its FieldType, lowering the boxed wrappers to
/// their distinguished variants.
fn classify_object_name(name: String) -> (r: FieldType)
    ensures
        r@ == (GFieldType { dims: 0, elem: boxed_elem(name@) }),
{
    if name == String::from_str("java/lang/Byte") {
        FieldType::ObjectTypeJavaLangByte
    } else if name == String::from_str("java/lang/Char") {
        FieldType::ObjectTypeJavaLangChar
    } else if name == String::from_str("java/lang/Double") {
        FieldType::ObjectTypeJavaLangDouble
    } else if name == String::from_str("java/lang/Float") {
        FieldType::ObjectTypeJavaLangFloat
    } else if name == String::from_str("java/lang/Integer") {
        FieldType::ObjectTypeJavaLangInteger
    } else if name == String::from_str("java/lang/Long") {
        FieldType::ObjectTypeJavaLangLong
    } else if name == String::from_str("java/lang/Short") {
        FieldType::ObjectTypeJavaLangShort
    } else if name == String::from_str("java/lang/Boolean") {
        FieldType::ObjectTypeJavaLangBoolean
    } else {
        FieldType::ObjectType(name)
    }
}

/// Parses the return part of a method descriptor at position `i`: `V` means
/// no return type.
pub fn parse_return_type(s: &str, i: usize) -> (r: ReturnType)
    requires
        i < s@.len(),
        s@.len() <= usize::MAX,
        s@[i as int] == 'V' || spec_parse_field(s@, i as int) is Some,
    ensures
        s@[i as int] == 'V' ==> r is None,
        s@[i as int] != 'V' ==> (r matches Some(t) && t@ == spec_parse_field(s@, i as int)->Some_0.0),
{
    let c = s.get_char(i);
    if c == 'V' {
        None
    } else {
        let (t, _j) = parse_field_type(s, i);
        Some(t)
    }
}

// ------------------------------------------------------------------
// The executable renderer.
// ------------------------------------------------------------------

impl FieldType {
    /// Renders this type back to descriptor syntax.
    pub fn descriptor_string(&self) -> (r: String)
        ensures
            r@ == render_field(self@),
        decreases self,
    {
        match self {
            FieldType::BaseType(b) => {
                let mut r = String::new();
                match b {
                    BaseType::Byte => r.append("B"),
                    BaseType::Char => r.append("C"),
                    BaseType::Double => r.append("D"),
                    BaseType::Float => r.append("F"),
                    BaseType::Int => r.append("I"),
                    BaseType::Long => r.append("J"),
                    BaseType::Short => r.append("S"),
                    BaseType::Boolean => r.append("Z"),
                    BaseType::Void => r.append("V"),
                }
                proof {
                    reveal_strlit("B");
                    reveal_strlit("C");
                    reveal_strlit("D");
                    reveal_strlit("F");
                    reveal_strlit("I");
                    reveal_strlit("J");
                    reveal_strlit("S");
                    reveal_strlit("Z");
                    reveal_strlit("V");
                    assert(r@ =~= render_field(self@));
                }
                r
            },
            FieldType::ArrayType(inner) => {
                let mut r = String::from_str("[");
                let rest = inner.descriptor_string();
                r.append(rest.as_str());
                proof {
                    reveal_strlit("[");
                    assert(r@ =~= render_field(self@));
                }
                r
            },
            _ => {
                let mut r = String::from_str("L");
                match self {
                    FieldType::ObjectTypeJavaLangByte => r.append("java/lang/Byte"),
                    FieldType::ObjectTypeJavaLangChar => r.append("java/lang/Char"),
                    FieldType::ObjectTypeJavaLangDouble => r.append("java/lang/Double"),
                    FieldType::ObjectTypeJavaLangFloat => r.append("java/lang/Float"),
                    FieldType::ObjectTypeJavaLangInteger => r.append("java/lang/Integer"),
                    FieldType::ObjectTypeJavaLangLong => r.append("java/lang/Long"),
                    FieldType::ObjectTypeJavaLangShort => r.append("java/lang/Short"),
                    FieldType::ObjectTypeJavaLangBoolean => r.append("java/lang/Boolean"),
                    FieldType::ObjectType(name) => r.append(name.as_str()),
                    _ => {
                        proof {
                            assert(false);
                        }
                    },
                }
                r.append(";");
                proof {
                    reveal_strlit("L");
                    reveal_strlit(";");
                    assert(r@ =~= render_field(self@));
                }
                r
            },
        }
    }
}

impl MethodType {
    /// Renders this method type back to descriptor syntax.
    pub fn descriptor_string(&self) -> (r: String)
        ensures
            r@ == render_method(self@),
    {
        let mut r = String::from_str("(");
        let ghost ps = self@.params;
        let mut k: usize = 0;
        proof {
            reveal_strlit("(");
            assert(ps.subrange(0, 0) =~= Seq::<GFieldType>::empty());
        }
        while k < self.parameter_types.len()
            invariant
                0 <= k <= self.parameter_types.len(),
                ps == self@.params,
                ps.len() == self.parameter_types.len(),
                forall|q: int| 0 <= q < ps.len() ==> ps[q] == #[trigger] self.parameter_types@[q]@,
                r@ == seq!['('] + render_params(ps.subrange(0, k as int)),
            decreases self.parameter_types.len() - k,
        {
            let piece = self.parameter_types[k].descriptor_string();
            r.append(piece.as_str());
            proof {
                lemma_render_params_snoc(ps.subrange(0, k as int), ps[k as int]);
                assert(ps.subrange(0, k as int).push(ps[k as int]) =~= ps.subrange(0, k as int + 1));
            }
            k = k + 1;
        }
        proof {
            assert(ps.subrange(0, ps.len() as int) =~= ps);
        }
        r.append(")");
        match &self.return_type {
            None => r.append("V"),
            Some(t) => {
                let piece = t.descriptor_string();
                r.append(piece.as_str());
            },
        }
        proof {
            reveal_strlit(")");
            reveal_strlit("V");
            assert(r@ =~= render_method(self@));
        }
        r
    }
}

/// Rendering a parameter list one element longer appends that element's
/// rendering.
pub proof fn lemma_render_params_snoc(ps: Seq<GFieldType>, t: GFieldType)
    ensures
        render_params(ps.push(t)) == render_params(ps) + render_field(t),
    decreases ps.len(),
{
    if ps.len() == 0 {
        assert(ps.push(t).drop_first() =~= Seq::<GFieldType>::empty());
        assert(ps.push(t)[0] == t);
        assert(render_params(ps.push(t))
            == render_field(ps.push(t)[0]) + render_params(ps.push(t).drop_first()));
        assert(render_params(ps.push(t)) =~= render_field(t));
        assert(render_params(ps) + render_field(t) =~= render_field(t));
    } else {
        assert(ps.push(t).drop_first() =~= ps.drop_first().push(t));
        lemma_render_params_snoc(ps.drop_first(), t);
        assert(render_params(ps.push(t)) =~= render_params(ps) + render_field(t));
    }
}

/// A range with no semicolon has none to find.
pub proof fn lemma_find_semi_none(s: Seq<char>, i: int)
    requires
        0 <= i <= s.len(),
        forall|k: int| i <= k < s.len() ==> s[k] != ';',
    ensures
        find_semi(s, i) is None,
    decreases s.len() - i,
{
    if i < s.len() {
        lemma_find_semi_none(s, i + 1);
    }
}

/// Parses one field type at position `i`, rejecting malformed input.
pub fn try_parse_field_type(s: &str, i: usize) -> (r: Option<(FieldType, usize)>)
    requires
        i <= s@.len(),
        s@.len() <= usize::MAX,
    ensures
        match r {
            Some((t, j)) => spec_parse_field(s@, i as int) == Some((t@, j as int)),
            None => spec_parse_field(s@, i as int) is None,
        },
    decreases s@.len() - i,
{
    let slen = s.unicode_len();
    if i >= slen {
        return None;
    }
    let c = s.get_char(i);
    if c == '[' {
        match try_parse_field_type(s, i + 1) {
            Some((t, j)) => Some((FieldType::ArrayType(Box::new(t)), j)),
            None => None,
        }
    } else if c == 'B' {
        Some((FieldType::BaseType(BaseType::Byte), i + 1))
    } else if c == 'C' {
        Some((FieldType::BaseType(BaseType::Char), i + 1))
    } else if c == 'D' {
        Some((FieldType::BaseType(BaseType::Double), i + 1))
    } else if c == 'F' {
        Some((FieldType::BaseType(BaseType::Float), i + 1))
    } else if c == 'I' {
        Some((FieldType::BaseType(BaseType::Int), i + 1))
    } else if c == 'J' {
        Some((FieldType::BaseType(BaseType::Long), i + 1))
    } else if c == 'S' {
        Some((FieldType::BaseType(BaseType::Short), i + 1))
    } else if c == 'Z' {
        Some((FieldType::BaseType(BaseType::Boolean), i + 1))
    } else if c == 'V' {
        Some((FieldType::BaseType(BaseType::Void), i + 1))
    } else if c == 'L' {
        let mut j: usize = i + 1;
        while j < slen && s.get_char(j) != ';'
            invariant
                i + 1 <= j <= slen,
                slen == s@.len(),
                forall|k: int| i + 1 <= k < j ==> s@[k] != ';',
            decreases slen - j,
        {
            j = j + 1;
        }
        if j >= slen {
            proof {
                lemma_find_semi_none(s@, i as int + 1);
            }
            return None;
        }
        proof {
            lemma_find_semi_exact(s@, i as int + 1, j as int);
        }
        let name = s.substring_char(i + 1, j).to_owned();
        let elem = classify_object_name(name);
        Some((elem, j + 1))
    } else {
        proof {
            assert(char_elem(s@[i as int]) is None);
        }
        None
    }
}

/// Parses a whole method descriptor, rejecting malformed input.
pub fn try_parse_method_descriptor(descriptor: &String) -> (r: Option<MethodType>)
    ensures
        match r {
            Some(m) => spec_parse_method(descriptor@) == Some(m@),
            None => spec_parse_method(descriptor@) is None,
        },
{
    let s = descriptor.as_str();
    let slen = s.unicode_len();
    if slen == 0 {
        return None;
    }
    if s.get_char(0) != '(' {
        return None;
    }
    let mut parameter_types: Vec<FieldType> = Vec::new();
    let mut i: usize = 1;
    let mut end: usize = 0;
    let mut closed = false;
    while !closed
        invariant
            1 <= i <= slen,
            slen == s@.len(),
            s@ == descriptor@,
            s@[0] == '(',
            closed ==> i < slen && s@[i as int] == ')' && end == i + 1,
            closed ==> spec_parse_params(s@, 1)
                == Some((parameter_types@.map_values(|p: FieldType| p@), end as int)),
            !closed ==> (match spec_parse_params(s@, i as int) {
                None => spec_parse_params(s@, 1) is None,
                Some((rest, e)) => spec_parse_params(s@, 1)
                    == Some((parameter_types@.map_values(|p: FieldType| p@) + rest, e)),
            }),
        decreases slen - i + (if closed { 0int } else { 1int }),
    {
        if i >= slen {
            proof {
                assert(spec_parse_params(s@, i as int) is None);
            }
            return None;
        }
        let c = s.get_char(i);
        if c == ')' {
            end = i + 1;
            closed = true;
            proof {
                assert(spec_parse_params(s@, i as int)
                    == Some((Seq::<GFieldType>::empty(), i + 1)));
                assert(parameter_types@.map_values(|p: FieldType| p@) + Seq::<GFieldType>::empty()
                    =~= parameter_types@.map_values(|p: FieldType| p@));
            }
        } else {
            match try_parse_field_type(s, i) {
                None => {
                    proof {
                        assert(spec_parse_params(s@, i as int) is None);
                    }
                    return None;
                },
                Some((p, j)) => {
                    proof {
                        lemma_parse_field_progress(s@, i as int);
                        let ghost pv = parameter_types@.map_values(|q: FieldType| q@);
                        if spec_parse_params(s@, j as int) is Some {
                            let (rest2, e2) = spec_parse_params(s@, j as int)->Some_0;
                            assert(spec_parse_params(s@, i as int)
                                == Some((seq![p@] + rest2, e2)));
                            assert((parameter_types@ + seq![p]).map_values(|q: FieldType| q@)
                                =~= pv + seq![p@]);
                            assert(pv + (seq![p@] + rest2) =~= (pv + seq![p@]) + rest2);
                        } else {
                            assert(spec_parse_params(s@, i as int) is None);
                        }
                    }
                    parameter_types.push(p);
                    i = j;
                },
            }
        }
    }
    if end >= slen {
        return None;
    }
    let c = s.get_char(end);
    let return_type: ReturnType = if c == 'V' {
        None
    } else {
        match try_parse_field_type(s, end) {
            None => {
                return None;
            },
            Some((t, _j)) => Some(t),
        }
    };
    Some(MethodType { parameter_types, return_type })
}

/// Parses a field type descriptor, rejecting malformed input.
pub fn try_parse_field_type_descriptor(descriptor: &String) -> (r: Option<FieldType>)
    ensures
        match r {
            Some(t) => spec_parse_field(descriptor@, 0) is Some
                && t@ == spec_parse_field(descriptor@, 0)->Some_0.0,
            None => spec_parse_field(descriptor@, 0) is None,
        },
{
    let s = descriptor.as_str();
    let slen = s.unicode_len();
    match try_parse_field_type(s, 0) {
        Some((t, _j)) => Some(t),
        None => None,
    }
}

} // verus!
