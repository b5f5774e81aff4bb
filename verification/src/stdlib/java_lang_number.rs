//! The boxed numeric wrappers `java/lang/{Byte,Short,Integer,Long,Float,
//! Double}`, and the decimal rendering their `toString` uses.

use vstd::prelude::*;
use vstd::string::*;
use crate::compiled_class::{BoxKind, CompiledClass, NativeHook, StaticMethodInfo, VirtualMethodInfo};
use crate::stdlib::java_lang_object::to_string_symbol;

verus! {

/// The decimal digit character of `d`.
pub open spec fn spec_digit(d: int) -> char {
    if d == 0 {
        '0'
    } else if d == 1 {
        '1'
    } else if d == 2 {
        '2'
    } else if d == 3 {
        '3'
    } else if d == 4 {
        '4'
    } else if d == 5 {
        '5'
    } else if d == 6 {
        '6'
    } else if d == 7 {
        '7'
    } else if d == 8 {
        '8'
    } else {
        '9'
    }
}

/// The decimal rendering of a non-negative integer.
pub open spec fn spec_nat_string(n: int) -> Seq<char>
    decreases n,
{
    if n < 10 {
        seq![spec_digit(n)]
    } else {
        spec_nat_string(n / 10) + seq![spec_digit(n % 10)]
    }
}

/// The decimal rendering of an integer, `-` prefixed when negative.
pub open spec fn spec_int_string(v: int) -> Seq<char> {
    if v < 0 {
        seq!['-'] + spec_nat_string(-v)
    } else {
        spec_nat_string(v)
    }
}

fn digit_str(d: u64) -> (r: &'static str)
    requires
        d < 10,
    ensures
        r@ == seq![spec_digit(d as int)],
{
    proof {
        reveal_strlit("0");
        reveal_strlit("1");
        reveal_strlit("2");
        reveal_strlit("3");
        reveal_strlit("4");
        reveal_strlit("5");
        reveal_strlit("6");
        reveal_strlit("7");
        reveal_strlit("8");
        reveal_strlit("9");
    }
    if d == 0 {
        proof {
            assert("0"@ =~= seq![spec_digit(0)]);
        }
        "0"
    } else if d == 1 {
        proof {
            assert("1"@ =~= seq![spec_digit(1)]);
        }
        "1"
    } else if d == 2 {
        proof {
            assert("2"@ =~= seq![spec_digit(2)]);
        }
        "2"
    } else if d == 3 {
        proof {
            assert("3"@ =~= seq![spec_digit(3)]);
        }
        "3"
    } else if d == 4 {
        proof {
            assert("4"@ =~= seq![spec_digit(4)]);
        }
        "4"
    } else if d == 5 {
        proof {
            assert("5"@ =~= seq![spec_digit(5)]);
        }
        "5"
    } else if d == 6 {
        proof {
            assert("6"@ =~= seq![spec_digit(6)]);
        }
        "6"
    } else if d == 7 {
        proof {
            assert("7"@ =~= seq![spec_digit(7)]);
        }
        "7"
    } else if d == 8 {
        proof {
            assert("8"@ =~= seq![spec_digit(8)]);
        }
        "8"
    } else {
        proof {
            assert("9"@ =~= seq![spec_digit(9)]);
        }
        "9"
    }
}

/// Decimal rendering of an unsigned integer.
pub fn u64_to_string(n: u64) -> (r: String)
    ensures
        r@ == spec_nat_string(n as int),
    decreases n,
{
    if n < 10 {
        digit_str(n).to_owned()
    } else {
        let mut s = u64_to_string(n / 10);
        s.append(digit_str(n % 10));
        proof {
            assert(s@ =~= spec_nat_string(n as int));
        }
        s
    }
}

/// Decimal rendering of a signed integer.
pub fn i64_to_string(v: i64) -> (r: String)
    ensures
        r@ == spec_int_string(v as int),
{
    if v >= 0 {
        u64_to_string(v as u64)
    } else {
        let mag: u64 = if v == -0x8000_0000_0000_0000i64 {
            0x8000_0000_0000_0000u64
        } else {
            (-v) as u64
        };
        let mut s = "-".to_owned();
        let rest = u64_to_string(mag);
        s.append(rest.as_str());
        proof {
            reveal_strlit("-");
            assert(s@ =~= spec_int_string(v as int));
        }
        s
    }
}

/// Decimal rendering of a 32-bit signed integer.
pub fn i32_to_string(v: i32) -> (r: String)
    ensures
        r@ == spec_int_string(v as int),
{
    i64_to_string(v as i64)
}

fn new_wrapper_class(name: &str, override_symbol: &str, init_symbol: &str, kind: BoxKind) -> (r: CompiledClass)
    ensures
        r.class_name@ == name@,
        r.virtual_methods@.len() == 1,
        r.static_methods@.len() == 1,
        r.static_methods@[0].symbol@ == init_symbol@,
        r.static_methods@[0].ptr == Some(NativeHook::BoxInit(kind)),
        r.instance_size == 16,
{
    let mut c = CompiledClass::new(name, None);
    c.virtual_methods.push(VirtualMethodInfo {
        symbol: override_symbol.to_owned(),
        ptr: Some(NativeHook::BoxToString(kind)),
        overrides: Some(to_string_symbol()),
    });
    c.static_methods.push(StaticMethodInfo {
        symbol: init_symbol.to_owned(),
        ptr: Some(NativeHook::BoxInit(kind)),
    });
    c.instance_size = 16;
    c
}

pub fn new_compiled_class_java_lang_byte() -> (r: CompiledClass)
    ensures
        r.class_name@ == "java/lang/Byte"@,
{
    new_wrapper_class(
        "java/lang/Byte",
        "java/lang/Object.toString:()Ljava/lang/String;@java/lang/Byte",
        "java/lang/Byte.init:(B)V",
        BoxKind::Byte,
    )
}

pub fn new_compiled_class_java_lang_short() -> (r: CompiledClass)
    ensures
        r.class_name@ == "java/lang/Short"@,
{
    new_wrapper_class(
        "java/lang/Short",
        "java/lang/Object.toString:()Ljava/lang/String;@java/lang/Short",
        "java/lang/Short.init:(S)V",
        BoxKind::Short,
    )
}

pub fn new_compiled_class_java_lang_integer() -> (r: CompiledClass)
    ensures
        r.class_name@ == "java/lang/Integer"@,
{
    new_wrapper_class(
        "java/lang/Integer",
        "java/lang/Object.toString:()Ljava/lang/String;@java/lang/Integer",
        "java/lang/Integer.init:(I)V",
        BoxKind::Int,
    )
}

pub fn new_compiled_class_java_lang_long() -> (r: CompiledClass)
    ensures
        r.class_name@ == "java/lang/Long"@,
{
    new_wrapper_class(
        "java/lang/Long",
        "java/lang/Object.toString:()Ljava/lang/String;@java/lang/Long",
        "java/lang/Long.init:(J)V",
        BoxKind::Long,
    )
}

pub fn new_compiled_class_java_lang_float() -> (r: CompiledClass)
    ensures
        r.class_name@ == "java/lang/Float"@,
{
    new_wrapper_class(
        "java/lang/Float",
        "java/lang/Object.toString:()Ljava/lang/String;@java/lang/Float",
        "java/lang/Float.init:(F)V",
        BoxKind::Float,
    )
}

pub fn new_compiled_class_java_lang_double() -> (r: CompiledClass)
    ensures
        r.class_name@ == "java/lang/Double"@,
{
    new_wrapper_class(
        "java/lang/Double",
        "java/lang/Object.toString:()Ljava/lang/String;@java/lang/Double",
        "java/lang/Double.init:(D)V",
        BoxKind::Double,
    )
}

pub struct JavaLangByte {
    pub value: i8,
}

impl JavaLangByte {
    pub fn init(v: i8) -> (r: JavaLangByte)
        ensures
            r.value == v,
    {
        JavaLangByte { value: v }
    }

    pub fn java_lang_object_to_string(&self) -> (r: String)
        ensures
            r@ == spec_int_string(self.value as int),
    {
        i64_to_string(self.value as i64)
    }
}

pub struct JavaLangShort {
    pub value: i16,
}

impl JavaLangShort {
    pub fn init(v: i16) -> (r: JavaLangShort)
        ensures
            r.value == v,
    {
        JavaLangShort { value: v }
    }

    pub fn java_lang_object_to_string(&self) -> (r: String)
        ensures
            r@ == spec_int_string(self.value as int),
    {
        i64_to_string(self.value as i64)
    }
}

pub struct JavaLangInteger {
    pub value: i32,
}

impl JavaLangInteger {
    pub fn init(v: i32) -> (r: JavaLangInteger)
        ensures
            r.value == v,
    {
        JavaLangInteger { value: v }
    }

    pub fn java_lang_object_to_string(&self) -> (r: String)
        ensures
            r@ == spec_int_string(self.value as int),
    {
        i64_to_string(self.value as i64)
    }
}

pub struct JavaLangLong {
    pub value: i64,
}

impl JavaLangLong {
    pub fn init(v: i64) -> (r: JavaLangLong)
        ensures
            r.value == v,
    {
        JavaLangLong { value: v }
    }

    pub fn java_lang_object_to_string(&self) -> (r: String)
        ensures
            r@ == spec_int_string(self.value as int),
    {
        i64_to_string(self.value)
    }
}

} // verus!
