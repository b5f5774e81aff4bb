//! The call tracer: per call it writes one tab per nesting level, then
//! `--> "<symbol>" (arg, arg, …)`; on return, tabs then `<-- <value|void>`.
//! Arguments are delivered into a fixed-length slot vector by the emitted
//! tracing prologue; more than `MAX_TRACING_ARGS` arguments are truncated
//! with a trailing `...`.

use vstd::prelude::*;
use vstd::string::*;

verus! {

pub const MAX_TRACING_ARGS: usize = 20;

/// One tab per nesting level.
pub open spec fn trace_tabs(depth: nat) -> Seq<char> {
    Seq::new(depth, |i: int| '\t')
}

/// The shown arguments joined with `, `.
pub open spec fn trace_join(args: Seq<Seq<char>>, upto: int) -> Seq<char>
    decreases upto,
{
    if upto <= 0 {
        Seq::empty()
    } else if upto == 1 {
        args[0]
    } else {
        trace_join(args, upto - 1) + ", "@ + args[upto - 1]
    }
}

/// The entry line: tabs, the symbol in quotes, then the first
/// `MAX_TRACING_ARGS` arguments; any further arguments are truncated with a
/// trailing `...`.
pub open spec fn trace_before_line(depth: nat, sym: Seq<char>, args: Seq<Seq<char>>, arg_num: int) -> Seq<char> {
    let shown: int = if arg_num > 20 {
        20
    } else {
        arg_num
    };
    trace_tabs(depth) + "--> \""@ + sym + "\"("@ + trace_join(args, shown) + (if arg_num > 20 {
        "..."@
    } else {
        Seq::empty()
    }) + ")\n"@
}

/// The exit line: tabs, then the rendered return value, or `void`.
pub open spec fn trace_after_line(depth: nat, ret: Option<Seq<char>>) -> Seq<char> {
    trace_tabs(depth) + "<-- "@ + (match ret {
        Some(s) => s,
        None => "void"@,
    }) + "\n"@
}

/// The per-isolate tracer: the argument slot vector the emitted prologue
/// fills, the current nesting depth, and the accumulated trace text.
pub struct Tracer {
    pub args_result_vec: Vec<String>,
    pub depth: usize,
    pub buf: Vec<u8>,
}

impl Tracer {
    pub fn new() -> (r: Tracer)
        ensures
            r.depth == 0,
            r.buf@ == Seq::<u8>::empty(),
            r.args_result_vec@.len() == 0,
    {
        Tracer { args_result_vec: Vec::new(), depth: 0, buf: Vec::new() }
    }

    pub fn buffer(&self) -> (r: &Vec<u8>)
        ensures
            r@ == self.buf@,
    {
        &self.buf
    }

    /// Stores one rendered argument into the slot vector.
    pub fn set_arg(&mut self, index: usize, rendered: String)
        requires
            index < MAX_TRACING_ARGS,
        ensures
            final(self).depth == old(self).depth,
            final(self).buf == old(self).buf,
            final(self).args_result_vec@.len() >= index + 1,
            final(self).args_result_vec@[index as int] == rendered,
            forall|k: int| 0 <= k < old(self).args_result_vec@.len() && k != index
                ==> final(self).args_result_vec@[k] == old(self).args_result_vec@[k],
    {
        let mut n = self.args_result_vec.len();
        while n < index + 1
            invariant
                n == self.args_result_vec@.len(),
                old(self).args_result_vec@.len() <= n,
                index < 20,
                self.depth == old(self).depth,
                self.buf == old(self).buf,
                forall|k: int| 0 <= k < old(self).args_result_vec@.len()
                    ==> self.args_result_vec@[k] == old(self).args_result_vec@[k],
            decreases index + 1 - n,
        {
            self.args_result_vec.push(String::new());
            n = n + 1;
        }
        self.args_result_vec[index] = rendered;
    }

    /// Records a call: writes the entry line and descends one level.
    pub fn before(&mut self, fn_symbol: &str, arg_num: u32)
        requires
            old(self).args_result_vec@.len() >= (if arg_num > 20 {
                20int
            } else {
                arg_num as int
            }),
            old(self).depth < usize::MAX,
        ensures
            final(self).depth == old(self).depth + 1,
            final(self).args_result_vec == old(self).args_result_vec,
            final(self).buf@ == old(self).buf@ + vstd::utf8::encode_utf8(
                trace_before_line(
                    old(self).depth as nat,
                    fn_symbol@,
                    old(self).args_result_vec@.map_values(|s: String| s@),
                    arg_num as int,
                ),
            ),
    {
        let ghost argviews = self.args_result_vec@.map_values(|s: String| s@);
        let mut line = String::new();
        let mut d: usize = 0;
        while d < self.depth
            invariant
                d <= self.depth,
                line@ =~= trace_tabs(d as nat),
                self.depth == old(self).depth,
                self.args_result_vec == old(self).args_result_vec,
                self.buf == old(self).buf,
            decreases self.depth - d,
        {
            line.append("\t");
            proof {
                reveal_strlit("\t");
                assert(line@ =~= trace_tabs(d as nat + 1));
            }
            d = d + 1;
        }
        line.append("--> \"");
        line.append(fn_symbol);
        line.append("\"(");
        let c: usize = if arg_num > 20 {
            20
        } else {
            arg_num as usize
        };
        let ghost mid = line@;
        let mut i: usize = 0;
        while i < c
            invariant
                i <= c,
                c <= self.args_result_vec@.len(),
                line@ =~= mid + trace_join(argviews, i as int),
                argviews == self.args_result_vec@.map_values(|s: String| s@),
                self.depth == old(self).depth,
                self.args_result_vec == old(self).args_result_vec,
                self.buf == old(self).buf,
            decreases c - i,
        {
            if i > 0 {
                line.append(", ");
            }
            let piece = self.args_result_vec[i].clone();
            line.append(piece.as_str());
            proof {
                assert(argviews[i as int] == self.args_result_vec@[i as int]@);
                if i == 0 {
                    assert(trace_join(argviews, 1) == argviews[0]);
                    assert(line@ =~= mid + trace_join(argviews, i as int + 1));
                } else {
                    assert(trace_join(argviews, i as int + 1)
                        == trace_join(argviews, i as int) + ", "@ + argviews[i as int]);
                    assert(line@ =~= mid + trace_join(argviews, i as int + 1));
                }
            }
            i = i + 1;
        }
        if arg_num > 20 {
            line.append("...");
        }
        line.append(")\n");
        proof {
            assert(line@ =~= trace_before_line(
                old(self).depth as nat,
                fn_symbol@,
                argviews,
                arg_num as int,
            ));
        }
        self.write_line(&line);
        self.depth = self.depth + 1;
    }

    /// Records a return: ascends one level and writes the exit line.
    pub fn after(&mut self, _fn_symbol: &str, ret: Option<&str>)
        requires
            old(self).depth >= 1,
        ensures
            final(self).depth == old(self).depth - 1,
            final(self).args_result_vec == old(self).args_result_vec,
            final(self).buf@ == old(self).buf@ + vstd::utf8::encode_utf8(
                trace_after_line(
                    (old(self).depth - 1) as nat,
                    match ret {
                        Some(s) => Some(s@),
                        None => None,
                    },
                ),
            ),
    {
        self.depth = self.depth - 1;
        let mut line = String::new();
        let mut d: usize = 0;
        while d < self.depth
            invariant
                d <= self.depth,
                line@ =~= trace_tabs(d as nat),
                self.depth == old(self).depth - 1,
                self.args_result_vec == old(self).args_result_vec,
                self.buf == old(self).buf,
            decreases self.depth - d,
        {
            line.append("\t");
            proof {
                reveal_strlit("\t");
                assert(line@ =~= trace_tabs(d as nat + 1));
            }
            d = d + 1;
        }
        line.append("<-- ");
        match ret {
            Some(s) => line.append(s),
            None => line.append("void"),
        }
        line.append("\n");
        proof {
            assert(line@ =~= trace_after_line(
                (old(self).depth - 1) as nat,
                match ret {
                    Some(s) => Some(s@),
                    None => None,
                },
            ));
        }
        self.write_line(&line);
    }

    /// Appends the UTF-8 bytes of `line` to the trace buffer.
    fn write_line(&mut self, line: &String)
        ensures
            final(self).depth == old(self).depth,
            final(self).args_result_vec == old(self).args_result_vec,
            final(self).buf@ == old(self).buf@ + vstd::utf8::encode_utf8(line@),
    {
        let bytes = line.as_str().as_bytes();
        let n = bytes.len();
        let mut i: usize = 0;
        proof {
            assert(bytes@.subrange(0, 0) =~= Seq::<u8>::empty());
            assert(self.buf@ + Seq::<u8>::empty() =~= self.buf@);
        }
        while i < n
            invariant
                i <= n,
                n == bytes@.len(),
                bytes@ == vstd::utf8::encode_utf8(line@),
                self.buf@ == old(self).buf@ + bytes@.subrange(0, i as int),
                self.depth == old(self).depth,
                self.args_result_vec == old(self).args_result_vec,
            decreases n - i,
        {
            self.buf.push(bytes[i]);
            proof {
                assert(bytes@.subrange(0, i as int + 1)
                    =~= bytes@.subrange(0, i as int).push(bytes@[i as int]));
                assert(self.buf@ =~= old(self).buf@ + bytes@.subrange(0, i as int + 1));
            }
            i = i + 1;
        }
        proof {
            assert(bytes@.subrange(0, n as int) =~= bytes@);
        }
    }
}

} // verus!
