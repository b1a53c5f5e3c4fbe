//! The line composer: prefixes the context tag, classifies the first
//! argument, scans it for directives when it is textual, and appends the
//! leftover arguments space-separated with their default rendering.

use crate::render::{is_kind_char, render_code_chars, spec_render_code};
use crate::text::{chars_string, str_chars};
use crate::value::Value;
use vstd::prelude::*;

verus! {

/// The context tag that opens every line.
pub open spec fn spec_prefix(ctx: Seq<char>) -> Seq<char> {
    "CONTEXT:["@ + ctx + "]: "@
}

/// One pass of the directive scanner over the template suffix starting at
/// `i`, with the current in-directive flag, accumulated field code and
/// argument cursor. Yields the text the suffix contributes and the final
/// cursor. A directive that completes with no argument left is emitted
/// verbatim; a directive still open at the end of the template is dropped.
pub open spec fn spec_scan(
    tmpl: Seq<char>,
    args: Seq<Value>,
    i: int,
    in_field: bool,
    code: Seq<char>,
    x: int,
) -> (Seq<char>, int)
    decreases tmpl.len() - i,
{
    if i < 0 || i >= tmpl.len() {
        (Seq::empty(), x)
    } else {
        let c = tmpl[i];
        if in_field {
            let code2 = code.push(c);
            if is_kind_char(c) {
                if 0 <= x < args.len() {
                    let rec = spec_scan(tmpl, args, i + 1, false, Seq::empty(), x + 1);
                    (spec_render_code(code2, args[x]) + rec.0, rec.1)
                } else {
                    let rec = spec_scan(tmpl, args, i + 1, false, Seq::empty(), x);
                    (code2 + rec.0, rec.1)
                }
            } else {
                spec_scan(tmpl, args, i + 1, true, code2, x)
            }
        } else if c == '%' {
            spec_scan(tmpl, args, i + 1, true, seq!['%'], x)
        } else {
            let rec = spec_scan(tmpl, args, i + 1, false, code, x);
            (seq![c] + rec.0, rec.1)
        }
    }
}

/// The space-separated default renderings of the arguments from index `k`
/// on: each contributes one leading space and its default rendering.
pub open spec fn spec_tail(args: Seq<Value>, k: int) -> Seq<char>
    decreases args.len() - k,
{
    if k < 0 || k >= args.len() {
        Seq::empty()
    } else {
        seq![' '] + args[k].default_seq() + spec_tail(args, k + 1)
    }
}

/// The whole formatted line: the context tag; then, for a textual first
/// argument, its display text scanned for directives; for an aggregate, its
/// structured text verbatim; otherwise its display text verbatim; then the
/// leftover arguments.
pub open spec fn spec_format(ctx: Seq<char>, args: Seq<Value>) -> Seq<char> {
    let pre = spec_prefix(ctx);
    if args.len() == 0 {
        pre
    } else if args[0].category is Str {
        let scanned = spec_scan(args[0].display_seq(), args, 0, false, Seq::empty(), 1);
        pre + scanned.0 + spec_tail(args, scanned.1)
    } else if args[0].is_aggregate() {
        pre + args[0].structured_seq() + spec_tail(args, 1)
    } else {
        pre + args[0].display_seq() + spec_tail(args, 1)
    }
}

/// Composes one log line out of the context id and the call's arguments.
pub fn format(context_id: &str, args: &Vec<Value>) -> (r: String)
    ensures
        r@ == spec_format(context_id@, args@),
{
    let mut out: Vec<char> = str_chars("CONTEXT:[");
    let mut ctx_chars = str_chars(context_id);
    out.append(&mut ctx_chars);
    let mut sep_chars = str_chars("]: ");
    out.append(&mut sep_chars);
    assert(out@ =~= spec_prefix(context_id@));
    if args.len() == 0 {
        return chars_string(&out);
    }
    let head: &Value = &args[0];
    let message: String = head.default_render();
    let filled: usize;
    let is_template = match head.category {
        crate::value::Category::Str => true,
        _ => false,
    };
    if is_template {
        let tmpl = str_chars(message.as_str());
        assert(tmpl@ == args@[0].display_seq());
        let ghost base = out@;
        let ghost scan0 = spec_scan(tmpl@, args@, 0, false, Seq::empty(), 1);
        let mut i: usize = 0;
        let mut in_field = false;
        let mut code: Vec<char> = Vec::new();
        let mut x: usize = 1;
        assert(out@ + scan0.0 =~= base + scan0.0);
        while i < tmpl.len()
            invariant
                i <= tmpl@.len(),
                1 <= x <= args@.len(),
                in_field ==> code@.len() >= 1,
                out@ + spec_scan(tmpl@, args@, i as int, in_field, code@, x as int).0 == base
                    + scan0.0,
                spec_scan(tmpl@, args@, i as int, in_field, code@, x as int).1 == scan0.1,
            decreases tmpl@.len() - i,
        {
            let ghost pre_out = out@;
            let ghost pre_code = code@;
            let c = tmpl[i];
            if in_field {
                code.push(c);
                if c == 's' || c == 'd' || c == 'i' || c == 'f' || c == 'o' || c == 'O' {
                    if x < args.len() {
                        let mut piece = render_code_chars(&code, &args[x]);
                        proof {
                            let rec = spec_scan(tmpl@, args@, i + 1, false, Seq::empty(), x + 1);
                            assert((pre_out + (piece@ + rec.0)) =~= ((pre_out + piece@) + rec.0));
                        }
                        out.append(&mut piece);
                        x += 1;
                    } else {
                        proof {
                            let rec = spec_scan(tmpl@, args@, i + 1, false, Seq::empty(), x as int);
                            assert((pre_out + (code@ + rec.0)) =~= ((pre_out + code@) + rec.0));
                        }
                        out.append(&mut code);
                    }
                    in_field = false;
                    code.clear();
                }
            } else if c == '%' {
                in_field = true;
                code.clear();
                code.push('%');
                assert(code@ =~= seq!['%']);
            } else {
                proof {
                    let rec = spec_scan(tmpl@, args@, i + 1, false, pre_code, x as int);
                    assert((pre_out + (seq![c] + rec.0)) =~= (pre_out.push(c) + rec.0));
                }
                out.push(c);
            }
            i += 1;
        }
        proof {
            assert(spec_scan(tmpl@, args@, i as int, in_field, code@, x as int).0
                =~= Seq::<char>::empty());
            assert(out@ + Seq::<char>::empty() =~= out@);
        }
        filled = x;
        assert(out@ == base + scan0.0);
        assert(filled as int == scan0.1);
    } else {
        let mut message_chars = str_chars(message.as_str());
        out.append(&mut message_chars);
        filled = 1;
    }
    let ghost mid = out@;
    let mut k: usize = filled;
    while k < args.len()
        invariant
            k <= args@.len(),
            out@ + spec_tail(args@, k as int) == mid + spec_tail(args@, filled as int),
        decreases args@.len() - k,
    {
        let ghost pre_out = out@;
        out.push(' ');
        let piece = args[k].default_render();
        let mut piece_chars = str_chars(piece.as_str());
        proof {
            let rest = spec_tail(args@, k + 1);
            assert((pre_out + (seq![' '] + args@[k as int].default_seq() + rest)) =~= ((
            pre_out.push(' ') + piece_chars@) + rest));
        }
        out.append(&mut piece_chars);
        k += 1;
    }
    assert(out@ =~= out@ + spec_tail(args@, k as int));
    chars_string(&out)
}

} // verus!
