//! The general laws of the formatter, stated over the same spec functions
//! that the executable functions' contracts use.

use crate::compose::{spec_format, spec_prefix, spec_scan, spec_tail};
use crate::render::{spec_render, spec_render_code};
use crate::value::Value;
use vstd::prelude::*;

verus! {

/// A template suffix without `%` passes through the scanner verbatim and
/// consumes no argument.
proof fn lemma_scan_no_percent(tmpl: Seq<char>, args: Seq<Value>, i: int, x: int)
    requires
        0 <= i <= tmpl.len(),
        forall|j: int| i <= j < tmpl.len() ==> tmpl[j] != '%',
    ensures
        spec_scan(tmpl, args, i, false, Seq::empty(), x).0 == tmpl.skip(i),
        spec_scan(tmpl, args, i, false, Seq::empty(), x).1 == x,
    decreases tmpl.len() - i,
{
    if i < tmpl.len() {
        lemma_scan_no_percent(tmpl, args, i + 1, x);
        assert(seq![tmpl[i]] + tmpl.skip(i + 1) =~= tmpl.skip(i));
    } else {
        assert(tmpl.skip(i) =~= Seq::<char>::empty());
    }
}

/// A textual first argument whose display text holds no `%` is emitted
/// verbatim: the line is the prefix, then the template, then the
/// space-joined default renderings of all other arguments.
pub proof fn lemma_plain_template(ctx: Seq<char>, args: Seq<Value>)
    requires
        args.len() > 0,
        args[0].category is Str,
        forall|j: int| 0 <= j < args[0].display_seq().len() ==> args[0].display_seq()[j] != '%',
    ensures
        spec_format(ctx, args) == spec_prefix(ctx) + args[0].display_seq() + spec_tail(args, 1),
{
    lemma_scan_no_percent(args[0].display_seq(), args, 0, 1);
    assert(args[0].display_seq().skip(0) =~= args[0].display_seq());
}

/// The field code `%.0f` renders exactly as a plain `%i` does.
pub proof fn lemma_zero_float_code_is_int(v: Value)
    ensures
        spec_render_code(seq!['%', '.', '0', 'f'], v) == spec_render('i', Option::None, v),
{
}

/// Each leftover argument contributes exactly one leading space and its
/// default rendering, in the original order.
pub proof fn lemma_leftover_step(args: Seq<Value>, k: int)
    requires
        0 <= k < args.len(),
    ensures
        spec_tail(args, k) == seq![' '] + args[k].default_seq() + spec_tail(args, k + 1),
{
}

/// The scanner's argument cursor never moves backwards and never passes the
/// end of the argument list: a template consumes at most the arguments that
/// exist, and once they are exhausted further directives consume nothing.
pub proof fn lemma_scan_cursor_bounds(
    tmpl: Seq<char>,
    args: Seq<Value>,
    i: int,
    in_field: bool,
    code: Seq<char>,
    x: int,
)
    requires
        0 <= x <= args.len(),
    ensures
        x <= spec_scan(tmpl, args, i, in_field, code, x).1 <= args.len(),
    decreases tmpl.len() - i,
{
    if 0 <= i < tmpl.len() {
        let c = tmpl[i];
        if in_field {
            if crate::render::is_kind_char(c) {
                if 0 <= x < args.len() {
                    lemma_scan_cursor_bounds(tmpl, args, i + 1, false, Seq::empty(), x + 1);
                } else {
                    lemma_scan_cursor_bounds(tmpl, args, i + 1, false, Seq::empty(), x);
                }
            } else {
                lemma_scan_cursor_bounds(tmpl, args, i + 1, true, code.push(c), x);
            }
        } else if c == '%' {
            lemma_scan_cursor_bounds(tmpl, args, i + 1, true, seq!['%'], x);
        } else {
            lemma_scan_cursor_bounds(tmpl, args, i + 1, false, code, x);
        }
    }
}

/// A non-textual, non-aggregate first argument is rendered through plain
/// display coercion as the sole consumed argument: no directive scanning
/// happens, and the remaining arguments follow the leftover rule.
pub proof fn lemma_plain_head(ctx: Seq<char>, args: Seq<Value>)
    requires
        args.len() > 0,
        !(args[0].category is Str),
        !args[0].is_aggregate(),
    ensures
        spec_format(ctx, args) == spec_prefix(ctx) + args[0].display_seq() + spec_tail(args, 1),
{
}

/// An aggregate first argument is rendered through structured serialization
/// and never treated as a template, whatever characters — `%` included —
/// its structured text happens to hold.
pub proof fn lemma_aggregate_head(ctx: Seq<char>, args: Seq<Value>)
    requires
        args.len() > 0,
        args[0].is_aggregate(),
    ensures
        spec_format(ctx, args) == spec_prefix(ctx) + args[0].structured_seq() + spec_tail(args, 1),
{
}

} // verus!
