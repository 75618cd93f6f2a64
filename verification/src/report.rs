//! Rendering of step traces and verdicts.
//!
//! Each executed step is reported as one line, `Call: <target>(<args>)`,
//! with the synthesized argument values written out: booleans as `true`
//! or `false`, addresses and integers as `0x` followed by the big-endian
//! bytes in lowercase hexadecimal.  Termination is reported as exactly
//! one verdict line: `<property> broken`, or `All invariants hold`, or
//! `Nothing to fuzz` for a campaign that never started.

use vstd::prelude::*;
use crate::campaign::{CallView, Status, TraceEntry};
use crate::value::{Value, ValueView};

verus! {

/// The lowercase hexadecimal digit for `n < 16`.
pub open spec fn hex_digit(n: u8) -> char {
    if n == 0 {
        '0'
    } else if n == 1 {
        '1'
    } else if n == 2 {
        '2'
    } else if n == 3 {
        '3'
    } else if n == 4 {
        '4'
    } else if n == 5 {
        '5'
    } else if n == 6 {
        '6'
    } else if n == 7 {
        '7'
    } else if n == 8 {
        '8'
    } else if n == 9 {
        '9'
    } else if n == 10 {
        'a'
    } else if n == 11 {
        'b'
    } else if n == 12 {
        'c'
    } else if n == 13 {
        'd'
    } else if n == 14 {
        'e'
    } else {
        'f'
    }
}

/// The two digits of one byte, high nibble first.
pub open spec fn hex_pair(b: u8) -> Seq<char> {
    seq![hex_digit(b >> 4), hex_digit(b & 0x0F)]
}

/// The digits of a byte sequence, in order.
pub open spec fn hex_of(bs: Seq<u8>) -> Seq<char>
    decreases bs.len(),
{
    if bs.len() == 0 {
        Seq::empty()
    } else {
        hex_of(bs.drop_last()) + hex_pair(bs.last())
    }
}

/// The rendering of one argument value.
pub open spec fn render_value(v: ValueView) -> Seq<char> {
    match v {
        ValueView::Bool(b) => if b {
            "true"@
        } else {
            "false"@
        },
        ValueView::Address(bs) => "0x"@ + hex_of(bs),
        ValueView::UnsignedInt(bs) => "0x"@ + hex_of(bs),
        ValueView::SignedInt(bs) => "0x"@ + hex_of(bs),
        ValueView::Other => "?"@,
    }
}

/// The renderings of an argument list, separated by `", "`.
pub open spec fn render_args(args: Seq<ValueView>) -> Seq<char>
    decreases args.len(),
{
    if args.len() == 0 {
        Seq::empty()
    } else if args.len() == 1 {
        render_value(args[0])
    } else {
        render_args(args.drop_last()) + ", "@ + render_value(args.last())
    }
}

/// The step line for one executed call.
pub open spec fn call_line(c: CallView) -> Seq<char> {
    "Call: "@ + c.target + "("@ + render_args(c.args) + ")"@
}

/// The verdict line for a campaign that is past `Running`.
pub open spec fn verdict_line(status: Status) -> Seq<char> {
    match status {
        Status::Running => Seq::empty(),
        Status::NothingToFuzz => "Nothing to fuzz"@,
        Status::Violated { property, step } => property@ + " broken"@,
        Status::Exhausted => "All invariants hold"@,
    }
}

/// The digit `n < 16` as a string slice.
fn hex_digit_str(n: u8) -> (s: &'static str)
    requires
        n < 16,
    ensures
        s@ == seq![hex_digit(n)],
{
    proof {
        reveal_strlit("0");
        reveal_strlit("1");
        reveal_strlit("2");
        reveal_strlit("3");
        reveal_strlit("4");
        reveal_strlit("5");
        reveal_strlit("6");
        reveal_strlit("7");
        reveal_strlit("8");
        reveal_strlit("9");
        reveal_strlit("a");
        reveal_strlit("b");
        reveal_strlit("c");
        reveal_strlit("d");
        reveal_strlit("e");
        reveal_strlit("f");
    }
    let s: &'static str = match n {
        0 => "0",
        1 => "1",
        2 => "2",
        3 => "3",
        4 => "4",
        5 => "5",
        6 => "6",
        7 => "7",
        8 => "8",
        9 => "9",
        10 => "a",
        11 => "b",
        12 => "c",
        13 => "d",
        14 => "e",
        _ => "f",
    };
    proof {
        assert(s@ =~= seq![hex_digit(n)]);
    }
    s
}

/// Append the digits of `bs` to `out`.
#[verifier::loop_isolation(false)]
fn append_hex(out: &mut String, bs: &Vec<u8>)
    ensures
        final(out)@ == old(out)@ + hex_of(bs@),
{
    let mut i: usize = 0;
    while i < bs.len()
        invariant
            i <= bs.len(),
            out@ == old(out)@ + hex_of(bs@.take(i as int)),
        decreases bs.len() - i,
    {
        let b = bs[i];
        proof {
            assert(b >> 4 < 16) by (bit_vector);
            assert(b & 0x0F < 16) by (bit_vector);
        }
        out.append(hex_digit_str(b >> 4));
        out.append(hex_digit_str(b & 0x0F));
        proof {
            assert(bs@.take(i + 1).drop_last() =~= bs@.take(i as int));
            assert(bs@.take(i + 1).last() == bs@[i as int]);
            assert(out@ =~= old(out)@ + hex_of(bs@.take(i + 1)));
        }
        i = i + 1;
    }
    proof {
        assert(bs@.take(bs@.len() as int) =~= bs@);
    }
}

/// Append the rendering of `v` to `out`.
fn append_value(out: &mut String, v: &Value)
    ensures
        final(out)@ == old(out)@ + render_value(v.deep_view()),
{
    match v {
        Value::Bool(b) => {
            if *b {
                out.append("true");
            } else {
                out.append("false");
            }
        },
        Value::Address(bs) => {
            out.append("0x");
            append_hex(out, bs);
        },
        Value::UnsignedInt(bs) => {
            out.append("0x");
            append_hex(out, bs);
        },
        Value::SignedInt(bs) => {
            out.append("0x");
            append_hex(out, bs);
        },
        Value::Other => {
            out.append("?");
        },
    }
    proof {
        assert(out@ =~= old(out)@ + render_value(v.deep_view()));
    }
}

/// The step line for one executed call: the chosen target's name and the
/// concrete synthesized argument values, in order.
#[verifier::loop_isolation(false)]
pub fn format_call(entry: &TraceEntry) -> (s: String)
    ensures
        s@ == call_line(entry.deep_view()),
{
    let mut out = String::new();
    out.append("Call: ");
    out.append(entry.target.as_str());
    out.append("(");
    let ghost head = "Call: "@ + entry.target@ + "("@;
    proof {
        assert(out@ =~= head);
    }
    let mut i: usize = 0;
    while i < entry.args.len()
        invariant
            i <= entry.args.len(),
            out@ == head + render_args(entry.args.deep_view().take(i as int)),
        decreases entry.args.len() - i,
    {
        if i > 0 {
            out.append(", ");
        }
        append_value(&mut out, &entry.args[i]);
        proof {
            let av = entry.args.deep_view();
            assert(av[i as int] == entry.args@[i as int].deep_view());
            assert(av.take(i + 1).drop_last() =~= av.take(i as int));
            assert(av.take(i + 1).last() == av[i as int]);
            if i == 0 {
                assert(render_args(av.take(0)) =~= Seq::<char>::empty());
                assert(out@ =~= head + render_args(av.take(1)));
            } else {
                assert(out@ =~= head + render_args(av.take(i + 1)));
            }
        }
        i = i + 1;
    }
    out.append(")");
    proof {
        let av = entry.args.deep_view();
        assert(av.take(av.len() as int) =~= av);
        assert(out@ =~= call_line(entry.deep_view()));
    }
    out
}

/// The single verdict line of a campaign that is past `Running`: the
/// broken property's name, or a statement that every invariant held, or
/// that there was nothing to fuzz.
pub fn format_verdict(status: &Status) -> (s: String)
    requires
        !(status is Running),
    ensures
        s@ == verdict_line(*status),
{
    match status {
        Status::Running => String::new(),
        Status::NothingToFuzz => {
            let mut s = String::new();
            s.append("Nothing to fuzz");
            s
        },
        Status::Violated { property, step: _ } => {
            let mut s = property.clone();
            s.append(" broken");
            s
        },
        Status::Exhausted => {
            let mut s = String::new();
            s.append("All invariants hold");
            s
        },
    }
}

} // verus!
