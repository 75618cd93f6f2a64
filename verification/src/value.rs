//! Runtime values and type-directed random synthesis.
//!
//! A value carries its payload as plain bytes: an address as 20 bytes, an
//! integer as its big-endian bytes.  Synthesis is a pure function of the
//! declared parameter type and the generator state: booleans are uniform
//! over two values, addresses are 20 random bytes, 256-bit integers are 32
//! random bytes read big-endian (unsigned or two's-complement).  A type
//! outside that matrix yields no value at all rather than a best-effort
//! one.

use vstd::prelude::*;
use vstd::arithmetic::power2::{pow2, lemma_pow2_adds, lemma_pow2_pos, lemma2_to64};
use crate::abi::ParameterType;
use crate::rng::{FuzzRng, draw_value, draw_bytes, next_state};

verus! {

/// A concrete argument or return value.
#[derive(Clone, Debug, PartialEq, Eq)]
pub enum Value {
    /// A boolean.
    Bool(bool),
    /// A 160-bit account identifier: exactly 20 bytes.
    Address(Vec<u8>),
    /// An unsigned integer, big-endian.
    UnsignedInt(Vec<u8>),
    /// A two's-complement integer, big-endian.
    SignedInt(Vec<u8>),
    /// A value of a kind the synthesizer never produces, carried opaquely
    /// so that a read result of any shape can be inspected.
    Other,
}

/// The mathematical shape of a value.
#[verifier::ext_equal]
pub ghost enum ValueView {
    Bool(bool),
    Address(Seq<u8>),
    UnsignedInt(Seq<u8>),
    SignedInt(Seq<u8>),
    Other,
}

impl DeepView for Value {
    type V = ValueView;

    open spec fn deep_view(&self) -> ValueView {
        match self {
            Value::Bool(b) => ValueView::Bool(*b),
            Value::Address(bs) => ValueView::Address(bs@),
            Value::UnsignedInt(bs) => ValueView::UnsignedInt(bs@),
            Value::SignedInt(bs) => ValueView::SignedInt(bs@),
            Value::Other => ValueView::Other,
        }
    }
}

/// The unsigned integer read big-endian from `bs`.
pub open spec fn be_unsigned(bs: Seq<u8>) -> nat
    decreases bs.len(),
{
    if bs.len() == 0 {
        0
    } else {
        (be_unsigned(bs.drop_last()) * 256 + bs.last()) as nat
    }
}

/// The two's-complement integer read big-endian from `bs`.
pub open spec fn be_signed(bs: Seq<u8>) -> int {
    if bs.len() == 0 {
        0
    } else if be_unsigned(bs) < pow2((8 * bs.len() - 1) as nat) {
        be_unsigned(bs) as int
    } else {
        be_unsigned(bs) as int - pow2(8 * bs.len()) as int
    }
}

/// A big-endian reading is below `2^(8·len)`.
pub proof fn lemma_be_unsigned_bound(bs: Seq<u8>)
    ensures
        be_unsigned(bs) < pow2(8 * bs.len()),
    decreases bs.len(),
{
    if bs.len() == 0 {
        lemma_pow2_pos(0);
    } else {
        let pre = bs.drop_last();
        lemma_be_unsigned_bound(pre);
        lemma_pow2_adds(8 * pre.len(), 8);
        lemma2_to64();
        let a = be_unsigned(pre);
        let cap = pow2(8 * pre.len());
        assert(a * 256 + bs.last() < cap * 256) by (nonlinear_arith)
            requires
                a < cap,
                bs.last() < 256,
        ;
    }
}

/// A big-endian two's-complement reading of a non-empty sequence lies in
/// `[-2^(8·len-1), 2^(8·len-1))`.
pub proof fn lemma_be_signed_bound(bs: Seq<u8>)
    requires
        bs.len() > 0,
    ensures
        -(pow2((8 * bs.len() - 1) as nat) as int) <= be_signed(bs) < pow2(
            (8 * bs.len() - 1) as nat,
        ),
{
    let half = pow2((8 * bs.len() - 1) as nat);
    lemma_be_unsigned_bound(bs);
    lemma_pow2_pos((8 * bs.len() - 1) as nat);
    lemma_pow2_adds((8 * bs.len() - 1) as nat, 1);
    lemma2_to64();
    assert(pow2(8 * bs.len()) == half * 2);
}

/// Whether a declared type has a synthesis rule.
pub open spec fn spec_synthesizable(ty: ParameterType) -> bool {
    match ty {
        ParameterType::Boolean => true,
        ParameterType::Address => true,
        ParameterType::UnsignedInteger(w) => w == 256,
        ParameterType::SignedInteger(w) => w == 256,
        ParameterType::FixedBytes(_) => false,
        ParameterType::Other => false,
    }
}

/// Whether `v` is a well-formed value of declared type `ty`, within the
/// type's declared range.
pub open spec fn value_fits(v: ValueView, ty: ParameterType) -> bool {
    match ty {
        ParameterType::Boolean => v is Bool,
        ParameterType::Address => v matches ValueView::Address(bs) && bs.len() == 20,
        ParameterType::UnsignedInteger(w) => v matches ValueView::UnsignedInt(bs) && 8 * bs.len()
            == w && be_unsigned(bs) < pow2(w as nat),
        ParameterType::SignedInteger(w) => v matches ValueView::SignedInt(bs) && 8 * bs.len() == w
            && w >= 1 && -(pow2((w - 1) as nat) as int) <= be_signed(bs) < pow2((w - 1) as nat),
        ParameterType::FixedBytes(_) => false,
        ParameterType::Other => false,
    }
}

/// The value synthesized for `ty` from generator state `s`, with the state
/// left behind, or nothing if `ty` has no synthesis rule.
pub open spec fn synth_one(ty: ParameterType, s: u64) -> Option<(ValueView, u64)> {
    match ty {
        ParameterType::Boolean => Some(
            (ValueView::Bool(draw_value(s) & 1 == 1), next_state(s)),
        ),
        ParameterType::Address => {
            let (bs, s1) = draw_bytes(s, 20);
            Some((ValueView::Address(bs), s1))
        },
        ParameterType::UnsignedInteger(w) => {
            if w == 256 {
                let (bs, s1) = draw_bytes(s, 32);
                Some((ValueView::UnsignedInt(bs), s1))
            } else {
                None
            }
        },
        ParameterType::SignedInteger(w) => {
            if w == 256 {
                let (bs, s1) = draw_bytes(s, 32);
                Some((ValueView::SignedInt(bs), s1))
            } else {
                None
            }
        },
        ParameterType::FixedBytes(_) => None,
        ParameterType::Other => None,
    }
}

/// The argument list synthesized for `tys` from state `s`, in declared
/// order, or nothing if any element has no synthesis rule.
pub open spec fn synth_list(tys: Seq<ParameterType>, s: u64) -> Option<(Seq<ValueView>, u64)>
    decreases tys.len(),
{
    if tys.len() == 0 {
        Some((Seq::empty(), s))
    } else {
        match synth_list(tys.drop_last(), s) {
            None => None,
            Some((vs, s1)) => match synth_one(tys.last(), s1) {
                None => None,
                Some((v, s2)) => Some((vs.push(v), s2)),
            },
        }
    }
}

/// A failed prefix makes the whole list fail.
pub proof fn lemma_synth_list_none(tys: Seq<ParameterType>, s: u64, k: int)
    requires
        0 <= k <= tys.len(),
        synth_list(tys.take(k), s) is None,
    ensures
        synth_list(tys, s) is None,
    decreases tys.len() - k,
{
    if k == tys.len() {
        assert(tys.take(k) =~= tys);
    } else {
        assert(tys.take(k + 1).drop_last() =~= tys.take(k));
        lemma_synth_list_none(tys, s, k + 1);
    }
}

/// The length of a drawn byte sequence is the count asked for.
pub proof fn lemma_draw_bytes_len(s: u64, n: nat)
    ensures
        draw_bytes(s, n).0.len() == n,
    decreases n,
{
    if n > 0 {
        lemma_draw_bytes_len(s, (n - 1) as nat);
    }
}

/// For every supported parameter type, synthesis succeeds and returns a
/// value within that type's declared range: a boolean is one of exactly
/// two values, an address is exactly 20 bytes, a 256-bit unsigned value is
/// strictly below `2^256`, and a 256-bit signed value lies in
/// `[-2^255, 2^255)`.
pub proof fn lemma_synthesize_in_range(ty: ParameterType, s: u64)
    requires
        spec_synthesizable(ty),
    ensures
        match synth_one(ty, s) {
            Some((v, _)) => value_fits(v, ty),
            None => false,
        },
{
    match ty {
        ParameterType::Boolean => {
        },
        ParameterType::Address => {
            lemma_draw_bytes_len(s, 20);
        },
        ParameterType::UnsignedInteger(w) => {
            lemma_draw_bytes_len(s, 32);
            let (bs, s1) = draw_bytes(s, 32);
            lemma_be_unsigned_bound(bs);
        },
        ParameterType::SignedInteger(w) => {
            lemma_draw_bytes_len(s, 32);
            let (bs, s1) = draw_bytes(s, 32);
            lemma_be_signed_bound(bs);
        },
        ParameterType::FixedBytes(_) => {
        },
        ParameterType::Other => {
        },
    }
}

/// Synthesize a value of declared type `ty`, consuming generator state, or
/// return nothing, with the generator untouched, if `ty` has no synthesis
/// rule.  The caller reports the missing rule as a fatal failure.
pub fn synthesize(ty: ParameterType, rng: &mut FuzzRng) -> (r: Option<Value>)
    ensures
        match synth_one(ty, old(rng).state) {
            Some((v, s2)) => r matches Some(val) && val.deep_view() == v && final(rng).state == s2,
            None => r is None && final(rng).state == old(rng).state,
        },
        r is Some <==> spec_synthesizable(ty),
{
    match ty {
        ParameterType::Boolean => {
            let bits = rng.next_u64();
            Some(Value::Bool(bits & 1 == 1))
        },
        ParameterType::Address => {
            let bs = rng.next_bytes(20);
            Some(Value::Address(bs))
        },
        ParameterType::UnsignedInteger(w) => {
            if w == 256 {
                let bs = rng.next_bytes(32);
                Some(Value::UnsignedInt(bs))
            } else {
                None
            }
        },
        ParameterType::SignedInteger(w) => {
            if w == 256 {
                let bs = rng.next_bytes(32);
                Some(Value::SignedInt(bs))
            } else {
                None
            }
        },
        ParameterType::FixedBytes(_) => None,
        ParameterType::Other => None,
    }
}

} // verus!
