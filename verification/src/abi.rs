//! The catalog of a contract's callable surface.
//!
//! An interface description is an ordered list of function signatures.  A
//! function whose name begins with the reserved prefix `invariant_`, takes
//! no parameters and returns exactly one boolean is a *property*: a
//! read-only assertion checked after every mutating call.  A function
//! without the prefix whose mutability is `Mutating` is a *target*:
//! eligible for random invocation.  Everything else is never invoked.  A
//! prefixed function of any other shape is an error, not silently dropped.

use vstd::prelude::*;
use crate::errors::FuzzError;

verus! {

/// The mutability class of a contract function.
#[derive(Clone, Copy, Debug, PartialEq, Eq, Structural)]
pub enum Mutability {
    /// Reads neither state nor environment.
    Pure,
    /// Reads state but cannot change it.
    ReadOnly,
    /// May change contract state.
    Mutating,
}

/// A declared parameter or return type.  Only booleans, addresses and
/// 256-bit integers can be synthesized; the other variants are
/// representable but not fuzzable.
#[derive(Clone, Copy, Debug, PartialEq, Eq, Structural)]
pub enum ParameterType {
    /// `bool`.
    Boolean,
    /// A 160-bit account identifier, carried as 20 bytes.
    Address,
    /// An unsigned integer of the given bit width.
    UnsignedInteger(u32),
    /// A two's-complement integer of the given bit width.
    SignedInteger(u32),
    /// A fixed-size byte array of the given length.
    FixedBytes(u32),
    /// A declared type of any other kind.
    Other,
}

/// One entry of an interface description, immutable once parsed.
#[derive(Clone, Debug)]
pub struct FunctionSignature {
    pub name: String,
    pub inputs: Vec<ParameterType>,
    pub mutability: Mutability,
    pub outputs: Vec<ParameterType>,
}

/// The mathematical shape of a signature.
#[verifier::ext_equal]
pub ghost struct SigView {
    pub name: Seq<char>,
    pub inputs: Seq<ParameterType>,
    pub mutability: Mutability,
    pub outputs: Seq<ParameterType>,
}

impl DeepView for FunctionSignature {
    type V = SigView;

    open spec fn deep_view(&self) -> SigView {
        SigView {
            name: self.name@,
            inputs: self.inputs@,
            mutability: self.mutability,
            outputs: self.outputs@,
        }
    }
}

/// The role a signature plays in a campaign, derived, never stored.
#[derive(Clone, Copy, Debug, PartialEq, Eq, Structural)]
pub enum Role {
    /// A checkable assertion: prefixed name, no parameters, one boolean out.
    Property,
    /// A mutating entry point without the reserved prefix.
    Target,
    /// Never invoked.
    Neither,
}

/// Whether `name` begins with the reserved prefix `invariant_`.
pub open spec fn spec_has_invariant_prefix(name: Seq<char>) -> bool {
    name.len() >= 10 && name.subrange(0, 10) == "invariant_"@
}

/// A well-shaped property: prefixed, no parameters, exactly one boolean
/// return.
pub open spec fn spec_is_property(f: SigView) -> bool {
    spec_has_invariant_prefix(f.name) && f.inputs.len() == 0 && f.outputs
        == seq![ParameterType::Boolean]
}

/// A prefixed function whose shape deviates from the property shape.
pub open spec fn spec_is_malformed_property(f: SigView) -> bool {
    spec_has_invariant_prefix(f.name) && !(f.inputs.len() == 0 && f.outputs
        == seq![ParameterType::Boolean])
}

/// A fuzzing target: unprefixed and state-mutating.
pub open spec fn spec_is_target(f: SigView) -> bool {
    !spec_has_invariant_prefix(f.name) && f.mutability == Mutability::Mutating
}

/// The role of a well-shaped signature.
pub open spec fn spec_role(f: SigView) -> Role {
    if spec_is_property(f) {
        Role::Property
    } else if spec_is_target(f) {
        Role::Target
    } else {
        Role::Neither
    }
}

/// The properties of an interface, in declaration order.
pub open spec fn properties_of(fs: Seq<SigView>) -> Seq<SigView>
    decreases fs.len(),
{
    if fs.len() == 0 {
        Seq::empty()
    } else {
        let pre = properties_of(fs.drop_last());
        if spec_is_property(fs.last()) {
            pre.push(fs.last())
        } else {
            pre
        }
    }
}

/// The targets of an interface, in declaration order.
pub open spec fn targets_of(fs: Seq<SigView>) -> Seq<SigView>
    decreases fs.len(),
{
    if fs.len() == 0 {
        Seq::empty()
    } else {
        let pre = targets_of(fs.drop_last());
        if spec_is_target(fs.last()) {
            pre.push(fs.last())
        } else {
            pre
        }
    }
}

/// Whether `name` begins with `invariant_`.
pub fn has_invariant_prefix(name: &str) -> (b: bool)
    ensures
        b == spec_has_invariant_prefix(name@),
{
    proof {
        reveal_strlit("invariant_");
    }
    let prefix: &str = "invariant_";
    let n = name.unicode_len();
    if n < 10 {
        return false;
    }
    let mut i: usize = 0;
    while i < 10
        invariant
            i <= 10,
            name@.len() >= 10,
            prefix@ == "invariant_"@,
            forall|j: int| 0 <= j < i ==> name@[j] == ("invariant_"@)[j],
        decreases 10 - i,
    {
        proof {
            reveal_strlit("invariant_");
        }
        let c = name.get_char(i);
        let p = prefix.get_char(i);
        if c != p {
            proof {
                assert(name@.subrange(0, 10)[i as int] != ("invariant_"@)[i as int]);
            }
            return false;
        }
        i = i + 1;
    }
    proof {
        assert(name@.subrange(0, 10) =~= "invariant_"@);
    }
    true
}

/// Copy a parameter list.
fn copy_params(ps: &Vec<ParameterType>) -> (r: Vec<ParameterType>)
    ensures
        r@ == ps@,
{
    let mut out: Vec<ParameterType> = Vec::new();
    let mut i: usize = 0;
    while i < ps.len()
        invariant
            i <= ps.len(),
            out@ == ps@.take(i as int),
        decreases ps.len() - i,
    {
        out.push(ps[i]);
        proof {
            assert(out@ =~= ps@.take(i + 1));
        }
        i = i + 1;
    }
    proof {
        assert(ps@.take(ps@.len() as int) =~= ps@);
    }
    out
}

/// An exact copy of a signature.
pub fn clone_signature(f: &FunctionSignature) -> (r: FunctionSignature)
    ensures
        r.deep_view() == f.deep_view(),
{
    FunctionSignature {
        name: f.name.clone(),
        inputs: copy_params(&f.inputs),
        mutability: f.mutability,
        outputs: copy_params(&f.outputs),
    }
}

/// The role of a signature.
pub fn role_of(f: &FunctionSignature) -> (r: Result<Role, FuzzError>)
    ensures
        match r {
            Ok(role) => !spec_is_malformed_property(f.deep_view()) && role == spec_role(
                f.deep_view(),
            ),
            Err(e) => spec_is_malformed_property(f.deep_view()) && (e matches
                FuzzError::InvariantShape { function, step } && function@ == f.name@ && step == 0),
        },
{
    if has_invariant_prefix(f.name.as_str()) {
        let shape_ok = f.inputs.len() == 0 && f.outputs.len() == 1 && f.outputs[0]
            == ParameterType::Boolean;
        if shape_ok {
            proof {
                assert(f.outputs@ =~= seq![ParameterType::Boolean]);
            }
            Ok(Role::Property)
        } else {
            proof {
                if f.outputs@ == seq![ParameterType::Boolean] {
                    assert(f.outputs@.len() == 1);
                    assert(f.outputs@[0] == ParameterType::Boolean);
                }
            }
            Err(FuzzError::InvariantShape { function: f.name.clone(), step: 0 })
        }
    } else {
        if f.mutability == Mutability::Mutating {
            Ok(Role::Target)
        } else {
            Ok(Role::Neither)
        }
    }
}

/// Extract the properties of an interface, in declaration order.
///
/// Fails on the first prefixed function whose shape deviates from the
/// property shape; no deviating function is ever silently dropped.
pub fn find_properties(interface: &Vec<FunctionSignature>) -> (r: Result<
    Vec<FunctionSignature>,
    FuzzError,
>)
    ensures
        match r {
            Ok(props) => (forall|j: int|
                0 <= j < interface.deep_view().len() ==> !spec_is_malformed_property(
                    interface.deep_view()[j],
                )) && props.deep_view() == properties_of(interface.deep_view()),
            Err(e) => exists|i: int|
                0 <= i < interface.deep_view().len() && spec_is_malformed_property(
                    interface.deep_view()[i],
                ) && (forall|j: int|
                    0 <= j < i ==> !spec_is_malformed_property(interface.deep_view()[j])) && (
                e matches FuzzError::InvariantShape { function, step } && function@
                    == interface.deep_view()[i].name && step == 0),
        },
{
    let ghost fsv = interface.deep_view();
    let mut props: Vec<FunctionSignature> = Vec::new();
    let mut i: usize = 0;
    while i < interface.len()
        invariant
            i <= interface.len(),
            fsv == interface.deep_view(),
            props.deep_view() == properties_of(fsv.take(i as int)),
            forall|j: int| 0 <= j < i ==> !spec_is_malformed_property(fsv[j]),
        decreases interface.len() - i,
    {
        let f = &interface[i];
        match role_of(f) {
            Ok(role) => {
                proof {
                    assert(fsv.take(i + 1).drop_last() =~= fsv.take(i as int));
                    assert(fsv.take(i + 1).last() == fsv[i as int]);
                }
                if role == Role::Property {
                    let copy = clone_signature(f);
                    props.push(copy);
                    proof {
                        assert(props.deep_view() =~= properties_of(fsv.take(i + 1)));
                    }
                } else {
                    proof {
                        assert(props.deep_view() =~= properties_of(fsv.take(i + 1)));
                    }
                }
            },
            Err(e) => {
                proof {
                    assert(f.deep_view() == fsv[i as int]);
                    assert(0 <= i < fsv.len() && spec_is_malformed_property(fsv[i as int])
                        && (forall|j: int|
                        0 <= j < i ==> !spec_is_malformed_property(fsv[j])));
                }
                return Err(e);
            },
        }
        i = i + 1;
    }
    proof {
        assert(fsv.take(fsv.len() as int) =~= fsv);
    }
    Ok(props)
}

/// Extract the fuzzing targets of an interface, in declaration order.
pub fn find_fuzz_targets(interface: &Vec<FunctionSignature>) -> (r: Vec<FunctionSignature>)
    ensures
        r.deep_view() == targets_of(interface.deep_view()),
{
    let ghost fsv = interface.deep_view();
    let mut targets: Vec<FunctionSignature> = Vec::new();
    let mut i: usize = 0;
    while i < interface.len()
        invariant
            i <= interface.len(),
            fsv == interface.deep_view(),
            targets.deep_view() == targets_of(fsv.take(i as int)),
        decreases interface.len() - i,
    {
        let f = &interface[i];
        proof {
            assert(fsv.take(i + 1).drop_last() =~= fsv.take(i as int));
            assert(fsv.take(i + 1).last() == fsv[i as int]);
        }
        let is_target = !has_invariant_prefix(f.name.as_str()) && f.mutability
            == Mutability::Mutating;
        if is_target {
            let copy = clone_signature(f);
            targets.push(copy);
            proof {
                assert(targets.deep_view() =~= targets_of(fsv.take(i + 1)));
            }
        } else {
            proof {
                assert(targets.deep_view() =~= targets_of(fsv.take(i + 1)));
            }
        }
        i = i + 1;
    }
    proof {
        assert(fsv.take(fsv.len() as int) =~= fsv);
    }
    targets
}

} // verus!
