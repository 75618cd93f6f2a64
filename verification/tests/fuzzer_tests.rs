use contract_fuzzer::abi::{
    find_fuzz_targets, find_properties, role_of, FunctionSignature, Mutability, ParameterType, Role,
};
use contract_fuzzer::campaign::{Campaign, Phase, Status, TraceEntry};
use contract_fuzzer::errors::FuzzError;
use contract_fuzzer::report::{format_call, format_verdict};
use contract_fuzzer::rng::FuzzRng;
use contract_fuzzer::value::{synthesize, Value};

fn sig(
    name: &str,
    inputs: Vec<ParameterType>,
    mutability: Mutability,
    outputs: Vec<ParameterType>,
) -> FunctionSignature {
    FunctionSignature { name: name.to_string(), inputs, mutability, outputs }
}

fn property_sig(name: &str) -> FunctionSignature {
    sig(name, vec![], Mutability::ReadOnly, vec![ParameterType::Boolean])
}

fn counter_interface() -> Vec<FunctionSignature> {
    vec![
        sig(
            "increment",
            vec![ParameterType::UnsignedInteger(256)],
            Mutability::Mutating,
            vec![],
        ),
        sig(
            "decrement",
            vec![ParameterType::UnsignedInteger(256)],
            Mutability::Mutating,
            vec![],
        ),
        property_sig("invariant_nonNegative"),
    ]
}

#[test]
fn nothing_to_fuzz_without_targets() {
    let interface = vec![property_sig("invariant_ok")];
    let c = Campaign::new(&interface, 100, 1).unwrap();
    assert_eq!(c.status, Status::NothingToFuzz);
    assert_eq!(c.phase, Phase::Done);
    assert_eq!(c.trace.len(), 0);
    assert_eq!(c.steps_done, 0);
}

#[test]
fn nothing_to_fuzz_without_properties() {
    let interface = vec![sig("poke", vec![], Mutability::Mutating, vec![])];
    let c = Campaign::new(&interface, 100, 1).unwrap();
    assert_eq!(c.status, Status::NothingToFuzz);
    assert_eq!(c.phase, Phase::Done);
    assert_eq!(c.trace.len(), 0);
}

#[test]
fn malformed_property_is_an_error() {
    // A prefixed function with a parameter is rejected, not dropped.
    let interface = vec![
        sig("poke", vec![], Mutability::Mutating, vec![]),
        sig(
            "invariant_bad",
            vec![ParameterType::Boolean],
            Mutability::ReadOnly,
            vec![ParameterType::Boolean],
        ),
    ];
    match Campaign::new(&interface, 100, 1) {
        Err(FuzzError::InvariantShape { function, step }) => {
            assert_eq!(function, "invariant_bad");
            assert_eq!(step, 0);
        }
        Err(other) => panic!("expected InvariantShape, got {:?}", other),
        Ok(_) => panic!("expected InvariantShape, got a campaign"),
    }
}

#[test]
fn malformed_property_wrong_return_is_an_error() {
    // A prefixed function returning something besides one boolean.
    let interface = vec![sig(
        "invariant_count",
        vec![],
        Mutability::ReadOnly,
        vec![ParameterType::UnsignedInteger(256)],
    )];
    match find_properties(&interface) {
        Err(FuzzError::InvariantShape { function, step }) => {
            assert_eq!(function, "invariant_count");
            assert_eq!(step, 0);
        }
        other => panic!("expected InvariantShape, got {:?}", other),
    }
}

#[test]
fn role_of_cases() {
    let target = sig("transfer", vec![ParameterType::Address], Mutability::Mutating, vec![]);
    assert_eq!(role_of(&target).unwrap(), Role::Target);

    let property = property_sig("invariant_solvent");
    assert_eq!(role_of(&property).unwrap(), Role::Property);

    let view_fn = sig("balance", vec![], Mutability::ReadOnly, vec![
        ParameterType::UnsignedInteger(256),
    ]);
    assert_eq!(role_of(&view_fn).unwrap(), Role::Neither);

    let pure_fn = sig("helper", vec![], Mutability::Pure, vec![]);
    assert_eq!(role_of(&pure_fn).unwrap(), Role::Neither);

    assert!(role_of(&sig("invariant_bad", vec![], Mutability::ReadOnly, vec![])).is_err());
}

#[test]
fn find_properties_keeps_declaration_order() {
    let interface = vec![
        property_sig("invariant_a"),
        sig("poke", vec![], Mutability::Mutating, vec![]),
        property_sig("invariant_b"),
    ];
    let props = find_properties(&interface).unwrap();
    let names: Vec<&str> = props.iter().map(|p| p.name.as_str()).collect();
    assert_eq!(names, vec!["invariant_a", "invariant_b"]);
}

#[test]
fn find_fuzz_targets_filters_mutability_and_prefix() {
    let interface = vec![
        sig("a_pure", vec![], Mutability::Pure, vec![]),
        sig("b_view", vec![], Mutability::ReadOnly, vec![]),
        sig("c_mutating", vec![], Mutability::Mutating, vec![]),
        // A prefixed function is never a target, whatever its mutability.
        sig("invariant_mutating", vec![], Mutability::Mutating, vec![]),
        sig("d_mutating", vec![], Mutability::Mutating, vec![]),
    ];
    let targets = find_fuzz_targets(&interface);
    let names: Vec<&str> = targets.iter().map(|t| t.name.as_str()).collect();
    assert_eq!(names, vec!["c_mutating", "d_mutating"]);
}

#[test]
fn rng_matches_reference_vectors() {
    // splitmix64 outputs for seed 0.
    let mut rng = FuzzRng::from_seed(0);
    assert_eq!(rng.next_u64(), 0xE220_A839_7B1D_CDAF);
    assert_eq!(rng.next_u64(), 0x6E78_9E6A_A1B9_65F4);
    assert_eq!(rng.next_u64(), 0x06C4_5D18_8009_454F);
}

#[test]
fn rng_is_deterministic_and_seed_sensitive() {
    let mut a = FuzzRng::from_seed(7);
    let mut b = FuzzRng::from_seed(7);
    assert_eq!(a.next_u64(), b.next_u64());
    assert_eq!(a.next_bytes(16), b.next_bytes(16));
    let mut c = FuzzRng::from_seed(8);
    assert_ne!(FuzzRng::from_seed(7).next_u64(), c.next_u64());
}

#[test]
fn synthesize_boolean_is_one_of_two_values() {
    for seed in 0..16u64 {
        let mut rng = FuzzRng::from_seed(seed);
        match synthesize(ParameterType::Boolean, &mut rng) {
            Some(Value::Bool(_)) => {}
            other => panic!("expected a boolean, got {:?}", other),
        }
    }
}

#[test]
fn synthesize_address_is_twenty_bytes() {
    let mut rng = FuzzRng::from_seed(3);
    match synthesize(ParameterType::Address, &mut rng) {
        Some(Value::Address(bs)) => assert_eq!(bs.len(), 20),
        other => panic!("expected an address, got {:?}", other),
    }
}

#[test]
fn synthesize_uint256_is_thirty_two_bytes() {
    // 32 big-endian bytes: the value is strictly below 2^256.
    let mut rng = FuzzRng::from_seed(4);
    match synthesize(ParameterType::UnsignedInteger(256), &mut rng) {
        Some(Value::UnsignedInt(bs)) => assert_eq!(bs.len(), 32),
        other => panic!("expected an unsigned integer, got {:?}", other),
    }
}

#[test]
fn synthesize_int256_is_thirty_two_bytes() {
    let mut rng = FuzzRng::from_seed(5);
    match synthesize(ParameterType::SignedInteger(256), &mut rng) {
        Some(Value::SignedInt(bs)) => assert_eq!(bs.len(), 32),
        other => panic!("expected a signed integer, got {:?}", other),
    }
}

#[test]
fn synthesize_uint256_exact_bytes_for_seed_zero() {
    // One byte per draw, in draw order: the low byte of each output.
    let mut rng = FuzzRng::from_seed(0);
    let expected: Vec<u8> = vec![
        0xAF, 0xF4, 0x4F, 0xEC, 0x9B, 0xEA, 0xE1, 0x3C, 0xC3, 0xA6, 0x09, 0xF6, 0x7B, 0x2F,
        0x19, 0xAB, 0x55, 0x86, 0x64, 0xAC, 0xD7, 0x0D, 0x6A, 0x4C, 0x69, 0x7B, 0x00, 0x10,
        0x16, 0x72, 0x4F, 0x25,
    ];
    match synthesize(ParameterType::UnsignedInteger(256), &mut rng) {
        Some(Value::UnsignedInt(bs)) => assert_eq!(bs, expected),
        other => panic!("expected an unsigned integer, got {:?}", other),
    }
}

#[test]
fn synthesize_boolean_exact_for_seed_42() {
    // The draw for seed 42 has its low bit set.
    let mut rng = FuzzRng::from_seed(42);
    assert_eq!(synthesize(ParameterType::Boolean, &mut rng), Some(Value::Bool(true)));
}

#[test]
fn synthesize_rejects_unsupported_types() {
    let mut rng = FuzzRng::from_seed(6);
    let before = rng.state;
    assert!(synthesize(ParameterType::FixedBytes(32), &mut rng).is_none());
    assert!(synthesize(ParameterType::UnsignedInteger(8), &mut rng).is_none());
    assert!(synthesize(ParameterType::SignedInteger(128), &mut rng).is_none());
    // A refused type consumes no randomness.
    assert_eq!(rng.state, before);
}

/// Drive a campaign to its end, answering every property read with
/// `prop_holds(property_name, step)`; steps are numbered from 1.
fn drive(c: &mut Campaign, prop_holds: impl Fn(&str, usize) -> bool) -> Result<(), FuzzError> {
    loop {
        match c.phase {
            Phase::Selecting => c.plan_step()?,
            Phase::Awaiting => c.note_submit_result(true)?,
            Phase::Checking => {
                let name = c.next_property_name().clone();
                let step = c.steps_done + 1;
                let holds = prop_holds(&name, step);
                c.note_property_value(&vec![Value::Bool(holds)])?;
            }
            Phase::Done | Phase::Failed => return Ok(()),
        }
    }
}

#[test]
fn identical_seeds_give_identical_traces() {
    let interface = counter_interface();
    let mut c1 = Campaign::new(&interface, 20, 0xDEAD_BEEF).unwrap();
    let mut c2 = Campaign::new(&interface, 20, 0xDEAD_BEEF).unwrap();
    drive(&mut c1, |_, _| true).unwrap();
    drive(&mut c2, |_, _| true).unwrap();
    assert_eq!(c1.status, Status::Exhausted);
    assert_eq!(c1.trace, c2.trace);
}

#[test]
fn traces_agree_entry_for_entry_across_budgets() {
    // The planned calls are a function of targets and seed alone: a
    // shorter campaign's trace is a prefix of a longer one's.
    let interface = counter_interface();
    let mut c1 = Campaign::new(&interface, 5, 31337).unwrap();
    let mut c2 = Campaign::new(&interface, 9, 31337).unwrap();
    drive(&mut c1, |_, _| true).unwrap();
    drive(&mut c2, |_, _| true).unwrap();
    assert_eq!(c1.trace.len(), 5);
    assert_eq!(c2.trace.len(), 9);
    assert_eq!(c1.trace[..], c2.trace[..5]);
}

#[test]
fn different_seeds_give_different_traces() {
    let interface = counter_interface();
    let mut c1 = Campaign::new(&interface, 20, 1).unwrap();
    let mut c2 = Campaign::new(&interface, 20, 2).unwrap();
    drive(&mut c1, |_, _| true).unwrap();
    drive(&mut c2, |_, _| true).unwrap();
    assert_ne!(c1.trace, c2.trace);
}

#[test]
fn violation_halts_at_exactly_that_step() {
    let interface = counter_interface();
    let mut c = Campaign::new(&interface, 10, 99).unwrap();
    // The property first reads false at step 4.
    drive(&mut c, |_, step| step < 4).unwrap();
    assert_eq!(
        c.status,
        Status::Violated { property: "invariant_nonNegative".to_string(), step: 4 }
    );
    assert_eq!(c.phase, Phase::Done);
    // No step 5 was executed: one trace entry per started step.
    assert_eq!(c.trace.len(), 4);
    assert_eq!(c.steps_done, 3);
}

#[test]
fn later_properties_are_not_read_after_a_violation() {
    let interface = vec![
        sig("poke", vec![], Mutability::Mutating, vec![]),
        property_sig("invariant_first"),
        property_sig("invariant_second"),
    ];
    let mut c = Campaign::new(&interface, 10, 5).unwrap();
    c.plan_step().unwrap();
    c.note_submit_result(true).unwrap();
    assert_eq!(c.next_property_name().as_str(), "invariant_first");
    c.note_property_value(&vec![Value::Bool(false)]).unwrap();
    // The first false reading ends the campaign; the second property is
    // never asked for.
    assert_eq!(c.phase, Phase::Done);
    assert_eq!(
        c.status,
        Status::Violated { property: "invariant_first".to_string(), step: 1 }
    );
}

#[test]
fn exhausted_after_full_budget() {
    let interface = counter_interface();
    let mut c = Campaign::new(&interface, 7, 123).unwrap();
    drive(&mut c, |_, _| true).unwrap();
    assert_eq!(c.status, Status::Exhausted);
    assert_eq!(c.steps_done, 7);
    assert_eq!(c.trace.len(), 7);
    assert_eq!(c.phase, Phase::Done);
}

#[test]
fn counter_underflow_is_found() {
    // Targets increment/decrement on a counter; the invariant checks the
    // counter never goes negative.  Increments add one, decrements take
    // two, so some prefix of random calls drives the counter below zero.
    let interface = counter_interface();
    let mut c = Campaign::new(&interface, 50, 2024).unwrap();
    let mut counter: i64 = 0;
    loop {
        match c.phase {
            Phase::Selecting => c.plan_step().unwrap(),
            Phase::Awaiting => {
                let call = c.trace.last().unwrap();
                match call.target.as_str() {
                    "increment" => counter += 1,
                    "decrement" => counter -= 2,
                    other => panic!("unexpected target {}", other),
                }
                c.note_submit_result(true).unwrap();
            }
            Phase::Checking => {
                assert_eq!(c.next_property_name().as_str(), "invariant_nonNegative");
                let holds = counter >= 0;
                c.note_property_value(&vec![Value::Bool(holds)]).unwrap();
            }
            Phase::Done | Phase::Failed => break,
        }
    }
    match &c.status {
        Status::Violated { property, step } => {
            assert_eq!(property, "invariant_nonNegative");
            assert!(*step >= 1 && *step <= 50);
            assert_eq!(c.trace.len(), *step);
        }
        other => panic!("expected a violation, got {:?}", other),
    }
}

#[test]
fn unsupported_parameter_aborts_with_zero_calls() {
    // The only target declares a fixed byte array: the first step selects
    // it, synthesis fails, and nothing is ever submitted.
    let interface = vec![
        sig("store", vec![ParameterType::FixedBytes(32)], Mutability::Mutating, vec![]),
        property_sig("invariant_ok"),
    ];
    let mut c = Campaign::new(&interface, 10, 7).unwrap();
    match c.plan_step() {
        Err(FuzzError::UnsupportedType { function, step, parameter }) => {
            assert_eq!(function, "store");
            assert_eq!(step, 1);
            assert_eq!(parameter, ParameterType::FixedBytes(32));
        }
        other => panic!("expected UnsupportedType, got {:?}", other),
    }
    assert_eq!(c.phase, Phase::Failed);
    assert_eq!(c.trace.len(), 0);
    // The campaign kept no terminal status: the abort is the error itself.
    assert_eq!(c.status, Status::Running);
}

#[test]
fn mixed_targets_abort_when_the_unsupported_one_is_selected() {
    let interface = vec![
        sig("poke", vec![ParameterType::Boolean], Mutability::Mutating, vec![]),
        sig("store", vec![ParameterType::FixedBytes(8)], Mutability::Mutating, vec![]),
        property_sig("invariant_ok"),
    ];
    let mut c = Campaign::new(&interface, 200, 11).unwrap();
    let r = drive(&mut c, |_, _| true);
    match r {
        Err(FuzzError::UnsupportedType { function, step, parameter }) => {
            assert_eq!(function, "store");
            assert_eq!(parameter, ParameterType::FixedBytes(8));
            // The failing step planned no call: every trace entry belongs
            // to an earlier, fully executed step.
            assert_eq!(c.trace.len(), step - 1);
            assert_eq!(c.phase, Phase::Failed);
        }
        other => panic!("expected UnsupportedType, got {:?}", other),
    }
}

#[test]
fn submit_failure_aborts_the_campaign() {
    let interface = counter_interface();
    let mut c = Campaign::new(&interface, 10, 3).unwrap();
    c.plan_step().unwrap();
    let target = c.trace.last().unwrap().target.clone();
    match c.note_submit_result(false) {
        Err(FuzzError::Execution { function, step }) => {
            assert_eq!(function, target);
            assert_eq!(step, 1);
        }
        other => panic!("expected Execution, got {:?}", other),
    }
    assert_eq!(c.phase, Phase::Failed);
}

#[test]
fn wrongly_shaped_property_read_aborts() {
    let interface = counter_interface();
    let mut c = Campaign::new(&interface, 10, 3).unwrap();
    c.plan_step().unwrap();
    c.note_submit_result(true).unwrap();
    let vals = vec![Value::UnsignedInt(vec![0u8; 32])];
    match c.note_property_value(&vals) {
        Err(FuzzError::InvariantShape { function, step }) => {
            assert_eq!(function, "invariant_nonNegative");
            assert_eq!(step, 1);
        }
        other => panic!("expected InvariantShape, got {:?}", other),
    }
    assert_eq!(c.phase, Phase::Failed);
}

#[test]
fn empty_property_read_aborts() {
    let interface = counter_interface();
    let mut c = Campaign::new(&interface, 10, 3).unwrap();
    c.plan_step().unwrap();
    c.note_submit_result(true).unwrap();
    assert!(matches!(
        c.note_property_value(&vec![]),
        Err(FuzzError::InvariantShape { .. })
    ));
}

#[test]
fn two_booleans_are_not_a_property_read() {
    let interface = counter_interface();
    let mut c = Campaign::new(&interface, 10, 3).unwrap();
    c.plan_step().unwrap();
    c.note_submit_result(true).unwrap();
    assert!(matches!(
        c.note_property_value(&vec![Value::Bool(true), Value::Bool(true)]),
        Err(FuzzError::InvariantShape { .. })
    ));
}

#[test]
fn format_call_renders_arguments() {
    let entry = TraceEntry {
        target: "transfer".to_string(),
        args: vec![
            Value::Bool(true),
            Value::Address(vec![0xAB; 20]),
            Value::UnsignedInt(vec![0x00, 0xFF]),
        ],
    };
    assert_eq!(
        format_call(&entry),
        "Call: transfer(true, 0xabababababababababababababababababababab, 0x00ff)"
    );
}

#[test]
fn format_call_without_arguments() {
    let entry = TraceEntry { target: "poke".to_string(), args: vec![] };
    assert_eq!(format_call(&entry), "Call: poke()");
}

#[test]
fn format_verdict_lines() {
    let violated = Status::Violated { property: "invariant_solvent".to_string(), step: 3 };
    assert_eq!(format_verdict(&violated), "invariant_solvent broken");
    assert_eq!(format_verdict(&Status::Exhausted), "All invariants hold");
    assert_eq!(format_verdict(&Status::NothingToFuzz), "Nothing to fuzz");
}

#[test]
fn default_budget_is_one_hundred() {
    assert_eq!(contract_fuzzer::campaign::DEFAULT_MAX_STEPS, 100);
}
