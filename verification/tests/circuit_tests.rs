use zk_inequality::circuit::{
    enforce_difference, enforce_range_check, CircuitError, ConstraintSynthesizer, ExampleCircuit,
    TokenVerificationCircuit,
};
use zk_inequality::field::{field_to_bytes, FieldElement};
use zk_inequality::r1cs::{ConstraintSystem, SynthesisError, Term, Variable};

#[test]
fn test_valid_inequality() {
    let circuit = ExampleCircuit::new(100, 50).unwrap();
    let mut cs = ConstraintSystem::new();
    assert!(circuit.generate_constraints(&mut cs).is_ok());
}

#[test]
fn test_invalid_inequality() {
    let circuit = ExampleCircuit::new(50, 100).unwrap();
    let mut cs = ConstraintSystem::new();
    assert!(circuit.generate_constraints(&mut cs).is_ok());
}

#[test]
fn test_range_limits() {
    assert!(ExampleCircuit::new(1 << 32, 0).is_err());
    assert!(ExampleCircuit::new(0, 1 << 32).is_err());

    assert!(ExampleCircuit::new((1 << 32) - 1, (1 << 32) - 1).is_ok());
}

#[test]
fn test_token_valid_balance() {
    let circuit = TokenVerificationCircuit::new(1000, 500).unwrap();
    let mut cs = ConstraintSystem::new();
    assert!(circuit.generate_constraints(&mut cs).is_ok());
}

#[test]
fn test_token_insufficient_balance() {
    let circuit = TokenVerificationCircuit::new(500, 1000).unwrap();
    let mut cs = ConstraintSystem::new();
    assert!(circuit.generate_constraints(&mut cs).is_ok());
}

#[test]
fn test_token_equal_amounts() {
    let circuit = TokenVerificationCircuit::new(1000, 1000).unwrap();
    let mut cs = ConstraintSystem::new();
    assert!(circuit.generate_constraints(&mut cs).is_ok());
}

#[test]
fn test_token_range_validation() {
    assert!(TokenVerificationCircuit::new(1 << 32, 0).is_err());
    assert!(TokenVerificationCircuit::new(0, 1 << 32).is_err());

    assert!(TokenVerificationCircuit::new((1 << 32) - 1, 0).is_ok());
}

#[test]
fn range_error_is_invalid_range() {
    assert_eq!(ExampleCircuit::new(1 << 32, 0).unwrap_err(), CircuitError::InvalidRange);
    assert_eq!(ExampleCircuit::new(u64::MAX, u64::MAX).unwrap_err(), CircuitError::InvalidRange);
    assert_eq!(
        TokenVerificationCircuit::new(0, 1 << 32).unwrap_err(),
        CircuitError::InvalidRange
    );
    assert_eq!(CircuitError::InvalidRange.to_string(), "Invalid value range");
    assert_eq!(CircuitError::MissingAssignment.to_string(), "Missing assignment");
}

#[test]
fn new_holds_the_values() {
    let c = ExampleCircuit::new(1000, 500).unwrap();
    assert_eq!(c.prover_value, Some(FieldElement::from_u64(1000)));
    assert_eq!(c.verifier_value, Some(FieldElement::from_u64(500)));
    assert!(c.range_check);
    let t = TokenVerificationCircuit::new(7, 9).unwrap();
    assert_eq!(t.tokens_to_send, Some(FieldElement::from_u64(7)));
    assert_eq!(t.tokens_asked, Some(FieldElement::from_u64(9)));
}

#[test]
fn default_has_no_values() {
    let c = ExampleCircuit::default();
    assert!(c.prover_value.is_none());
    assert!(c.verifier_value.is_none());
    assert!(c.range_check);
    assert_eq!(c.public_inputs().unwrap_err(), CircuitError::MissingAssignment);
    let mut cs = ConstraintSystem::new();
    assert_eq!(c.generate_constraints(&mut cs), Err(SynthesisError::AssignmentMissing));
    assert_eq!(cs.num_instance_variables(), 1);
    let m = cs.to_matrices();
    assert_eq!(m.num_constraints, 0);
    assert_eq!(m.num_witness_variables, 0);
}

#[test]
fn public_inputs_are_the_public_values() {
    let c = ExampleCircuit::new(100, 50).unwrap();
    assert_eq!(
        c.public_inputs().unwrap(),
        vec![
            field_to_bytes(&FieldElement::from_u64(100)),
            field_to_bytes(&FieldElement::from_u64(50))
        ]
    );
    let t = TokenVerificationCircuit::new(1000, 500).unwrap();
    assert_eq!(t.public_inputs().unwrap(), vec![field_to_bytes(&FieldElement::from_u64(500))]);
    let half = TokenVerificationCircuit { tokens_to_send: None, tokens_asked: t.tokens_asked };
    assert_eq!(half.public_inputs().unwrap().len(), 1);
    let none = TokenVerificationCircuit { tokens_to_send: t.tokens_to_send, tokens_asked: None };
    assert_eq!(none.public_inputs().unwrap_err(), CircuitError::MissingAssignment);
    let mut cs = ConstraintSystem::new();
    assert_eq!(half.generate_constraints(&mut cs), Err(SynthesisError::AssignmentMissing));
    assert_eq!(none.generate_constraints(&mut cs), Err(SynthesisError::AssignmentMissing));
    assert_eq!(cs.num_witness_variables(), 0);
    assert_eq!(cs.num_constraints(), 0);
}

fn example_satisfied(x: u64, y: u64) -> bool {
    let c = ExampleCircuit::new(x, y).unwrap();
    let mut cs = ConstraintSystem::new();
    c.generate_constraints(&mut cs).unwrap();
    cs.is_satisfied()
}

fn token_satisfied(x: u64, y: u64) -> bool {
    let c = TokenVerificationCircuit::new(x, y).unwrap();
    let mut cs = ConstraintSystem::new();
    c.generate_constraints(&mut cs).unwrap();
    cs.is_satisfied()
}

#[test]
fn satisfied_exactly_when_at_least() {
    let max = (1u64 << 32) - 1;
    assert!(example_satisfied(1000, 500));
    assert!(example_satisfied(1000, 1000));
    assert!(!example_satisfied(500, 1000));
    assert!(example_satisfied(0, 0));
    assert!(!example_satisfied(0, 1));
    assert!(example_satisfied(max, 0));
    assert!(example_satisfied(max, max));
    assert!(!example_satisfied(0, max));
    assert!(!example_satisfied(max - 1, max));
    assert!(token_satisfied(1000, 500));
    assert!(token_satisfied(1000, 1000));
    assert!(!token_satisfied(500, 1000));
    assert!(token_satisfied(max, 0));
    assert!(!token_satisfied(0, max));
}

#[test]
fn without_range_check_nothing_is_proved() {
    let mut c = ExampleCircuit::new(500, 1000).unwrap();
    c.range_check = false;
    let mut cs = ConstraintSystem::new();
    c.generate_constraints(&mut cs).unwrap();
    assert!(cs.is_satisfied());
    let m = cs.to_matrices();
    assert_eq!(m.num_constraints, 2);
    assert_eq!(m.num_witness_variables, 2);
    assert_eq!(m.num_instance_variables, 3);
}

#[test]
fn circuit_sizes() {
    let c = ExampleCircuit::new(100, 50).unwrap();
    let mut cs = ConstraintSystem::new();
    c.generate_constraints(&mut cs).unwrap();
    assert_eq!(cs.num_instance_variables(), 3);
    let m = cs.to_matrices();
    assert_eq!(m.num_instance_variables, 3);
    assert_eq!(m.num_witness_variables, 99);
    assert_eq!(m.num_constraints, 100);
    assert_eq!(m.a.len(), 100);
    assert_eq!(m.b.len(), 100);
    assert_eq!(m.c.len(), 100);

    let t = TokenVerificationCircuit::new(100, 50).unwrap();
    let mut cs = ConstraintSystem::new();
    t.generate_constraints(&mut cs).unwrap();
    assert_eq!(cs.num_instance_variables(), 2);
    let m = cs.to_matrices();
    assert_eq!(m.num_witness_variables, 100);
    assert_eq!(m.num_constraints, 100);
}

#[test]
fn matrices_hold_the_constraints() {
    let c = ExampleCircuit::new(100, 50).unwrap();
    let mut cs = ConstraintSystem::new();
    c.generate_constraints(&mut cs).unwrap();
    let m = cs.to_matrices();
    let one = FieldElement::one();
    let minus_one = FieldElement::from_i32(-1);
    // (-1 * y) * 1 = neg_y: y is column 2, the first private variable column 3
    assert_eq!(m.a[0], vec![(minus_one, 2)]);
    assert_eq!(m.b[0], vec![(one, 0)]);
    assert_eq!(m.c[0], vec![(one, 3)]);
    // (x + neg_y) * 1 = d
    assert_eq!(m.a[1], vec![(one, 1), (one, 3)]);
    assert_eq!(m.b[1], vec![(one, 0)]);
    assert_eq!(m.c[1], vec![(one, 4)]);
    // the running sum starts at zero
    assert_eq!(m.a[2], vec![(one, 5)]);
    assert_eq!(m.b[2], vec![(one, 0)]);
    assert_eq!(m.c[2], vec![]);
    // bit 0 is boolean
    assert_eq!(m.a[3], vec![(one, 6)]);
    assert_eq!(m.b[3], vec![(one, 6)]);
    assert_eq!(m.c[3], vec![(one, 6)]);
    // contribution of bit 5 is 2^5 * bit
    let row = 2 + 1 + 3 * 5 + 1;
    assert_eq!(m.a[row], vec![(FieldElement::from_u64(32), 0)]);
    assert_eq!(m.b[row], vec![(one, 5 + 3 * 5 + 1)]);
    assert_eq!(m.c[row], vec![(one, 5 + 3 * 5 + 2)]);
    // the sum after bit 5 is the sum before plus the contribution
    assert_eq!(m.a[row + 1], vec![(one, 5 + 3 * 5), (one, 5 + 3 * 5 + 2)]);
    assert_eq!(m.c[row + 1], vec![(one, 5 + 3 * 5 + 3)]);
    // the last constraint ties the final sum to d
    assert_eq!(m.a[99], vec![(one, 4)]);
    assert_eq!(m.b[99], vec![(one, 0)]);
    assert_eq!(m.c[99], vec![(one, 5 + 96)]);
}

#[test]
fn constraint_system_by_hand() {
    let mut cs = ConstraintSystem::new();
    assert!(cs.is_satisfied());
    let three = FieldElement::from_u64(3);
    let four = FieldElement::from_u64(4);
    let twelve = FieldElement::from_u64(12);
    let one = FieldElement::one();
    let x = cs.new_input_variable(&three).unwrap();
    let y = cs.new_witness_variable(&four).unwrap();
    let z = cs.new_witness_variable(&twelve).unwrap();
    assert_eq!(x, Variable::Instance(1));
    assert_eq!(y, Variable::Witness(0));
    assert_eq!(z, Variable::Witness(1));
    assert_eq!(
        cs.enforce_constraint(
            &vec![Term { coeff: one, var: x }],
            &vec![Term { coeff: one, var: y }],
            &vec![Term { coeff: one, var: z }],
        ),
        Ok(())
    );
    assert!(cs.is_satisfied());
    assert_eq!(cs.num_instance_variables(), 2);
    assert_eq!(cs.num_witness_variables(), 2);
    assert_eq!(cs.num_constraints(), 1);
    // 3 * 4 is not 4
    cs.enforce_constraint(
        &vec![Term { coeff: one, var: x }],
        &vec![Term { coeff: one, var: y }],
        &vec![Term { coeff: one, var: y }],
    )
    .unwrap();
    assert!(!cs.is_satisfied());
    let m = cs.to_matrices();
    assert_eq!(m.num_constraints, 2);
    assert_eq!(m.a[1], vec![(one, 1)]);
    assert_eq!(m.c[1], vec![(one, 2)]);
}

#[test]
fn unknown_variables_are_refused() {
    let mut cs = ConstraintSystem::new();
    let one = FieldElement::one();
    let zero = FieldElement::zero();
    let known = vec![Term { coeff: one, var: Variable::One }];
    for var in [
        Variable::Witness(0),
        Variable::Witness(5),
        Variable::Witness(usize::MAX),
        Variable::Instance(1),
        Variable::Instance(usize::MAX),
    ] {
        let unknown = vec![Term { coeff: zero, var }];
        assert!(!cs.knows(&unknown));
        assert_eq!(
            cs.enforce_constraint(&unknown, &known, &known),
            Err(SynthesisError::UnknownVariable)
        );
        assert_eq!(
            cs.enforce_constraint(&known, &unknown, &known),
            Err(SynthesisError::UnknownVariable)
        );
        assert_eq!(
            cs.enforce_constraint(&known, &known, &unknown),
            Err(SynthesisError::UnknownVariable)
        );
    }
    assert_eq!(cs.num_constraints(), 0);
    // the constant one is also the public variable of index 0
    let as_instance = vec![Term { coeff: one, var: Variable::Instance(0) }];
    assert!(cs.knows(&as_instance));
    assert!(cs.knows(&vec![]));
    assert_eq!(cs.enforce_constraint(&as_instance, &known, &known), Ok(()));
    assert!(cs.is_satisfied());
    let m = cs.to_matrices();
    assert_eq!(m.a[0], vec![(one, 0)]);
}

#[test]
fn zero_coefficients_leave_the_matrices() {
    let mut cs = ConstraintSystem::new();
    let one = FieldElement::one();
    let zero = FieldElement::zero();
    let w = cs.new_witness_variable(&zero).unwrap();
    cs.enforce_constraint(
        &vec![Term { coeff: zero, var: w }, Term { coeff: one, var: Variable::One }],
        &vec![Term { coeff: one, var: w }],
        &vec![Term { coeff: zero, var: Variable::One }],
    )
    .unwrap();
    assert!(cs.is_satisfied());
    let m = cs.to_matrices();
    assert_eq!(m.a[0], vec![(one, 0)]);
    assert_eq!(m.b[0], vec![(one, 1)]);
    assert_eq!(m.c[0], vec![]);
}

#[test]
fn gadgets_extend_a_system_that_is_in_use() {
    use_gadgets();
}

fn use_gadgets() {
    let mut cs = ConstraintSystem::new();
    let seven = FieldElement::from_u64(7);
    let nine = FieldElement::from_u64(9);
    let a = cs.new_witness_variable(&nine).unwrap();
    let b = cs.new_input_variable(&seven).unwrap();
    let (d, d_var) = enforce_difference(&mut cs, &nine, a, &seven, b).unwrap();
    assert_eq!(d, FieldElement::from_u64(2));
    assert_eq!(d_var, Variable::Witness(2));
    assert!(cs.is_satisfied());
    assert_eq!(enforce_range_check(&mut cs, &d, d_var), Ok(()));
    assert!(cs.is_satisfied());
    assert_eq!(cs.num_witness_variables(), 1 + 2 + 97);
    assert_eq!(cs.num_constraints(), 2 + 98);
    // the other way round the difference is far above 32 bits
    let (e, e_var) = enforce_difference(&mut cs, &seven, b, &nine, a).unwrap();
    assert_eq!(e, FieldElement::from_i32(-2));
    assert!(cs.is_satisfied());
    enforce_range_check(&mut cs, &e, e_var).unwrap();
    assert!(!cs.is_satisfied());
    // a second circuit in the same system
    let c = ExampleCircuit::new(5, 5).unwrap();
    let before = cs.num_constraints();
    c.generate_constraints(&mut cs).unwrap();
    assert_eq!(cs.num_constraints(), before + 100);
    assert_eq!(cs.num_instance_variables(), 4);
}
