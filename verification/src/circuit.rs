//! The inequality circuits: constraint systems that can only be satisfied
//! when a prover's value is at least a public value, by checking that their
//! difference fits in 32 bits.

use crate::field::encoded_field;
use crate::field::field_to_bytes;
use crate::field::modulus;
use crate::field::FieldElement;
use crate::r1cs::sum_assigned;
use crate::r1cs::var_assigned;
use crate::r1cs::var_value;
use crate::r1cs::Constraint;
use crate::r1cs::ConstraintSystem;
use crate::r1cs::LinearSum;
use crate::r1cs::R1cs;
use crate::r1cs::SynthesisError;
use crate::r1cs::Term;
use crate::r1cs::Variable;
use crate::r1cs::terms_view;
use vstd::arithmetic::power2::lemma2_to64;
use vstd::arithmetic::power2::lemma_pow2_strictly_increases;
use vstd::arithmetic::power2::lemma_pow2_unfold;
use vstd::arithmetic::power2::pow2;
use vstd::prelude::*;

verus! {

/// Why a circuit could not be built or used.
#[derive(Clone, Copy, Debug, PartialEq, Eq)]
pub enum CircuitError {
    /// A value of the circuit has not been set.
    MissingAssignment,
    /// A value given to the circuit does not fit in 32 bits.
    InvalidRange,
}

impl CircuitError {
    /// The error as a sentence.
    pub fn to_string(&self) -> (r: String)
        ensures
            r@ == match *self {
                CircuitError::MissingAssignment => "Missing assignment"@,
                CircuitError::InvalidRange => "Invalid value range"@,
            },
    {
        match self {
            CircuitError::MissingAssignment => "Missing assignment".to_string(),
            CircuitError::InvalidRange => "Invalid value range".to_string(),
        }
    }
}

/// The number of bits that the range check allows a difference to have.
pub const RANGE_BITS: u64 = 32;

/// The values that a circuit takes lie below this bound, 2^32.
pub open spec fn range_limit() -> nat {
    0x1_0000_0000
}

/// `-y` in the field, as the product of `y` with minus one.
pub open spec fn neg_mod(y: nat) -> nat {
    (((modulus() - 1) as nat) * y) % modulus()
}

/// `x - y` in the field.
pub open spec fn sub_mod(x: nat, y: nat) -> nat {
    (x + neg_mod(y)) % modulus()
}

/// Binary digit `i` of `d`.
pub open spec fn bit_of(d: nat, i: nat) -> nat {
    (d / pow2(i)) % 2
}

/// The number made of the `i` lowest binary digits of `d`.
pub open spec fn low_bits(d: nat, i: nat) -> nat {
    d % pow2(i)
}

/// The linear combination that is one variable.
pub open spec fn single(v: Variable) -> LinearSum {
    seq![(1nat, v)]
}

/// Private variable number `i`, for an index that fits the machine.
pub open spec fn witness_var(i: int) -> Variable {
    Variable::Witness(i as usize)
}

/// The two constraints that define the difference of `x_var` and `y_var` in
/// two new private variables, the first of which has index `w`:
/// `(-1 * y) * 1 = neg_y` and `(x + neg_y) * 1 = d`.
pub open spec fn difference_constraints(x_var: Variable, y_var: Variable, w: nat) -> Seq<
    Constraint,
> {
    seq![
        Constraint {
            a: seq![((modulus() - 1) as nat, y_var)],
            b: single(Variable::One),
            c: single(witness_var(w as int)),
        },
        Constraint {
            a: seq![(1nat, x_var), (1nat, witness_var(w as int))],
            b: single(Variable::One),
            c: single(witness_var((w + 1) as int)),
        },
    ]
}

/// The system `s` with the difference of two of its variables added: two
/// private variables, `-y` and `x - y`, and the constraints that define them.
pub open spec fn with_difference(s: R1cs, x_var: Variable, y_var: Variable) -> R1cs {
    let x = var_value(s, x_var);
    let y = var_value(s, y_var);
    R1cs {
        instance: s.instance,
        witness: s.witness + seq![neg_mod(y), sub_mod(x, y)],
        constraints: s.constraints + difference_constraints(x_var, y_var, s.witness.len()),
    }
}

/// The number of private variables that the range check allocates: a running
/// sum that starts at zero, and for each of the 32 bits the bit, its
/// contribution to the sum and the sum so far.
pub open spec fn range_witness_len() -> nat {
    97
}

/// The number of constraints that the range check enforces.
pub open spec fn range_constraints_len() -> nat {
    98
}

/// The values of the private variables of the range check on `d`.
pub open spec fn range_witness(d: nat) -> Seq<nat> {
    Seq::new(
        range_witness_len(),
        |j: int|
            if j == 0 {
                0nat
            } else {
                let i = ((j - 1) / 3) as nat;
                let k = (j - 1) % 3;
                if k == 0 {
                    bit_of(d, i)
                } else if k == 1 {
                    bit_of(d, i) * pow2(i)
                } else {
                    low_bits(d, i + 1)
                }
            },
    )
}

/// Constraint number `j` of the range check on `d_var`, whose private
/// variables start at index `w`.
///
/// The first pins the running sum to zero. Then, for bit `i`: the bit is zero
/// or one (`bit * bit = bit`), its contribution is `2^i * bit`, and the new
/// sum is the old one plus the contribution. The last says that the final sum
/// is `d_var`.
pub open spec fn range_constraint(d_var: Variable, w: nat, j: int) -> Constraint {
    if j == 0 {
        Constraint {
            a: single(witness_var(w as int)),
            b: single(Variable::One),
            c: Seq::empty(),
        }
    } else if j == 97 {
        Constraint { a: single(d_var), b: single(Variable::One), c: single(witness_var((w + 96) as int)) }
    } else {
        let i = (j - 1) / 3;
        let k = (j - 1) % 3;
        let sum = witness_var(w + 3 * i);
        let bit = witness_var(w + 3 * i + 1);
        let contribution = witness_var(w + 3 * i + 2);
        let next_sum = witness_var(w + 3 * i + 3);
        if k == 0 {
            Constraint { a: single(bit), b: single(bit), c: single(bit) }
        } else if k == 1 {
            Constraint {
                a: seq![(pow2(i as nat), Variable::One)],
                b: single(bit),
                c: single(contribution),
            }
        } else {
            Constraint {
                a: seq![(1nat, sum), (1nat, contribution)],
                b: single(Variable::One),
                c: single(next_sum),
            }
        }
    }
}

/// The constraints of the range check, in order.
pub open spec fn range_constraints(d_var: Variable, w: nat) -> Seq<Constraint> {
    Seq::new(range_constraints_len(), |j: int| range_constraint(d_var, w, j))
}

/// The system `s` with a 32-bit range check on its variable `d_var` added.
pub open spec fn with_range_check(s: R1cs, d_var: Variable) -> R1cs {
    R1cs {
        instance: s.instance,
        witness: s.witness + range_witness(var_value(s, d_var)),
        constraints: s.constraints + range_constraints(d_var, s.witness.len()),
    }
}

/// Whether the system has room for so many more variables and constraints,
/// so that no index overflows.
pub open spec fn room_for(s: R1cs, variables: nat, constraints: nat) -> bool {
    &&& s.instance.len() + s.witness.len() + variables <= usize::MAX
    &&& 3 * (s.constraints.len() + constraints) <= usize::MAX
}

/// The linear combination without terms.
pub fn lc_zero() -> (r: Vec<Term>)
    ensures
        terms_view(r@) == Seq::<(nat, Variable)>::empty(),
        forall|s: R1cs| #[trigger] sum_assigned(s, terms_view(r@)),
{
    let r: Vec<Term> = Vec::new();
    assert(terms_view(r@) =~= Seq::<(nat, Variable)>::empty());
    r
}

/// The linear combination of one term.
pub fn lc_term(coeff: FieldElement, var: Variable) -> (r: Vec<Term>)
    ensures
        terms_view(r@) == seq![(coeff@, var)],
        forall|s: R1cs| #[trigger] sum_assigned(s, terms_view(r@)) == var_assigned(s, var),
{
    let mut r: Vec<Term> = Vec::new();
    r.push(Term { coeff, var });
    assert(terms_view(r@) =~= seq![(coeff@, var)]);
    assert forall|s: R1cs| #[trigger] sum_assigned(s, terms_view(r@)) == var_assigned(s, var) by {
        assert(terms_view(r@)[0] == (coeff@, var));
    }
    r
}

/// The linear combination of two terms.
pub fn lc_pair(c1: FieldElement, v1: Variable, c2: FieldElement, v2: Variable) -> (r: Vec<Term>)
    ensures
        terms_view(r@) == seq![(c1@, v1), (c2@, v2)],
        forall|s: R1cs| #[trigger]
            sum_assigned(s, terms_view(r@)) == (var_assigned(s, v1) && var_assigned(s, v2)),
{
    let mut r: Vec<Term> = Vec::new();
    r.push(Term { coeff: c1, var: v1 });
    r.push(Term { coeff: c2, var: v2 });
    assert(terms_view(r@) =~= seq![(c1@, v1), (c2@, v2)]);
    assert forall|s: R1cs| #[trigger]
        sum_assigned(s, terms_view(r@)) == (var_assigned(s, v1) && var_assigned(s, v2)) by {
        assert(terms_view(r@)[0] == (c1@, v1));
        assert(terms_view(r@)[1] == (c2@, v2));
    }
    r
}

/// Allocates `-y` and `d = x - y` as private variables and constrains them;
/// returns `d` and its variable. `x` and `y` are the values of `x_var` and
/// `y_var`. Fails where the system has no room.
pub fn enforce_difference(
    cs: &mut ConstraintSystem,
    x: &FieldElement,
    x_var: Variable,
    y: &FieldElement,
    y_var: Variable,
) -> (r: Result<(FieldElement, Variable), SynthesisError>)
    requires
        var_assigned(old(cs)@, x_var),
        var_assigned(old(cs)@, y_var),
        var_value(old(cs)@, x_var) == x@,
        var_value(old(cs)@, y_var) == y@,
    ensures
        room_for(old(cs)@, 2, 2) ==> r is Ok && final(cs)@ == with_difference(
            old(cs)@,
            x_var,
            y_var,
        ) && r->Ok_0.0@ == sub_mod(x@, y@) && r->Ok_0.1 == witness_var(
            (old(cs)@.witness.len() + 1) as int,
        ),
        !room_for(old(cs)@, 2, 2) ==> r == Err::<(FieldElement, Variable), SynthesisError>(
            SynthesisError::SystemFull,
        ),
{
    let ghost base = cs@;
    let one = FieldElement::one();
    let neg_one = FieldElement::from_i32(-1);
    assert(neg_one@ == modulus() - 1);
    let neg_y = neg_one.mul(y);
    let neg_y_var = match cs.new_witness_variable(&neg_y) {
        Ok(v) => v,
        Err(e) => {
            return Err(e);
        },
    };
    match cs.enforce_constraint(
        &lc_term(neg_one, y_var),
        &lc_term(one, Variable::One),
        &lc_term(one, neg_y_var),
    ) {
        Ok(()) => {},
        Err(e) => {
            return Err(e);
        },
    }
    let d = x.add(&neg_y);
    let d_var = match cs.new_witness_variable(&d) {
        Ok(v) => v,
        Err(e) => {
            return Err(e);
        },
    };
    match cs.enforce_constraint(
        &lc_pair(one, x_var, one, neg_y_var),
        &lc_term(one, Variable::One),
        &lc_term(one, d_var),
    ) {
        Ok(()) => {},
        Err(e) => {
            return Err(e);
        },
    }
    assert(cs@.witness =~= base.witness + seq![neg_mod(y@), sub_mod(x@, y@)]);
    assert(cs@.constraints =~= base.constraints + difference_constraints(
        x_var,
        y_var,
        base.witness.len(),
    ));
    Ok((d, d_var))
}

/// The sum of the `i` lowest bits and bit `i` in its place is the sum of the
/// `i + 1` lowest bits.
pub proof fn lemma_low_bits_step(d: nat, i: nat)
    ensures
        low_bits(d, i) + bit_of(d, i) * pow2(i) == low_bits(d, i + 1),
        low_bits(d, i) < pow2(i),
        bit_of(d, i) <= 1,
{
    vstd::arithmetic::power2::lemma_pow2_pos(i);
    lemma_pow2_unfold(i + 1);
    vstd::arithmetic::div_mod::lemma_breakdown(d as int, pow2(i) as int, 2);
    assert(pow2(i + 1) == pow2(i) * 2);
    assert(bit_of(d, i) * pow2(i) == pow2(i) * bit_of(d, i)) by (nonlinear_arith);
}

/// Below 32 bits every power of two, and every number made of that many
/// bits, is far below the modulus.
pub proof fn lemma_pow2_small(i: nat)
    requires
        i <= 32,
    ensures
        pow2(i) <= 0x1_0000_0000,
        pow2(i) < modulus(),
        pow2(32) == 0x1_0000_0000,
{
    lemma2_to64();
    if i < 32 {
        lemma_pow2_strictly_increases(i, 32);
    }
}

/// Allocates the bits of `d` and their running sum as private variables and
/// constrains the sum of the 32 lowest bits to be `d`. `d` is the value of
/// `d_var`. Fails where the system has no room.
pub fn enforce_range_check(cs: &mut ConstraintSystem, d: &FieldElement, d_var: Variable) -> (r:
    Result<(), SynthesisError>)
    requires
        var_assigned(old(cs)@, d_var),
        var_value(old(cs)@, d_var) == d@,
    ensures
        room_for(old(cs)@, 97, 98) ==> r is Ok && final(cs)@ == with_range_check(old(cs)@, d_var),
        !room_for(old(cs)@, 97, 98) ==> r == Err::<(), SynthesisError>(SynthesisError::SystemFull),
{
    let ghost base = cs@;
    let ghost w = base.witness.len();
    let ghost values = range_witness(d@);
    let ghost constraints = range_constraints(d_var, w);
    let zero = FieldElement::zero();
    let one = FieldElement::one();
    let mut acc = FieldElement::zero();
    let mut prev_acc_var = match cs.new_witness_variable(&acc) {
        Ok(v) => v,
        Err(e) => {
            return Err(e);
        },
    };
    match cs.enforce_constraint(
        &lc_term(one, prev_acc_var),
        &lc_term(one, Variable::One),
        &lc_zero(),
    ) {
        Ok(()) => {},
        Err(e) => {
            return Err(e);
        },
    }
    proof {
        lemma2_to64();
        assert(cs@.witness =~= base.witness + values.take(1));
        assert(cs@.constraints =~= base.constraints + constraints.take(1));
    }
    let mut i: u64 = 0;
    while i < RANGE_BITS
        invariant
            0 <= i <= 32,
            base == old(cs)@,
            w == base.witness.len(),
            cs@.witness.len() == w + 1 + 3 * i,
            cs@.constraints.len() == base.constraints.len() + 1 + 3 * i,
            values == range_witness(d@),
            constraints == range_constraints(d_var, w),
            zero@ == 0,
            one@ == 1,
            var_assigned(base, d_var),
            cs@.instance == base.instance,
            cs@.witness == base.witness + values.take(1 + 3 * i),
            cs@.constraints == base.constraints + constraints.take(1 + 3 * i),
            acc@ == low_bits(d@, i as nat),
            prev_acc_var == witness_var(w + 3 * i),
        decreases 32 - i,
    {
        proof {
            lemma_low_bits_step(d@, i as nat);
            lemma_pow2_small(i as nat);
            lemma_pow2_small((i + 1) as nat);
            lemma_pow2_unfold((i + 1) as nat);
        }
        let bit_val = if d.bit(i as usize) {
            one
        } else {
            zero
        };
        assert(bit_val@ == bit_of(d@, i as nat));
        let bit = match cs.new_witness_variable(&bit_val) {
            Ok(v) => v,
            Err(e) => {
                return Err(e);
            },
        };
        match cs.enforce_constraint(&lc_term(one, bit), &lc_term(one, bit), &lc_term(one, bit)) {
            Ok(()) => {},
            Err(e) => {
                return Err(e);
            },
        }

        proof {
            vstd::bits::lemma_u64_shl_is_mul(1u64, i);
        }
        let power = FieldElement::from_u64(1u64 << i);
        assert(power@ == pow2(i as nat));
        let contribution_val = bit_val.mul(&power);
        assert(contribution_val@ == bit_of(d@, i as nat) * pow2(i as nat)) by {
            if bit_val@ == 0 {
                assert(bit_val@ * power@ == 0) by (nonlinear_arith)
                    requires
                        bit_val@ == 0,
                ;
            } else {
                assert(bit_val@ * power@ == power@) by (nonlinear_arith)
                    requires
                        bit_val@ == 1,
                ;
            }
        }
        let contribution = match cs.new_witness_variable(&contribution_val) {
            Ok(v) => v,
            Err(e) => {
                return Err(e);
            },
        };
        match cs.enforce_constraint(
            &lc_term(power, Variable::One),
            &lc_term(one, bit),
            &lc_term(one, contribution),
        ) {
            Ok(()) => {},
            Err(e) => {
                return Err(e);
            },
        }

        let weighted = power.mul(&bit_val);
        assert(weighted@ == contribution_val@) by {
            assert(power@ * bit_val@ == bit_val@ * power@) by (nonlinear_arith);
        }
        acc = acc.add(&weighted);
        assert(acc@ == low_bits(d@, (i + 1) as nat));
        let new_acc = match cs.new_witness_variable(&acc) {
            Ok(v) => v,
            Err(e) => {
                return Err(e);
            },
        };
        match cs.enforce_constraint(
            &lc_pair(one, prev_acc_var, one, contribution),
            &lc_term(one, Variable::One),
            &lc_term(one, new_acc),
        ) {
            Ok(()) => {},
            Err(e) => {
                return Err(e);
            },
        }
        proof {
            let j = 1 + 3 * i;
            assert(values[j] == bit_val@);
            assert(values[j + 1] == contribution_val@);
            assert(values[j + 2] == acc@);
            assert(cs@.witness =~= base.witness + values.take(j + 3));
            assert(constraints[j] == Constraint {
                a: single(bit),
                b: single(bit),
                c: single(bit),
            });
            assert(constraints[j + 1] == Constraint {
                a: seq![(pow2(i as nat), Variable::One)],
                b: single(bit),
                c: single(contribution),
            });
            assert(constraints[j + 2] == Constraint {
                a: seq![(1nat, prev_acc_var), (1nat, contribution)],
                b: single(Variable::One),
                c: single(new_acc),
            });
            assert(cs@.constraints =~= base.constraints + constraints.take(j + 3));
        }
        prev_acc_var = new_acc;
        i += 1;
    }
    match cs.enforce_constraint(
        &lc_term(one, d_var),
        &lc_term(one, Variable::One),
        &lc_term(one, prev_acc_var),
    ) {
        Ok(()) => {},
        Err(e) => {
            return Err(e);
        },
    }
    proof {
        assert(values.take(97) =~= values);
        assert(constraints[97] == Constraint {
            a: single(d_var),
            b: single(Variable::One),
            c: single(prev_acc_var),
        });
        assert(cs@.constraints =~= base.constraints + constraints);
    }
    Ok(())
}

/// A circuit: something that can write its variables and constraints into a
/// constraint system.
pub trait ConstraintSynthesizer {
    /// Whether every value of the circuit has been set.
    spec fn is_assigned(&self) -> bool;

    /// Whether the system `base` has room for the circuit.
    spec fn fits(&self, base: R1cs) -> bool;

    /// The system that the circuit makes of the system `base`.
    spec fn synthesized(&self, base: R1cs) -> R1cs;

    /// Adds the circuit's variables and constraints to `cs`. Fails, leaving
    /// `cs` as it was, where a value of the circuit has not been set, and
    /// fails where `cs` has no room for the circuit.
    fn generate_constraints(&self, cs: &mut ConstraintSystem) -> (r: Result<(), SynthesisError>)
        ensures
            self.is_assigned() && self.fits(old(cs)@) ==> r is Ok && final(cs)@
                == self.synthesized(old(cs)@),
            self.is_assigned() && !self.fits(old(cs)@) ==> r == Err::<(), SynthesisError>(
                SynthesisError::SystemFull,
            ),
            !self.is_assigned() ==> r == Err::<(), SynthesisError>(
                SynthesisError::AssignmentMissing,
            ) && final(cs)@ == old(cs)@,
    ;
}

/// The circuit for `prover_value >= verifier_value` in which both values are
/// public.
#[derive(Clone, Copy, Debug)]
pub struct ExampleCircuit {
    /// The value that is claimed to be the larger.
    pub prover_value: Option<FieldElement>,
    /// The threshold.
    pub verifier_value: Option<FieldElement>,
    /// Whether the difference is range-checked. Without the check the circuit
    /// only defines the difference and proves nothing of it.
    pub range_check: bool,
}

impl ExampleCircuit {
    /// Whether the circuit holds the values `x` and `y`, with the range check
    /// switched on.
    pub open spec fn holds(self, x: nat, y: nat) -> bool {
        &&& self.prover_value is Some
        &&& self.prover_value->0@ == x
        &&& self.verifier_value is Some
        &&& self.verifier_value->0@ == y
        &&& self.range_check
    }

    /// A circuit without values, with the range check switched on.
    pub fn default() -> (c: Self)
        ensures
            c.prover_value is None,
            c.verifier_value is None,
            c.range_check,
    {
        ExampleCircuit { prover_value: None, verifier_value: None, range_check: true }
    }

    /// The circuit for `x >= y`. Both values must be below 2^32.
    pub fn new(x: u64, y: u64) -> (r: Result<Self, CircuitError>)
        ensures
            (x >= range_limit() || y >= range_limit()) ==> r is Err && r->Err_0
                == CircuitError::InvalidRange,
            (x < range_limit() && y < range_limit()) ==> r is Ok && r->Ok_0.holds(
                x as nat,
                y as nat,
            ),
    {
        if x >= 0x1_0000_0000 || y >= 0x1_0000_0000 {
            return Err(CircuitError::InvalidRange);
        }
        Ok(
            ExampleCircuit {
                prover_value: Some(FieldElement::from_u64(x)),
                verifier_value: Some(FieldElement::from_u64(y)),
                range_check: true,
            },
        )
    }

    /// The circuit's public inputs as bytes: the prover's value, then the
    /// threshold.
    pub fn public_inputs(&self) -> (r: Result<Vec<[u8; 32]>, CircuitError>)
        ensures
            self.is_assigned() ==> r is Ok && r->Ok_0@.len() == 2 && r->Ok_0@[0]@ == encoded_field(
                self.prover_value->0@,
            ) && r->Ok_0@[1]@ == encoded_field(self.verifier_value->0@),
            !self.is_assigned() ==> r is Err && r->Err_0 == CircuitError::MissingAssignment,
    {
        match (self.prover_value, self.verifier_value) {
            (Some(x), Some(y)) => {
                let mut inputs: Vec<[u8; 32]> = Vec::new();
                inputs.push(field_to_bytes(&x));
                inputs.push(field_to_bytes(&y));
                Ok(inputs)
            },
            _ => Err(CircuitError::MissingAssignment),
        }
    }
}

impl ConstraintSynthesizer for ExampleCircuit {
    open spec fn is_assigned(&self) -> bool {
        self.prover_value is Some && self.verifier_value is Some
    }

    open spec fn fits(&self, base: R1cs) -> bool {
        if self.range_check {
            room_for(base, 101, 100)
        } else {
            room_for(base, 4, 2)
        }
    }

    open spec fn synthesized(&self, base: R1cs) -> R1cs {
        let x_var = Variable::Instance(base.instance.len() as usize);
        let y_var = Variable::Instance((base.instance.len() + 1) as usize);
        let allocated = R1cs {
            instance: base.instance + seq![self.prover_value->0@, self.verifier_value->0@],
            ..base
        };
        let defined = with_difference(allocated, x_var, y_var);
        if self.range_check {
            with_range_check(defined, witness_var((base.witness.len() + 1) as int))
        } else {
            defined
        }
    }

    fn generate_constraints(&self, cs: &mut ConstraintSystem) -> (r: Result<(), SynthesisError>) {
        let x = match self.prover_value {
            Some(x) => x,
            None => {
                return Err(SynthesisError::AssignmentMissing);
            },
        };
        let y = match self.verifier_value {
            Some(y) => y,
            None => {
                return Err(SynthesisError::AssignmentMissing);
            },
        };
        let ghost base = cs@;
        let x_var = match cs.new_input_variable(&x) {
            Ok(v) => v,
            Err(e) => {
                return Err(e);
            },
        };
        let y_var = match cs.new_input_variable(&y) {
            Ok(v) => v,
            Err(e) => {
                return Err(e);
            },
        };
        assert(cs@.instance =~= base.instance + seq![x@, y@]);
        let (d, d_var) = match enforce_difference(cs, &x, x_var, &y, y_var) {
            Ok(p) => p,
            Err(e) => {
                return Err(e);
            },
        };
        if self.range_check {
            match enforce_range_check(cs, &d, d_var) {
                Ok(()) => {},
                Err(e) => {
                    return Err(e);
                },
            }
        }
        Ok(())
    }
}

/// The circuit for `tokens_to_send >= tokens_asked` in which the amount to
/// send stays private and the amount asked for is public.
#[derive(Clone, Copy, Debug)]
pub struct TokenVerificationCircuit {
    /// The private amount.
    pub tokens_to_send: Option<FieldElement>,
    /// The public amount.
    pub tokens_asked: Option<FieldElement>,
}

impl TokenVerificationCircuit {
    /// Whether the circuit holds the amounts `sent` and `asked`.
    pub open spec fn holds(self, sent: nat, asked: nat) -> bool {
        &&& self.tokens_to_send is Some
        &&& self.tokens_to_send->0@ == sent
        &&& self.tokens_asked is Some
        &&& self.tokens_asked->0@ == asked
    }

    /// The circuit for `tokens_to_send >= tokens_asked`. Both amounts must be
    /// below 2^32.
    pub fn new(tokens_to_send: u64, tokens_asked: u64) -> (r: Result<Self, CircuitError>)
        ensures
            (tokens_to_send >= range_limit() || tokens_asked >= range_limit()) ==> r is Err
                && r->Err_0 == CircuitError::InvalidRange,
            (tokens_to_send < range_limit() && tokens_asked < range_limit()) ==> r is Ok
                && r->Ok_0.holds(tokens_to_send as nat, tokens_asked as nat),
    {
        if tokens_to_send >= 0x1_0000_0000 || tokens_asked >= 0x1_0000_0000 {
            return Err(CircuitError::InvalidRange);
        }
        Ok(
            TokenVerificationCircuit {
                tokens_to_send: Some(FieldElement::from_u64(tokens_to_send)),
                tokens_asked: Some(FieldElement::from_u64(tokens_asked)),
            },
        )
    }

    /// The circuit's one public input as bytes: the amount asked for.
    pub fn public_inputs(&self) -> (r: Result<Vec<[u8; 32]>, CircuitError>)
        ensures
            self.tokens_asked is Some ==> r is Ok && r->Ok_0@.len() == 1 && r->Ok_0@[0]@
                == encoded_field(self.tokens_asked->0@),
            self.tokens_asked is None ==> r is Err && r->Err_0 == CircuitError::MissingAssignment,
    {
        match self.tokens_asked {
            Some(tokens_asked) => {
                let mut inputs: Vec<[u8; 32]> = Vec::new();
                inputs.push(field_to_bytes(&tokens_asked));
                Ok(inputs)
            },
            None => Err(CircuitError::MissingAssignment),
        }
    }
}

impl ConstraintSynthesizer for TokenVerificationCircuit {
    open spec fn is_assigned(&self) -> bool {
        self.tokens_to_send is Some && self.tokens_asked is Some
    }

    open spec fn fits(&self, base: R1cs) -> bool {
        room_for(base, 101, 100)
    }

    open spec fn synthesized(&self, base: R1cs) -> R1cs {
        let sent_var = witness_var(base.witness.len() as int);
        let asked_var = Variable::Instance(base.instance.len() as usize);
        let allocated = R1cs {
            instance: base.instance.push(self.tokens_asked->0@),
            witness: base.witness.push(self.tokens_to_send->0@),
            ..base
        };
        let defined = with_difference(allocated, sent_var, asked_var);
        with_range_check(defined, witness_var((base.witness.len() + 2) as int))
    }

    fn generate_constraints(&self, cs: &mut ConstraintSystem) -> (r: Result<(), SynthesisError>) {
        let tokens_to_send = match self.tokens_to_send {
            Some(v) => v,
            None => {
                return Err(SynthesisError::AssignmentMissing);
            },
        };
        let tokens_asked = match self.tokens_asked {
            Some(v) => v,
            None => {
                return Err(SynthesisError::AssignmentMissing);
            },
        };
        let tokens_to_send_var = match cs.new_witness_variable(&tokens_to_send) {
            Ok(v) => v,
            Err(e) => {
                return Err(e);
            },
        };
        let tokens_asked_var = match cs.new_input_variable(&tokens_asked) {
            Ok(v) => v,
            Err(e) => {
                return Err(e);
            },
        };
        let (d, d_var) = match enforce_difference(
            cs,
            &tokens_to_send,
            tokens_to_send_var,
            &tokens_asked,
            tokens_asked_var,
        ) {
            Ok(p) => p,
            Err(e) => {
                return Err(e);
            },
        };
        enforce_range_check(cs, &d, d_var)
    }
}

} // verus!
