//! What the inequality circuits prove: their constraint systems, with the
//! honest assignment, are satisfied exactly when the difference of the two
//! values fits in 32 bits, which for values below 2^32 is when the prover's
//! value is at least the public one.

use crate::circuit::bit_of;
use crate::circuit::difference_constraints;
use crate::circuit::lemma_low_bits_step;
use crate::circuit::lemma_pow2_small;
use crate::circuit::low_bits;
use crate::circuit::neg_mod;
use crate::circuit::range_constraint;
use crate::circuit::range_constraints;
use crate::circuit::range_limit;
use crate::circuit::range_witness;
use crate::circuit::single;
use crate::circuit::sub_mod;
use crate::circuit::witness_var;
use crate::circuit::ConstraintSynthesizer;
use crate::circuit::ExampleCircuit;
use crate::circuit::TokenVerificationCircuit;
use crate::field::modulus;
use crate::r1cs::constraint_holds;
use crate::r1cs::fresh_system;
use crate::r1cs::satisfied;
use crate::r1cs::sum_assigned;
use crate::r1cs::sum_total;
use crate::r1cs::sum_value;
use crate::r1cs::var_assigned;
use crate::r1cs::var_value;
use crate::r1cs::Constraint;
use crate::r1cs::R1cs;
use crate::r1cs::Variable;
use vstd::arithmetic::power2::pow2;
use vstd::prelude::*;

verus! {

/// The sum over no terms is zero.
proof fn lemma_sum_empty(s: R1cs)
    ensures
        sum_total(s, Seq::empty()) == 0,
        sum_value(s, Seq::empty()) == 0,
        sum_assigned(s, Seq::empty()),
{
}

/// The sum over one term is the coefficient times the variable's value.
proof fn lemma_sum_term(s: R1cs, c: nat, v: Variable)
    ensures
        sum_total(s, seq![(c, v)]) == c * var_value(s, v),
        sum_assigned(s, seq![(c, v)]) <==> var_assigned(s, v),
{
    let lc = seq![(c, v)];
    assert(lc.drop_last() =~= Seq::empty());
    assert(lc.last() == (c, v));
    assert(sum_total(s, lc) == sum_total(s, lc.drop_last()) + c * var_value(s, v));
    assert(lc[0] == (c, v));
}

/// The sum over two terms.
proof fn lemma_sum_pair(s: R1cs, c1: nat, v1: Variable, c2: nat, v2: Variable)
    ensures
        sum_total(s, seq![(c1, v1), (c2, v2)]) == c1 * var_value(s, v1) + c2 * var_value(s, v2),
        sum_assigned(s, seq![(c1, v1), (c2, v2)]) <==> var_assigned(s, v1) && var_assigned(s, v2),
{
    let lc = seq![(c1, v1), (c2, v2)];
    assert(lc.drop_last() =~= seq![(c1, v1)]);
    assert(lc.last() == (c2, v2));
    lemma_sum_term(s, c1, v1);
    assert(sum_total(s, lc) == sum_total(s, lc.drop_last()) + c2 * var_value(s, v2));
    assert(lc[0] == (c1, v1));
    assert(lc[1] == (c2, v2));
}

/// The sum that is one variable has that variable's value.
proof fn lemma_sum_single(s: R1cs, v: Variable)
    ensures
        sum_total(s, single(v)) == var_value(s, v),
        sum_assigned(s, single(v)) <==> var_assigned(s, v),
{
    lemma_sum_term(s, 1, v);
}

/// A constraint whose second factor is the constant one says that its first
/// factor and its product have one value.
proof fn lemma_times_one(s: R1cs, c: Constraint)
    requires
        c.b == single(Variable::One),
    ensures
        constraint_holds(s, c) <==> sum_assigned(s, c.a) && sum_assigned(s, c.c) && sum_value(
            s,
            c.a,
        ) == sum_value(s, c.c),
{
    lemma_sum_single(s, Variable::One);
    assert(sum_value(s, c.b) == 1);
    assert(sum_value(s, c.a) * 1 == sum_value(s, c.a));
}

/// The two constraints of the difference hold in every system that assigns
/// `-y` and `x - y` to the two variables that they define.
pub proof fn lemma_difference_holds(s: R1cs, x_var: Variable, y_var: Variable, w: nat)
    requires
        var_assigned(s, x_var),
        var_assigned(s, y_var),
        w + 1 < s.witness.len(),
        w + 1 <= usize::MAX,
        s.witness[w as int] == neg_mod(var_value(s, y_var)),
        s.witness[w as int + 1] == sub_mod(var_value(s, x_var), var_value(s, y_var)),
    ensures
        constraint_holds(s, difference_constraints(x_var, y_var, w)[0]),
        constraint_holds(s, difference_constraints(x_var, y_var, w)[1]),
{
    let x = var_value(s, x_var);
    let y = var_value(s, y_var);
    let neg_var = witness_var(w as int);
    let d_var = witness_var((w + 1) as int);
    let c0 = difference_constraints(x_var, y_var, w)[0];
    let c1 = difference_constraints(x_var, y_var, w)[1];
    lemma_times_one(s, c0);
    lemma_times_one(s, c1);
    lemma_sum_term(s, (modulus() - 1) as nat, y_var);
    lemma_sum_single(s, neg_var);
    lemma_sum_pair(s, 1, x_var, 1, neg_var);
    lemma_sum_single(s, d_var);
    assert(sum_value(s, c0.a) == neg_mod(y));
    assert(sum_value(s, c0.c) == neg_mod(y));
    assert(sum_total(s, c1.a) == x + neg_mod(y));
    assert(sum_value(s, c1.c) == sub_mod(x, y));
}

/// Whether the system assigns the values of the range check on `d` to the 97
/// private variables from index `w` on, and `d` to `d_var`.
pub open spec fn range_assigned(s: R1cs, d_var: Variable, w: nat, d: nat) -> bool {
    &&& var_assigned(s, d_var)
    &&& var_value(s, d_var) == d
    &&& d < modulus()
    &&& w + 97 <= s.witness.len()
    &&& w + 97 <= usize::MAX
    &&& forall|k: int| 0 <= k < 97 ==> s.witness[w + k] == #[trigger] range_witness(d)[k]
}

/// Every constraint of the range check but the last holds of the honest
/// assignment; the last holds exactly when `d` is below 2^32.
pub proof fn lemma_range_constraint_holds(s: R1cs, d_var: Variable, w: nat, d: nat, j: int)
    requires
        range_assigned(s, d_var, w, d),
        0 <= j < 98,
    ensures
        j != 97 ==> constraint_holds(s, range_constraint(d_var, w, j)),
        j == 97 ==> (constraint_holds(s, range_constraint(d_var, w, j)) <==> d < pow2(32)),
{
    let c = range_constraint(d_var, w, j);
    let values = range_witness(d);
    if j == 0 {
        let sum = witness_var(w as int);
        lemma_times_one(s, c);
        lemma_sum_single(s, sum);
        lemma_sum_empty(s);
        assert(s.witness[w as int + 0] == values[0]);
    } else if j == 97 {
        let last = witness_var((w + 96) as int);
        lemma_times_one(s, c);
        lemma_sum_single(s, d_var);
        lemma_sum_single(s, last);
        assert(s.witness[w as int + 96] == values[96]);
        assert(values[96] == low_bits(d, 32));
        lemma_pow2_small(32);
        vstd::arithmetic::power2::lemma_pow2_pos(32);
        assert(sum_value(s, c.a) == d);
        assert(sum_value(s, c.c) == d % pow2(32));
        if d < pow2(32) {
            vstd::arithmetic::div_mod::lemma_small_mod(d, pow2(32));
        }
    } else {
        let i = (j - 1) / 3;
        let k = (j - 1) % 3;
        let sum = witness_var(w + 3 * i);
        let bit = witness_var(w + 3 * i + 1);
        let contribution = witness_var(w + 3 * i + 2);
        let next_sum = witness_var(w + 3 * i + 3);
        lemma_low_bits_step(d, i as nat);
        lemma_pow2_small(i as nat);
        lemma_pow2_small((i + 1) as nat);
        assert(s.witness[w + (3 * i + 1)] == values[3 * i + 1]);
        assert(s.witness[w + (3 * i + 2)] == values[3 * i + 2]);
        assert(s.witness[w + (3 * i + 3)] == values[3 * i + 3]);
        assert(s.witness[w + (3 * i)] == values[3 * i]);
        assert(var_value(s, bit) == bit_of(d, i as nat));
        assert(var_value(s, contribution) == bit_of(d, i as nat) * pow2(i as nat));
        assert(var_value(s, next_sum) == low_bits(d, (i + 1) as nat));
        assert(var_value(s, sum) == low_bits(d, i as nat)) by {
            if i > 0 {
                assert((3 * i - 1) / 3 == i - 1);
                assert((3 * i - 1) % 3 == 2);
            } else {
                assert(pow2(0) == 1) by {
                    vstd::arithmetic::power2::lemma2_to64();
                }
            }
        }
        let b = bit_of(d, i as nat);
        let p = pow2(i as nat);
        assert(b * p <= p) by (nonlinear_arith)
            requires
                b <= 1,
        ;
        if k == 0 {
            lemma_sum_single(s, bit);
            assert(b * b == b) by (nonlinear_arith)
                requires
                    b <= 1,
            ;
        } else if k == 1 {
            lemma_sum_term(s, p, Variable::One);
            lemma_sum_single(s, bit);
            lemma_sum_single(s, contribution);
            assert(p * 1 == p);
            assert(sum_value(s, c.a) == p);
            assert(sum_value(s, c.b) == b);
            assert(p * b == b * p) by (nonlinear_arith);
        } else {
            lemma_times_one(s, c);
            lemma_sum_pair(s, 1, sum, 1, contribution);
            lemma_sum_single(s, next_sum);
        }
    }
}

/// For two values below 2^32, their difference in the field fits in 32 bits
/// exactly when the first is at least the second; it is then their
/// difference as numbers.
pub proof fn lemma_difference_in_range(x: nat, y: nat)
    requires
        x < range_limit(),
        y < range_limit(),
    ensures
        sub_mod(x, y) < pow2(32) <==> y <= x,
        y <= x ==> sub_mod(x, y) == x - y,
        sub_mod(x, y) < modulus(),
{
    lemma_pow2_small(32);
    let r = modulus();
    if y == 0 {
        assert(((r - 1) as nat) * y == 0) by (nonlinear_arith)
            requires
                y == 0,
        ;
        assert(neg_mod(y) == 0);
    } else {
        assert(((r - 1) as nat) * y == r * (y - 1) + (r - y)) by (nonlinear_arith)
            requires
                y >= 1,
                r >= 1,
        ;
        vstd::arithmetic::div_mod::lemma_mod_multiples_vanish(
            (y - 1) as int,
            (r - y) as int,
            r as int,
        );
        assert(neg_mod(y) == r - y);
    }
}

/// The system that `ExampleCircuit` builds from nothing is satisfied exactly
/// when the range check is off or the difference of its values fits in 32
/// bits.
pub proof fn lemma_example_circuit_satisfied(c: ExampleCircuit)
    requires
        c.is_assigned(),
        c.prover_value->0@ < modulus(),
        c.verifier_value->0@ < modulus(),
    ensures
        satisfied(c.synthesized(fresh_system())) <==> (c.range_check ==> sub_mod(
            c.prover_value->0@,
            c.verifier_value->0@,
        ) < pow2(32)),
{
    let x = c.prover_value->0@;
    let y = c.verifier_value->0@;
    let d = sub_mod(x, y);
    let s = c.synthesized(fresh_system());
    let x_var = Variable::Instance(1);
    let y_var = Variable::Instance(2);
    let d_var = witness_var(1);
    assert(s.instance =~= seq![1nat, x, y]);
    lemma_difference_holds(s, x_var, y_var, 0);
    if c.range_check {
        assert(range_assigned(s, d_var, 2, d));
        assert forall|i: int| 0 <= i < s.constraints.len() implies (constraint_holds(
            s,
            #[trigger] s.constraints[i],
        ) <==> (i == 99 ==> d < pow2(32))) by {
            if i >= 2 {
                lemma_range_constraint_holds(s, d_var, 2, d, i - 2);
                assert(s.constraints[i] == range_constraint(d_var, 2, i - 2));
            }
        }
        assert(s.constraints.len() == 100);
        if satisfied(s) {
            assert(constraint_holds(s, s.constraints[99]));
        }
    } else {
        assert(s.constraints.len() == 2);
    }
}

/// A circuit made by `ExampleCircuit::new(x, y)` is satisfied by its own
/// assignment exactly when `x >= y`.
pub proof fn lemma_example_circuit_proves_inequality(c: ExampleCircuit, x: nat, y: nat)
    requires
        c.holds(x, y),
        x < range_limit(),
        y < range_limit(),
    ensures
        satisfied(c.synthesized(fresh_system())) <==> y <= x,
{
    lemma_pow2_small(32);
    lemma_difference_in_range(x, y);
    lemma_example_circuit_satisfied(c);
}

/// The system that `TokenVerificationCircuit` builds from nothing is
/// satisfied exactly when the difference of its amounts fits in 32 bits.
pub proof fn lemma_token_circuit_satisfied(c: TokenVerificationCircuit)
    requires
        c.is_assigned(),
        c.tokens_to_send->0@ < modulus(),
        c.tokens_asked->0@ < modulus(),
    ensures
        satisfied(c.synthesized(fresh_system())) <==> sub_mod(
            c.tokens_to_send->0@,
            c.tokens_asked->0@,
        ) < pow2(32),
{
    let x = c.tokens_to_send->0@;
    let y = c.tokens_asked->0@;
    let d = sub_mod(x, y);
    let s = c.synthesized(fresh_system());
    let x_var = witness_var(0);
    let y_var = Variable::Instance(1);
    let d_var = witness_var(2);
    assert(s.instance =~= seq![1nat, y]);
    lemma_difference_holds(s, x_var, y_var, 1);
    assert(range_assigned(s, d_var, 3, d));
    assert forall|i: int| 0 <= i < s.constraints.len() implies (constraint_holds(
        s,
        #[trigger] s.constraints[i],
    ) <==> (i == 99 ==> d < pow2(32))) by {
        if i >= 2 {
            lemma_range_constraint_holds(s, d_var, 3, d, i - 2);
            assert(s.constraints[i] == range_constraint(d_var, 3, i - 2));
        }
    }
    assert(s.constraints.len() == 100);
    if satisfied(s) {
        assert(constraint_holds(s, s.constraints[99]));
    }
}

/// A circuit made by `TokenVerificationCircuit::new(sent, asked)` is
/// satisfied by its own assignment exactly when `sent >= asked`.
pub proof fn lemma_token_circuit_proves_inequality(
    c: TokenVerificationCircuit,
    sent: nat,
    asked: nat,
)
    requires
        c.holds(sent, asked),
        sent < range_limit(),
        asked < range_limit(),
    ensures
        satisfied(c.synthesized(fresh_system())) <==> asked <= sent,
{
    lemma_pow2_small(32);
    lemma_difference_in_range(sent, asked);
    lemma_token_circuit_satisfied(c);
}

/// The product of two residues.
pub open spec fn mul_mod(a: nat, b: nat) -> nat {
    (a * b) % modulus()
}

/// Whether no two residues other than zero multiply to zero. This holds of a
/// modulus exactly when it is prime. That the order of the BN254 scalar
/// field is prime is not proved in this crate: the laws on what every
/// satisfying assignment must look like take it as their hypothesis.
pub open spec fn no_zero_divisors() -> bool {
    forall|a: nat, b: nat|
        a < modulus() && b < modulus() && #[trigger] mul_mod(a, b) == 0 ==> a == 0 || b == 0
}

/// Whether every value of the assignment is a residue.
pub open spec fn reduced(s: R1cs) -> bool {
    &&& forall|i: int| 0 <= i < s.instance.len() ==> #[trigger] s.instance[i] < modulus()
    &&& forall|i: int| 0 <= i < s.witness.len() ==> #[trigger] s.witness[i] < modulus()
}

/// Whether the system holds the constraints of the range check on `d_var`,
/// with private variables from index `w` on, as its constraints from number
/// `k` on.
pub open spec fn has_range_check(s: R1cs, d_var: Variable, w: nat, k: nat) -> bool {
    &&& k + 98 <= s.constraints.len()
    &&& w + 97 <= usize::MAX
    &&& forall|j: int| 0 <= j < 98 ==> #[trigger] s.constraints[k + j] == range_constraint(d_var, w, j)
}

/// In a field, a residue that is its own square is zero or one.
pub proof fn lemma_boolean(b: nat)
    requires
        no_zero_divisors(),
        b < modulus(),
        mul_mod(b, b) == b,
    ensures
        b <= 1,
{
    if b >= 2 {
        let r = modulus();
        let a = (b - 1) as nat;
        let q = (b * b) / r;
        vstd::arithmetic::div_mod::lemma_fundamental_div_mod((b * b) as int, r as int);
        assert(b * b == r * q + b);
        assert(b * a == b * b - b) by (nonlinear_arith)
            requires
                a == b - 1,
        ;
        assert(b * a == r * q + 0);
        vstd::arithmetic::div_mod::lemma_mod_multiples_vanish(q as int, 0, r as int);
        assert(mul_mod(b, a) == 0);
    }
}

/// One step of the range check: where the three constraints of a bit hold
/// and the running sum before it is below 2^h, the bit is zero or one and the
/// running sum after it is below 2^(h+1).
proof fn lemma_bit_step(
    s: R1cs,
    sum: Variable,
    bit: Variable,
    contribution: Variable,
    next_sum: Variable,
    h: nat,
)
    requires
        no_zero_divisors(),
        reduced(s),
        h < 32,
        constraint_holds(s, Constraint { a: single(bit), b: single(bit), c: single(bit) }),
        constraint_holds(
            s,
            Constraint {
                a: seq![(pow2(h), Variable::One)],
                b: single(bit),
                c: single(contribution),
            },
        ),
        constraint_holds(
            s,
            Constraint {
                a: seq![(1nat, sum), (1nat, contribution)],
                b: single(Variable::One),
                c: single(next_sum),
            },
        ),
        var_value(s, sum) < pow2(h),
    ensures
        var_assigned(s, next_sum),
        var_value(s, bit) <= 1,
        var_value(s, next_sum) < pow2(h + 1),
{
    let c_sum = Constraint {
        a: seq![(1nat, sum), (1nat, contribution)],
        b: single(Variable::One),
        c: single(next_sum),
    };
    lemma_pow2_small(h);
    lemma_pow2_small(h + 1);
    vstd::arithmetic::power2::lemma_pow2_unfold(h + 1);
    lemma_sum_single(s, bit);
    lemma_sum_single(s, contribution);
    lemma_sum_single(s, next_sum);
    lemma_sum_term(s, pow2(h), Variable::One);
    lemma_sum_pair(s, 1, sum, 1, contribution);
    lemma_times_one(s, c_sum);
    let b = var_value(s, bit);
    let con = var_value(s, contribution);
    let acc = var_value(s, sum);
    let next = var_value(s, next_sum);
    lemma_value_reduced(s, bit);
    lemma_value_reduced(s, contribution);
    lemma_value_reduced(s, next_sum);
    assert(mul_mod(b, b) == b);
    lemma_boolean(b);
    assert(pow2(h) * 1 == pow2(h));
    assert(pow2(h) * b <= pow2(h)) by (nonlinear_arith)
        requires
            b <= 1,
    ;
    assert(con == pow2(h) * b);
    assert(sum_total(s, c_sum.a) == acc + con);
    assert(next == acc + con);
}

/// A variable that has a value in a reduced system has a residue for it.
proof fn lemma_value_reduced(s: R1cs, v: Variable)
    requires
        reduced(s),
        var_assigned(s, v),
    ensures
        var_value(s, v) < modulus(),
{
}

/// In a satisfied system with a range check, the running sum after `i` bits
/// is below 2^i, whatever the assignment is.
proof fn lemma_running_sum_bounded(s: R1cs, d_var: Variable, w: nat, k: nat, i: nat)
    requires
        no_zero_divisors(),
        reduced(s),
        has_range_check(s, d_var, w, k),
        satisfied(s),
        i <= 32,
    ensures
        w + 3 * i < s.witness.len(),
        s.witness[w as int + 3 * i] < pow2(i),
    decreases i,
{
    let wi = w as int;
    let ki = k as int;
    if i == 0 {
        let c = s.constraints[ki + 0];
        assert(c == range_constraint(d_var, w, 0));
        assert(constraint_holds(s, c));
        let sum = witness_var(wi);
        lemma_times_one(s, c);
        lemma_sum_single(s, sum);
        lemma_sum_empty(s);
        vstd::arithmetic::power2::lemma2_to64();
        assert(s.witness[wi] < modulus());
    } else {
        let h = (i - 1) as nat;
        let hi = h as int;
        lemma_running_sum_bounded(s, d_var, w, k, h);
        let sum = witness_var(wi + 3 * hi);
        let bit = witness_var(wi + 3 * hi + 1);
        let contribution = witness_var(wi + 3 * hi + 2);
        let next_sum = witness_var(wi + 3 * hi + 3);
        let c_bit = s.constraints[ki + (3 * hi + 1)];
        let c_con = s.constraints[ki + (3 * hi + 2)];
        let c_sum = s.constraints[ki + (3 * hi + 3)];
        assert(c_bit == range_constraint(d_var, w, 3 * hi + 1));
        assert(c_con == range_constraint(d_var, w, 3 * hi + 2));
        assert(c_sum == range_constraint(d_var, w, 3 * hi + 3));
        assert(constraint_holds(s, c_bit));
        assert(constraint_holds(s, c_con));
        assert(constraint_holds(s, c_sum));
        assert((3 * hi + 1 - 1) / 3 == hi && (3 * hi + 1 - 1) % 3 == 0);
        assert((3 * hi + 2 - 1) / 3 == hi && (3 * hi + 2 - 1) % 3 == 1);
        assert((3 * hi + 3 - 1) / 3 == hi && (3 * hi + 3 - 1) % 3 == 2);
        assert(var_value(s, sum) == s.witness[wi + 3 * hi]);
        lemma_bit_step(s, sum, bit, contribution, next_sum, h);
        assert(var_value(s, next_sum) == s.witness[wi + 3 * i]);
    }
}

/// The range check is sound: in every satisfied system that holds its
/// constraints, whatever values the private variables have, the checked
/// variable's value is below 2^32.
pub proof fn lemma_range_check_sound(s: R1cs, d_var: Variable, w: nat, k: nat)
    requires
        no_zero_divisors(),
        reduced(s),
        has_range_check(s, d_var, w, k),
        satisfied(s),
    ensures
        var_assigned(s, d_var),
        var_value(s, d_var) < pow2(32),
{
    lemma_running_sum_bounded(s, d_var, w, k, 32);
    lemma_pow2_small(32);
    let c = s.constraints[k as int + 97];
    assert(c == range_constraint(d_var, w, 97));
    assert(constraint_holds(s, c));
    let last = witness_var((w + 96) as int);
    lemma_times_one(s, c);
    lemma_sum_single(s, d_var);
    lemma_sum_single(s, last);
    assert(var_value(s, last) == s.witness[w as int + 3 * 32]);
    assert(var_value(s, d_var) < modulus());
}

/// The first constraint of the difference forces the first of the two
/// private variables to be `-y`.
proof fn lemma_negation_sound(s: R1cs, x_var: Variable, y_var: Variable, w: nat)
    requires
        reduced(s),
        w + 1 <= usize::MAX,
        constraint_holds(s, difference_constraints(x_var, y_var, w)[0]),
    ensures
        w < s.witness.len(),
        s.witness[w as int] == neg_mod(var_value(s, y_var)),
{
    let c0 = difference_constraints(x_var, y_var, w)[0];
    let neg_var = witness_var(w as int);
    lemma_times_one(s, c0);
    lemma_sum_term(s, (modulus() - 1) as nat, y_var);
    lemma_sum_single(s, neg_var);
    lemma_value_reduced(s, neg_var);
}

/// The second constraint of the difference forces the second of the two
/// private variables to be the sum of `x_var` and the first.
proof fn lemma_sum_sound(s: R1cs, x_var: Variable, y_var: Variable, w: nat)
    requires
        reduced(s),
        w + 1 <= usize::MAX,
        constraint_holds(s, difference_constraints(x_var, y_var, w)[1]),
    ensures
        w + 1 < s.witness.len(),
        s.witness[w as int + 1] == (var_value(s, x_var) + s.witness[w as int]) % modulus(),
{
    let c1 = difference_constraints(x_var, y_var, w)[1];
    let neg_var = witness_var(w as int);
    let d_var = witness_var((w + 1) as int);
    lemma_times_one(s, c1);
    lemma_sum_pair(s, 1, x_var, 1, neg_var);
    lemma_sum_single(s, d_var);
    lemma_value_reduced(s, d_var);
}

/// The two constraints of the difference force its value: in every system
/// of which they hold, the second of the two private variables is the
/// difference of `x_var` and `y_var`.
pub proof fn lemma_difference_sound(s: R1cs, x_var: Variable, y_var: Variable, w: nat)
    requires
        reduced(s),
        w + 1 <= usize::MAX,
        constraint_holds(s, difference_constraints(x_var, y_var, w)[0]),
        constraint_holds(s, difference_constraints(x_var, y_var, w)[1]),
    ensures
        w + 1 < s.witness.len(),
        s.witness[w as int + 1] == sub_mod(var_value(s, x_var), var_value(s, y_var)),
{
    lemma_negation_sound(s, x_var, y_var, w);
    lemma_sum_sound(s, x_var, y_var, w);
}

/// What a difference below 2^32 says of the numbers: where the second
/// value is below 2^32 and the first is a residue, the first is at least the
/// second, by less than 2^32.
pub proof fn lemma_in_range_means_at_least(x: nat, y: nat)
    requires
        x < modulus(),
        y < range_limit(),
        sub_mod(x, y) < pow2(32),
    ensures
        y <= x,
        x - y < pow2(32),
{
    lemma_pow2_small(32);
    let r = modulus();
    if y == 0 {
        assert(((r - 1) as nat) * y == 0) by (nonlinear_arith)
            requires
                y == 0,
        ;
        assert(neg_mod(y) == 0);
    } else {
        assert(((r - 1) as nat) * y == r * (y - 1) + (r - y)) by (nonlinear_arith)
            requires
                y >= 1,
                r >= 1,
        ;
        vstd::arithmetic::div_mod::lemma_mod_multiples_vanish(
            (y - 1) as int,
            (r - y) as int,
            r as int,
        );
        assert(neg_mod(y) == r - y);
    }
}

/// `TokenVerificationCircuit` is sound: whatever a prover assigns to the
/// variables, if the assignment satisfies the circuit's constraints then the
/// private amount less the public one, taken in the field, is below 2^32.
pub proof fn lemma_token_circuit_sound(c: TokenVerificationCircuit, s: R1cs)
    requires
        no_zero_divisors(),
        reduced(s),
        s.constraints == c.synthesized(fresh_system()).constraints,
        satisfied(s),
    ensures
        s.witness.len() > 0,
        s.instance.len() > 1,
        sub_mod(s.witness[0], s.instance[1]) < pow2(32),
{
    let x_var = witness_var(0);
    let y_var = Variable::Instance(1);
    let d_var = witness_var(2);
    let honest = c.synthesized(fresh_system());
    assert(s.constraints.len() == 100);
    assert(s.constraints[0] == difference_constraints(x_var, y_var, 1)[0]);
    assert(s.constraints[1] == difference_constraints(x_var, y_var, 1)[1]);
    assert(constraint_holds(s, s.constraints[0]));
    assert(constraint_holds(s, s.constraints[1]));
    lemma_difference_sound(s, x_var, y_var, 1);
    assert forall|j: int| 0 <= j < 98 implies #[trigger] s.constraints[2 + j] == range_constraint(
        d_var,
        3,
        j,
    ) by {
        assert(honest.constraints[2 + j] == range_constraints(d_var, 3)[j]);
    }
    lemma_range_check_sound(s, d_var, 3, 2);
}

/// `ExampleCircuit` with its range check is sound: if an assignment
/// satisfies the circuit's constraints then the first public value less the
/// second, taken in the field, is below 2^32.
pub proof fn lemma_example_circuit_sound(c: ExampleCircuit, s: R1cs)
    requires
        no_zero_divisors(),
        reduced(s),
        c.range_check,
        s.constraints == c.synthesized(fresh_system()).constraints,
        satisfied(s),
    ensures
        s.instance.len() > 2,
        sub_mod(s.instance[1], s.instance[2]) < pow2(32),
{
    let x_var = Variable::Instance(1);
    let y_var = Variable::Instance(2);
    let d_var = witness_var(1);
    let honest = c.synthesized(fresh_system());
    assert(s.constraints.len() == 100);
    assert(s.constraints[0] == difference_constraints(x_var, y_var, 0)[0]);
    assert(s.constraints[1] == difference_constraints(x_var, y_var, 0)[1]);
    assert(constraint_holds(s, s.constraints[0]));
    assert(constraint_holds(s, s.constraints[1]));
    lemma_difference_sound(s, x_var, y_var, 0);
    assert forall|j: int| 0 <= j < 98 implies #[trigger] s.constraints[2 + j] == range_constraint(
        d_var,
        2,
        j,
    ) by {
        assert(honest.constraints[2 + j] == range_constraints(d_var, 2)[j]);
    }
    lemma_range_check_sound(s, d_var, 2, 2);
}

/// A new constraint system has room for either circuit.
pub proof fn lemma_circuits_fit(example: ExampleCircuit, token: TokenVerificationCircuit)
    ensures
        example.fits(fresh_system()),
        token.fits(fresh_system()),
{
}

} // verus!
