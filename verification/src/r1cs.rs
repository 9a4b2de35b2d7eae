//! Rank-1 constraint systems over the BN254 scalar field.
//!
//! The system itself is the one of `ark-relations`; this module gives it a
//! mathematical model (the assignments and the list of constraints) and
//! states, over that model, what each operation does to it.

use crate::field::modulus;
use crate::field::FieldElement;
use ark_bn254::Fr;
use ark_ff::BigInt;
use ark_ff::PrimeField;
use ark_relations::r1cs::LinearCombination;
use vstd::prelude::*;

verus! {

/// A variable of a constraint system.
#[derive(Clone, Copy, Debug, PartialEq, Eq)]
pub enum Variable {
    /// The constant one.
    One,
    /// A public variable, by its index; index 0 is the constant one.
    Instance(usize),
    /// A private variable, by its index.
    Witness(usize),
}

/// One summand of a linear combination: a coefficient times a variable.
#[derive(Clone, Copy, Debug)]
pub struct Term {
    pub coeff: FieldElement,
    pub var: Variable,
}

/// A linear combination as the model sees it: coefficients by their values.
pub type LinearSum = Seq<(nat, Variable)>;

/// The constraint `<a, z> * <b, z> = <c, z>` over the assignment `z`.
pub struct Constraint {
    pub a: LinearSum,
    pub b: LinearSum,
    pub c: LinearSum,
}

/// What a constraint system holds.
pub struct R1cs {
    /// The values of the public variables; the first is the constant one.
    pub instance: Seq<nat>,
    /// The values of the private variables.
    pub witness: Seq<nat>,
    /// The constraints, in the order in which they were enforced.
    pub constraints: Seq<Constraint>,
}

/// The system that `ConstraintSystem::new` makes.
pub open spec fn fresh_system() -> R1cs {
    R1cs { instance: seq![1nat], witness: Seq::empty(), constraints: Seq::empty() }
}

/// The model of a linear combination.
pub open spec fn terms_view(lc: Seq<Term>) -> LinearSum {
    lc.map_values(|t: Term| (t.coeff@, t.var))
}

/// Whether the system has a value for the variable.
pub open spec fn var_assigned(s: R1cs, v: Variable) -> bool {
    match v {
        Variable::One => true,
        Variable::Instance(i) => i < s.instance.len(),
        Variable::Witness(i) => i < s.witness.len(),
    }
}

/// The value that the system has for the variable.
pub open spec fn var_value(s: R1cs, v: Variable) -> nat {
    match v {
        Variable::One => 1,
        Variable::Instance(i) => s.instance[i as int],
        Variable::Witness(i) => s.witness[i as int],
    }
}

/// Whether the system has a value for every variable of the sum.
pub open spec fn sum_assigned(s: R1cs, lc: LinearSum) -> bool {
    forall|i: int| 0 <= i < lc.len() ==> var_assigned(s, (#[trigger] lc[i]).1)
}

/// The sum of coefficient times value over the terms, as a natural number.
pub open spec fn sum_total(s: R1cs, lc: LinearSum) -> nat
    decreases lc.len(),
{
    if lc.len() == 0 {
        0
    } else {
        sum_total(s, lc.drop_last()) + lc.last().0 * var_value(s, lc.last().1)
    }
}

/// The value of a linear combination in the field.
pub open spec fn sum_value(s: R1cs, lc: LinearSum) -> nat {
    sum_total(s, lc) % modulus()
}

/// Whether the system's assignment makes the constraint true.
pub open spec fn constraint_holds(s: R1cs, c: Constraint) -> bool {
    &&& sum_assigned(s, c.a)
    &&& sum_assigned(s, c.b)
    &&& sum_assigned(s, c.c)
    &&& (sum_value(s, c.a) * sum_value(s, c.b)) % modulus() == sum_value(s, c.c)
}

/// Whether the system's assignment makes all its constraints true.
pub open spec fn satisfied(s: R1cs) -> bool {
    forall|i: int| 0 <= i < s.constraints.len() ==> constraint_holds(s, #[trigger] s.constraints[i])
}

/// Whether the system has a value for every variable of the constraint.
pub open spec fn constraint_assigned(s: R1cs, c: Constraint) -> bool {
    &&& sum_assigned(s, c.a)
    &&& sum_assigned(s, c.b)
    &&& sum_assigned(s, c.c)
}

/// What holds of every constraint system: each constraint speaks of
/// variables that have been allocated only, and the numbers of variables and
/// of linear combinations fit the machine's index type.
pub open spec fn well_formed(s: R1cs) -> bool {
    &&& s.instance.len() + s.witness.len() <= usize::MAX
    &&& 3 * s.constraints.len() <= usize::MAX
    &&& forall|i: int|
        0 <= i < s.constraints.len() ==> constraint_assigned(s, #[trigger] s.constraints[i])
}

/// Whether `t` is `s` with more variables allocated, or the same.
pub open spec fn grown(s: R1cs, t: R1cs) -> bool {
    &&& s.instance.len() <= t.instance.len()
    &&& s.witness.len() <= t.witness.len()
    &&& t.instance.len() + t.witness.len() <= usize::MAX
}

/// Why a constraint system was not extended.
#[derive(Clone, Copy, Debug, PartialEq, Eq)]
pub enum SynthesisError {
    /// A value that a circuit needs has not been set.
    AssignmentMissing,
    /// A constraint names a variable that has not been allocated.
    UnknownVariable,
    /// The numbers of variables or constraints would exceed the machine's
    /// index type.
    SystemFull,
}

/// The column of a variable in the constraint matrices of a system with
/// `num_instance` public variables: the public variables come first.
pub open spec fn column(v: Variable, num_instance: nat) -> nat {
    match v {
        Variable::One => 0,
        Variable::Instance(i) => i as nat,
        Variable::Witness(i) => (num_instance + i) as nat,
    }
}

/// One row of a constraint matrix: the terms with a coefficient other than
/// zero, each with its variable's column.
pub open spec fn matrix_row(lc: LinearSum, num_instance: nat) -> Seq<(nat, nat)> {
    lc.filter(|t: (nat, Variable)| t.0 != 0).map_values(
        |t: (nat, Variable)| (t.0, column(t.1, num_instance)),
    )
}

/// The model of a matrix row held in memory.
pub open spec fn row_view(row: Seq<(FieldElement, usize)>) -> Seq<(nat, nat)> {
    row.map_values(|e: (FieldElement, usize)| (e.0@, e.1 as nat))
}

/// The three constraint matrices of a system, row by row, with its sizes.
pub struct ConstraintMatrices {
    pub num_instance_variables: usize,
    pub num_witness_variables: usize,
    pub num_constraints: usize,
    pub a: Vec<Vec<(FieldElement, usize)>>,
    pub b: Vec<Vec<(FieldElement, usize)>>,
    pub c: Vec<Vec<(FieldElement, usize)>>,
}

/// Whether the rows are those of the constraints' sums of one side, which
/// `side` picks from a constraint.
pub open spec fn rows_match(
    rows: Seq<Vec<(FieldElement, usize)>>,
    s: R1cs,
    side: spec_fn(Constraint) -> LinearSum,
) -> bool {
    &&& rows.len() == s.constraints.len()
    &&& forall|i: int|
        0 <= i < rows.len() ==> row_view((#[trigger] rows[i])@) == matrix_row(
            side(s.constraints[i]),
            s.instance.len(),
        )
}

/// Whether the matrices are those of the system.
pub open spec fn matrices_of(m: ConstraintMatrices, s: R1cs) -> bool {
    &&& m.num_instance_variables == s.instance.len()
    &&& m.num_witness_variables == s.witness.len()
    &&& m.num_constraints == s.constraints.len()
    &&& rows_match(m.a@, s, |c: Constraint| c.a)
    &&& rows_match(m.b@, s, |c: Constraint| c.b)
    &&& rows_match(m.c@, s, |c: Constraint| c.c)
}

/// A constraint system of `ark-relations` over the BN254 scalar field, in
/// proving mode: it records the constraints and the values of the variables.
#[verifier::external_body]
pub struct ArkConstraintSystem {
    pub(crate) inner: ark_relations::r1cs::ConstraintSystem<Fr>,
}

/// The values that the system holds for its public variables.
pub uninterp spec fn instance_values(cs: ArkConstraintSystem) -> Seq<nat>;

/// The values that the system holds for its private variables.
pub uninterp spec fn witness_values(cs: ArkConstraintSystem) -> Seq<nat>;

/// The constraints that the system holds, oldest first.
pub uninterp spec fn constraints_of(cs: ArkConstraintSystem) -> Seq<Constraint>;

/// What the system holds.
pub open spec fn contents(cs: ArkConstraintSystem) -> R1cs {
    R1cs {
        instance: instance_values(cs),
        witness: witness_values(cs),
        constraints: constraints_of(cs),
    }
}

/// `ConstraintSystem::new`: no constraints, no private variables, and the
/// constant one as the only public variable.
#[verifier::external_body]
fn ark_new() -> (cs: ArkConstraintSystem)
    ensures
        instance_values(cs) == seq![1nat],
        witness_values(cs) == Seq::<nat>::empty(),
        constraints_of(cs) == Seq::<Constraint>::empty(),
{
    ArkConstraintSystem { inner: ark_relations::r1cs::ConstraintSystem::new() }
}

/// `new_input_variable`: appends the value to the public variables and
/// returns the new variable's index; nothing else changes.
#[verifier::external_body]
fn ark_new_input_variable(cs: &mut ArkConstraintSystem, value: &FieldElement) -> (index: usize)
    requires
        instance_values(*old(cs)).len() < usize::MAX,
    ensures
        index == instance_values(*old(cs)).len(),
        instance_values(*final(cs)) == instance_values(*old(cs)).push(value@),
        witness_values(*final(cs)) == witness_values(*old(cs)),
        constraints_of(*final(cs)) == constraints_of(*old(cs)),
    no_unwind
{
    let value = Fr::new(BigInt(value.limbs));
    match cs.inner.new_input_variable(|| Ok(value)) {
        Ok(ark_relations::r1cs::Variable::Instance(i)) => i,
        _ => 0,
    }
}

/// `new_witness_variable`: appends the value to the private variables and
/// returns the new variable's index; nothing else changes.
#[verifier::external_body]
fn ark_new_witness_variable(cs: &mut ArkConstraintSystem, value: &FieldElement) -> (index: usize)
    requires
        witness_values(*old(cs)).len() < usize::MAX,
    ensures
        index == witness_values(*old(cs)).len(),
        witness_values(*final(cs)) == witness_values(*old(cs)).push(value@),
        instance_values(*final(cs)) == instance_values(*old(cs)),
        constraints_of(*final(cs)) == constraints_of(*old(cs)),
    no_unwind
{
    let value = Fr::new(BigInt(value.limbs));
    match cs.inner.new_witness_variable(|| Ok(value)) {
        Ok(ark_relations::r1cs::Variable::Witness(i)) => i,
        _ => 0,
    }
}

/// `enforce_constraint`: appends the constraint `a * b = c`; the assignments
/// do not change. The system counts three linear combinations for it.
#[verifier::external_body]
fn ark_enforce_constraint(
    cs: &mut ArkConstraintSystem,
    a: &Vec<Term>,
    b: &Vec<Term>,
    c: &Vec<Term>,
)
    requires
        3 * (constraints_of(*old(cs)).len() + 1) <= usize::MAX,
    ensures
        constraints_of(*final(cs)) == constraints_of(*old(cs)).push(
            Constraint { a: terms_view(a@), b: terms_view(b@), c: terms_view(c@) },
        ),
        instance_values(*final(cs)) == instance_values(*old(cs)),
        witness_values(*final(cs)) == witness_values(*old(cs)),
    no_unwind
{
    let var = |v: &Variable|
        match v {
            Variable::One => ark_relations::r1cs::Variable::One,
            Variable::Instance(i) => ark_relations::r1cs::Variable::Instance(*i),
            Variable::Witness(i) => ark_relations::r1cs::Variable::Witness(*i),
        };
    let lc = |t: &Vec<Term>|
        LinearCombination(t.iter().map(|t| (Fr::new(BigInt(t.coeff.limbs)), var(&t.var))).collect());
    let _ = cs.inner.enforce_constraint(lc(a), lc(b), lc(c));
}

/// The field `num_instance_variables`: the number of public variables, the
/// constant one among them.
#[verifier::external_body]
fn ark_num_instance_variables(cs: &ArkConstraintSystem) -> (n: usize)
    ensures
        n == instance_values(*cs).len(),
{
    cs.inner.num_instance_variables
}

/// The field `num_witness_variables`: the number of private variables.
#[verifier::external_body]
fn ark_num_witness_variables(cs: &ArkConstraintSystem) -> (n: usize)
    ensures
        n == witness_values(*cs).len(),
{
    cs.inner.num_witness_variables
}

/// The field `num_constraints`: the number of constraints.
#[verifier::external_body]
fn ark_num_constraints(cs: &ArkConstraintSystem) -> (n: usize)
    ensures
        n == constraints_of(*cs).len(),
{
    cs.inner.num_constraints
}

/// `is_satisfied`: whether every constraint has a value for each of its
/// variables and holds of those values.
#[verifier::external_body]
fn ark_is_satisfied(cs: &ArkConstraintSystem) -> (r: bool)
    ensures
        r == satisfied(
            R1cs {
                instance: instance_values(*cs),
                witness: witness_values(*cs),
                constraints: constraints_of(*cs),
            },
        ),
{
    matches!(cs.inner.is_satisfied(), Ok(true))
}

/// `to_matrices`: the constraints as three sparse matrices, one row for each
/// constraint, with the numbers of variables and constraints. Each variable
/// must have been allocated, so that its column can be computed.
#[verifier::external_body]
fn ark_to_matrices(cs: &ArkConstraintSystem) -> (m: ConstraintMatrices)
    requires
        well_formed(contents(*cs)),
    ensures
        matrices_of(
            m,
            R1cs {
                instance: instance_values(*cs),
                witness: witness_values(*cs),
                constraints: constraints_of(*cs),
            },
        ),
{
    let m = cs.inner.to_matrices().unwrap();
    let rows = |m: &Vec<Vec<(Fr, usize)>>| -> Vec<Vec<(FieldElement, usize)>> {
        m.iter().map(
            |r| r.iter().map(|(c, i)| (FieldElement { limbs: c.into_bigint().0 }, *i)).collect(),
        ).collect()
    };
    ConstraintMatrices {
        num_instance_variables: m.num_instance_variables,
        num_witness_variables: m.num_witness_variables,
        num_constraints: m.num_constraints,
        a: rows(&m.a),
        b: rows(&m.b),
        c: rows(&m.c),
    }
}

/// A system that is well formed stays so when variables are allocated.
pub proof fn lemma_grown_well_formed(s: R1cs, t: R1cs)
    requires
        well_formed(s),
        grown(s, t),
        t.constraints == s.constraints,
    ensures
        well_formed(t),
{
    assert forall|i: int| 0 <= i < t.constraints.len() implies constraint_assigned(
        t,
        #[trigger] t.constraints[i],
    ) by {
        let c = s.constraints[i];
        assert(constraint_assigned(s, c));
        lemma_grown_assigned(s, t, c.a);
        lemma_grown_assigned(s, t, c.b);
        lemma_grown_assigned(s, t, c.c);
    }
}

/// A sum whose variables have values keeps them when variables are
/// allocated.
pub proof fn lemma_grown_assigned(s: R1cs, t: R1cs, lc: LinearSum)
    requires
        sum_assigned(s, lc),
        s.instance.len() <= t.instance.len(),
        s.witness.len() <= t.witness.len(),
    ensures
        sum_assigned(t, lc),
{
    assert forall|i: int| 0 <= i < lc.len() implies var_assigned(t, (#[trigger] lc[i]).1) by {
        assert(var_assigned(s, lc[i].1));
    }
}

/// A rank-1 constraint system. Every constraint in it speaks of allocated
/// variables only.
pub struct ConstraintSystem {
    pub(crate) sys: ArkConstraintSystem,
}

impl View for ConstraintSystem {
    type V = R1cs;

    closed spec fn view(&self) -> R1cs {
        contents(self.sys)
    }
}

impl ConstraintSystem {
    #[verifier::type_invariant]
    spec fn sound(self) -> bool {
        well_formed(contents(self.sys))
    }

    /// An empty system: no constraints, and the constant one as its only
    /// variable.
    pub fn new() -> (cs: ConstraintSystem)
        ensures
            cs@ == fresh_system(),
    {
        ConstraintSystem { sys: ark_new() }
    }

    /// The number of public variables, the constant one among them.
    pub fn num_instance_variables(&self) -> (n: usize)
        ensures
            n == self@.instance.len(),
    {
        ark_num_instance_variables(&self.sys)
    }

    /// The number of private variables.
    pub fn num_witness_variables(&self) -> (n: usize)
        ensures
            n == self@.witness.len(),
    {
        ark_num_witness_variables(&self.sys)
    }

    /// The number of constraints.
    pub fn num_constraints(&self) -> (n: usize)
        ensures
            n == self@.constraints.len(),
    {
        ark_num_constraints(&self.sys)
    }

    /// Whether one more variable can be allocated.
    pub open spec fn can_allocate(s: R1cs) -> bool {
        s.instance.len() + s.witness.len() < usize::MAX
    }

    /// Whether one more constraint can be added.
    pub open spec fn can_constrain(s: R1cs) -> bool {
        3 * (s.constraints.len() + 1) <= usize::MAX
    }

    /// Allocates a public variable of the given value. Fails, changing
    /// nothing, where the system is full.
    pub fn new_input_variable(&mut self, value: &FieldElement) -> (r: Result<
        Variable,
        SynthesisError,
    >)
        ensures
            Self::can_allocate(old(self)@) ==> r == Ok::<Variable, SynthesisError>(
                Variable::Instance(old(self)@.instance.len() as usize),
            ) && final(self)@ == (R1cs {
                instance: old(self)@.instance.push(value@),
                ..old(self)@
            }),
            !Self::can_allocate(old(self)@) ==> r == Err::<Variable, SynthesisError>(
                SynthesisError::SystemFull,
            ) && final(self)@ == old(self)@,
            well_formed(old(self)@),
            well_formed(final(self)@),
    {
        proof {
            use_type_invariant(&*self);
        }
        let n = ark_num_instance_variables(&self.sys);
        let w = ark_num_witness_variables(&self.sys);
        if w >= usize::MAX - n {
            return Err(SynthesisError::SystemFull);
        }
        let ghost before = contents(self.sys);
        proof {
            assert forall|t: R1cs|
                grown(before, t) && t.constraints == before.constraints implies #[trigger] well_formed(
                t,
            ) by {
                lemma_grown_well_formed(before, t);
            }
        }
        let index = ark_new_input_variable(&mut self.sys, value);
        Ok(Variable::Instance(index))
    }

    /// Allocates a private variable of the given value. Fails, changing
    /// nothing, where the system is full.
    pub fn new_witness_variable(&mut self, value: &FieldElement) -> (r: Result<
        Variable,
        SynthesisError,
    >)
        ensures
            Self::can_allocate(old(self)@) ==> r == Ok::<Variable, SynthesisError>(
                Variable::Witness(old(self)@.witness.len() as usize),
            ) && final(self)@ == (R1cs {
                witness: old(self)@.witness.push(value@),
                ..old(self)@
            }),
            !Self::can_allocate(old(self)@) ==> r == Err::<Variable, SynthesisError>(
                SynthesisError::SystemFull,
            ) && final(self)@ == old(self)@,
            well_formed(old(self)@),
            well_formed(final(self)@),
    {
        proof {
            use_type_invariant(&*self);
        }
        let n = ark_num_instance_variables(&self.sys);
        let w = ark_num_witness_variables(&self.sys);
        if w >= usize::MAX - n {
            return Err(SynthesisError::SystemFull);
        }
        let ghost before = contents(self.sys);
        proof {
            assert forall|t: R1cs|
                grown(before, t) && t.constraints == before.constraints implies #[trigger] well_formed(
                t,
            ) by {
                lemma_grown_well_formed(before, t);
            }
        }
        let index = ark_new_witness_variable(&mut self.sys, value);
        Ok(Variable::Witness(index))
    }

    /// Whether every variable of the linear combination has been allocated.
    pub fn knows(&self, lc: &Vec<Term>) -> (r: bool)
        ensures
            r == sum_assigned(self@, terms_view(lc@)),
    {
        let n = ark_num_instance_variables(&self.sys);
        let w = ark_num_witness_variables(&self.sys);
        let ghost s = self@;
        let ghost sum = terms_view(lc@);
        let mut i: usize = 0;
        while i < lc.len()
            invariant
                0 <= i <= lc@.len(),
                s == self@,
                sum == terms_view(lc@),
                n == s.instance.len(),
                w == s.witness.len(),
                forall|j: int| 0 <= j < i ==> var_assigned(s, (#[trigger] sum[j]).1),
            decreases lc@.len() - i,
        {
            let known = match lc[i].var {
                Variable::One => true,
                Variable::Instance(k) => k < n,
                Variable::Witness(k) => k < w,
            };
            assert(sum[i as int].1 == lc@[i as int].var);
            if !known {
                assert(!var_assigned(s, sum[i as int].1));
                return false;
            }
            i += 1;
        }
        true
    }

    /// Adds the constraint `a * b = c`. Fails, changing nothing, where one of
    /// the three names a variable that has not been allocated, or where the
    /// system is full.
    pub fn enforce_constraint(&mut self, a: &Vec<Term>, b: &Vec<Term>, c: &Vec<Term>) -> (r: Result<
        (),
        SynthesisError,
    >)
        ensures
            r == Self::enforced(old(self)@, terms_view(a@), terms_view(b@), terms_view(c@)),
            r is Ok ==> final(self)@ == (R1cs {
                constraints: old(self)@.constraints.push(
                    Constraint { a: terms_view(a@), b: terms_view(b@), c: terms_view(c@) },
                ),
                ..old(self)@
            }),
            r is Err ==> final(self)@ == old(self)@,
            well_formed(old(self)@),
            well_formed(final(self)@),
    {
        proof {
            use_type_invariant(&*self);
        }
        if !(self.knows(a) && self.knows(b) && self.knows(c)) {
            return Err(SynthesisError::UnknownVariable);
        }
        let k = ark_num_constraints(&self.sys);
        if k >= usize::MAX / 3 {
            return Err(SynthesisError::SystemFull);
        }
        let ghost before = contents(self.sys);
        let ghost added = Constraint { a: terms_view(a@), b: terms_view(b@), c: terms_view(c@) };
        proof {
            assert forall|t: R1cs|
                t.instance == before.instance && t.witness == before.witness && t.constraints
                    == before.constraints.push(added) implies #[trigger] well_formed(t) by {
                assert forall|i: int| 0 <= i < t.constraints.len() implies constraint_assigned(
                    t,
                    #[trigger] t.constraints[i],
                ) by {
                    if i < before.constraints.len() {
                        let old_c = before.constraints[i];
                        assert(constraint_assigned(before, old_c));
                        lemma_grown_assigned(before, t, old_c.a);
                        lemma_grown_assigned(before, t, old_c.b);
                        lemma_grown_assigned(before, t, old_c.c);
                    } else {
                        lemma_grown_assigned(before, t, added.a);
                        lemma_grown_assigned(before, t, added.b);
                        lemma_grown_assigned(before, t, added.c);
                    }
                }
            }
        }
        ark_enforce_constraint(&mut self.sys, a, b, c);
        Ok(())
    }

    /// What `enforce_constraint` answers for the system `s`.
    pub open spec fn enforced(s: R1cs, a: LinearSum, b: LinearSum, c: LinearSum) -> Result<
        (),
        SynthesisError,
    > {
        if !(sum_assigned(s, a) && sum_assigned(s, b) && sum_assigned(s, c)) {
            Err(SynthesisError::UnknownVariable)
        } else if !Self::can_constrain(s) {
            Err(SynthesisError::SystemFull)
        } else {
            Ok(())
        }
    }

    /// Whether the assignment satisfies every constraint.
    pub fn is_satisfied(&self) -> (r: bool)
        ensures
            r == satisfied(self@),
    {
        ark_is_satisfied(&self.sys)
    }

    /// The system's constraint matrices.
    pub fn to_matrices(&self) -> (m: ConstraintMatrices)
        ensures
            matrices_of(m, self@),
    {
        proof {
            use_type_invariant(self);
        }
        ark_to_matrices(&self.sys)
    }
}

} // verus!
