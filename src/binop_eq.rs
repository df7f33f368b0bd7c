//! The equality family of mutable operators: `==` and `!=`.
use crate::registry::{Mutation, MutationRegistry, SourceLocation, TransformContext, id_of};
use crate::runtime::{MutagenRuntimeConfig, select_spec};
use vstd::prelude::*;
use vstd::std_specs::cmp::PartialEqSpec;

verus! {

/// An operator of the equality family.
#[derive(PartialEq, Eq, Structural, Clone, Copy, Debug)]
pub enum BinopEq {
    Eq,
    Ne,
}

/// Every operator of the family, in its fixed order.
pub open spec fn variants() -> Seq<BinopEq> {
    seq![BinopEq::Eq, BinopEq::Ne]
}

/// The operators that may replace `original`: the family's order, without it.
pub open spec fn candidates_spec(original: BinopEq) -> Seq<BinopEq> {
    variants().filter(other_than(original))
}

/// Holds of the operators other than `original`.
pub open spec fn other_than(original: BinopEq) -> spec_fn(BinopEq) -> bool {
    |op: BinopEq| op != original
}

/// The name under which the family's mutations are registered.
pub open spec fn family_name() -> Seq<char> {
    seq!['b', 'i', 'n', 'o', 'p', '_', 'e', 'q']
}

impl BinopEq {
    /// What the operator computes on two operands, in terms of their `==`.
    pub open spec fn eval_spec<L: PartialEq<R>, R>(self, left: L, right: R) -> bool {
        match self {
            BinopEq::Eq => left.eq_spec(&right),
            BinopEq::Ne => !left.eq_spec(&right),
        }
    }

    /// The operator as it is written in source.
    pub open spec fn symbol_spec(self) -> Seq<char> {
        match self {
            BinopEq::Eq => seq!['=', '='],
            BinopEq::Ne => seq!['!', '='],
        }
    }

    /// Applies the operator to two operands.
    pub fn eq<L: PartialEq<R>, R>(self, left: L, right: R) -> (r: bool)
        ensures
            L::obeys_eq_spec() ==> r == self.eval_spec(left, right),
    {
        match self {
            BinopEq::Eq => left == right,
            BinopEq::Ne => left != right,
        }
    }

    /// The operator as it is written in source.
    pub fn symbol(self) -> (r: String)
        ensures
            r@ == self.symbol_spec(),
    {
        match self {
            BinopEq::Eq => {
                proof { reveal_strlit("=="); }
                "==".to_owned()
            },
            BinopEq::Ne => {
                proof { reveal_strlit("!="); }
                "!=".to_owned()
            },
        }
    }
}

/// An operator together with the place where it stands in source.
#[derive(PartialEq, Eq, Structural, Clone, Copy, Debug)]
pub struct BinopEqSpanned {
    pub op: BinopEq,
    pub location: SourceLocation,
}

impl BinopEqSpanned {
    /// The operator as it is written in source.
    pub fn symbol(self) -> (r: String)
        ensures
            r@ == self.op.symbol_spec(),
    {
        self.op.symbol()
    }
}

/// One possible replacement of an operator of the family.
#[derive(PartialEq, Eq, Structural, Clone, Copy, Debug)]
pub struct MutationBinopEq {
    pub op: BinopEq,
}

/// The replacement operators of a list of mutations.
pub open spec fn ops_of(ms: Seq<MutationBinopEq>) -> Seq<BinopEq> {
    ms.map_values(|m: MutationBinopEq| m.op)
}

/// Whether `m` is the registry record of replacing `original` by `candidate`
/// inside the function that `context` names.
pub open spec fn describes(
    m: Mutation,
    candidate: BinopEq,
    original: BinopEqSpanned,
    context: TransformContext,
) -> bool {
    &&& m.fn_name@ == context.fn_name@
    &&& m.mutator@ == family_name()
    &&& m.original@ == original.op.symbol_spec()
    &&& m.mutation@ == candidate.symbol_spec()
    &&& m.location == original.location
}

impl MutationBinopEq {
    /// The mutations of `original_op`: one per other operator of the family,
    /// in the family's order.
    pub fn possible_mutations(original_op: BinopEq) -> (r: Vec<Self>)
        ensures
            ops_of(r@) == candidates_spec(original_op),
    {
        let all: [BinopEq; 2] = [BinopEq::Eq, BinopEq::Ne];
        let ghost pred = other_than(original_op);
        let mut out: Vec<Self> = Vec::new();
        let mut i: usize = 0;
        while i < 2
            invariant
                0 <= i <= 2,
                all@ == variants(),
                pred == other_than(original_op),
                ops_of(out@) == variants().take(i as int).filter(pred),
            decreases 2 - i,
        {
            let op = all[i];
            let ghost before = out@;
            proof {
                let prefix = variants().take(i + 1);
                assert(prefix.drop_last() =~= variants().take(i as int));
                assert(prefix.last() == op);
                reveal(Seq::filter);
                assert(prefix.filter(pred) == if pred(op) {
                    prefix.drop_last().filter(pred).push(op)
                } else {
                    prefix.drop_last().filter(pred)
                });
            }
            if op != original_op {
                out.push(MutationBinopEq { op });
                assert(ops_of(out@) =~= ops_of(before).push(op));
            }

            i = i + 1;
        }
        assert(variants().take(2) =~= variants());
        out
    }

    /// Applies the replacement operator to the operands.
    pub fn mutate<L: PartialEq<R>, R>(self, left: L, right: R) -> (r: bool)
        ensures
            L::obeys_eq_spec() ==> r == self.op.eval_spec(left, right),
    {
        self.op.eq(left, right)
    }

    /// The registry record of this mutation of `original_op`.
    pub fn to_mutation(self, original_op: BinopEqSpanned, context: &TransformContext) -> (r: Mutation)
        ensures
            describes(r, self.op, original_op, *context),
    {
        let family = "binop_eq";
        proof {
            reveal_strlit("binop_eq");
            assert(family@ =~= family_name());
        }
        Mutation::new_located(
            context.fn_name.clone(),
            family.to_owned(),
            original_op.symbol(),
            self.op.symbol(),
            original_op.location,
        )
    }
}

/// What a rewritten site returns when `active` is the active mutation: the
/// candidate's result inside the site's block, the original's outside it.
pub open spec fn decide_spec<L: PartialEq<R>, R>(
    active: Option<usize>,
    base: usize,
    original: BinopEq,
    left: L,
    right: R,
) -> bool {
    match select_spec(active, base, candidates_spec(original)) {
        Some(c) => c.eval_spec(left, right),
        None => original.eval_spec(left, right),
    }
}

/// The rewriting of sites of the equality family, and what a rewritten site does.
pub struct MutatorBinopEq {}

impl MutatorBinopEq {
    /// The work of a rewritten site whose block of identifiers starts at
    /// `mutator_id`: marks the site reached, then evaluates the operator that
    /// the active mutation selects, or else the original one.
    pub fn run<L: PartialEq<R>, R>(
        mutator_id: usize,
        left: L,
        right: R,
        original_op: BinopEq,
        runtime: &mut MutagenRuntimeConfig,
    ) -> (r: bool)
        ensures
            final(runtime).mutation_id == old(runtime).mutation_id,
            final(runtime).coverage@ == old(runtime).coverage@.insert(mutator_id),
            L::obeys_eq_spec() ==> r == decide_spec(
                old(runtime).mutation_id,
                mutator_id,
                original_op,
                left,
                right,
            ),
    {
        runtime.covered(mutator_id);
        let mutations = MutationBinopEq::possible_mutations(original_op);
        let chosen = runtime.get_mutation(mutator_id, &mutations);
        proof {
            assert(ops_of(mutations@).len() == mutations@.len());
            if let Some(m) = chosen {
                let n = runtime.mutation_id->0;
                assert(ops_of(mutations@)[n - mutator_id] == m.op);
            }
        }
        if let Some(m) = chosen {
            m.mutate(left, right)
        } else {
            original_op.eq(left, right)
        }
    }

    /// Registers the mutations of the operator `op` found at `location` and
    /// returns the first identifier of their block, with the operator to
    /// hand to the rewritten site.
    pub fn transform_site(
        op: BinopEq,
        location: SourceLocation,
        registry: &mut MutationRegistry,
        context: &TransformContext,
    ) -> (r: (usize, BinopEqSpanned))
        requires
            old(registry).mutations@.len() + variants().len() < usize::MAX,
        ensures
            r.0 == id_of(old(registry).mutations@.len() as int),
            r.1 == (BinopEqSpanned { op, location }),
            final(registry).mutations@.len() == old(registry).mutations@.len() + candidates_spec(op).len(),
            final(registry).mutations@.subrange(0, old(registry).mutations@.len() as int)
                == old(registry).mutations@,
            forall|i: int| 0 <= i < candidates_spec(op).len() ==> describes(
                #[trigger] final(registry).mutations@[old(registry).mutations@.len() + i],
                candidates_spec(op)[i],
                r.1,
                *context,
            ),
    {
        let spanned = BinopEqSpanned { op, location };
        let mutations = MutationBinopEq::possible_mutations(op);
        let mut records: Vec<Mutation> = Vec::new();
        let mut i: usize = 0;
        proof { lemma_candidates_len(op); }
        while i < mutations.len()
            invariant
                0 <= i <= mutations@.len(),
                ops_of(mutations@) == candidates_spec(op),
                mutations@.len() == 1,
                records@.len() == i,
                forall|j: int| 0 <= j < i ==> describes(
                    #[trigger] records@[j],
                    candidates_spec(op)[j],
                    spanned,
                    *context,
                ),
            decreases mutations@.len() - i,
        {
            let m = mutations[i];
            assert(ops_of(mutations@)[i as int] == m.op);
            records.push(m.to_mutation(spanned, context));
            i = i + 1;
        }
        let base = registry.add_mutations(records);
        (base, spanned)
    }
}

/// Each operator of the family has exactly one candidate, the other operator.
pub proof fn lemma_candidates_len(op: BinopEq)
    ensures
        candidates_spec(op).len() == variants().len() - 1,
        candidates_spec(op).len() == 1,
        op == BinopEq::Eq ==> candidates_spec(op) == seq![BinopEq::Ne],
        op == BinopEq::Ne ==> candidates_spec(op) == seq![BinopEq::Eq],
{
    reveal_with_fuel(Seq::filter, 3);
    assert(variants().drop_last() =~= seq![BinopEq::Eq]);
    assert(variants().drop_last().drop_last() =~= Seq::<BinopEq>::empty());
    if op == BinopEq::Eq {
        assert(candidates_spec(op) =~= seq![BinopEq::Ne]);
    } else {
        assert(candidates_spec(op) =~= seq![BinopEq::Eq]);
    }
}

/// Candidates are complete and exclusive: for every operator, the candidates
/// are all the other operators of the family, one fewer than the family has,
/// and never the operator itself.
pub proof fn lemma_candidates_complete_exclusive(op: BinopEq)
    ensures
        candidates_spec(op).len() == variants().len() - 1,
        !candidates_spec(op).contains(op),
        forall|v: BinopEq| variants().contains(v) && v != op ==> candidates_spec(op).contains(v),
{
    lemma_candidates_len(op);
    assert(variants()[0] == BinopEq::Eq);
    assert(variants()[1] == BinopEq::Ne);
    if op == BinopEq::Eq {
        assert(candidates_spec(op)[0] == BinopEq::Ne);
    } else {
        assert(candidates_spec(op)[0] == BinopEq::Eq);
    }
}

/// With no mutation active, a site computes what its original operator computes.
pub proof fn lemma_identity_without_mutation<L: PartialEq<R>, R>(
    base: usize,
    original: BinopEq,
    left: L,
    right: R,
)
    ensures
        decide_spec(None, base, original, left, right) == original.eval_spec(left, right),
{
}

/// A site with a single candidate, whose identifier is the active one, computes
/// what that candidate computes.
pub proof fn lemma_exact_substitution<L: PartialEq<R>, R>(
    base: usize,
    original: BinopEq,
    left: L,
    right: R,
)
    requires
        candidates_spec(original).len() == 1,
    ensures
        decide_spec(Some(base), base, original, left, right)
            == candidates_spec(original)[0].eval_spec(left, right),
{
}

/// An active identifier outside a site's block leaves that site's result
/// unchanged from what it computes with no mutation active.
pub proof fn lemma_no_cross_site_leakage<L: PartialEq<R>, R>(
    active: usize,
    base: usize,
    original: BinopEq,
    left: L,
    right: R,
)
    requires
        !(base <= active < base + candidates_spec(original).len()),
    ensures
        decide_spec(Some(active), base, original, left, right)
            == decide_spec(None, base, original, left, right),
{
}

} // verus!
