use mutagen_core::binop_eq::{BinopEq, BinopEqSpanned, MutationBinopEq, MutatorBinopEq};
use mutagen_core::registry::{Mutation, MutationRegistry, SourceLocation, TransformContext};
use mutagen_core::runtime::MutagenRuntimeConfig;

#[test]
fn eq_inactive() {
    let result = MutatorBinopEq::run(
        1,
        5,
        4,
        BinopEq::Eq,
        &mut MutagenRuntimeConfig::without_mutation(),
    );
    assert_eq!(result, false);
}

#[test]
fn eq_active() {
    let result = MutatorBinopEq::run(
        1,
        5,
        4,
        BinopEq::Eq,
        &mut MutagenRuntimeConfig::with_mutation_id(1),
    );
    assert_eq!(result, true);
}

#[test]
fn ne_inactive() {
    let result = MutatorBinopEq::run(
        1,
        5,
        4,
        BinopEq::Ne,
        &mut MutagenRuntimeConfig::without_mutation(),
    );
    assert_eq!(result, true);
}

#[test]
fn ne_active() {
    let result = MutatorBinopEq::run(
        1,
        5,
        4,
        BinopEq::Ne,
        &mut MutagenRuntimeConfig::with_mutation_id(1),
    );
    assert_eq!(result, false);
}

#[test]
fn equal_operands_inactive_and_active() {
    assert_eq!(
        MutatorBinopEq::run(1, 7, 7, BinopEq::Eq, &mut MutagenRuntimeConfig::without_mutation()),
        true
    );
    assert_eq!(
        MutatorBinopEq::run(1, 7, 7, BinopEq::Eq, &mut MutagenRuntimeConfig::with_mutation_id(1)),
        false
    );
}

#[test]
fn two_sites_only_the_active_one_mutates() {
    let mut runtime = MutagenRuntimeConfig::with_mutation_id(1);
    let site_a = MutatorBinopEq::run(1, 5, 4, BinopEq::Eq, &mut runtime);
    let site_b = MutatorBinopEq::run(2, 5, 4, BinopEq::Eq, &mut runtime);
    assert_eq!(site_a, true);
    assert_eq!(site_b, false);
}

#[test]
fn active_id_below_or_above_block_falls_back() {
    let mut runtime = MutagenRuntimeConfig::with_mutation_id(3);
    assert_eq!(MutatorBinopEq::run(4, 5, 4, BinopEq::Eq, &mut runtime), false);
    assert_eq!(MutatorBinopEq::run(2, 5, 4, BinopEq::Eq, &mut runtime), false);
    assert_eq!(MutatorBinopEq::run(3, 5, 4, BinopEq::Eq, &mut runtime), true);
}

#[test]
fn candidates_of_each_operator() {
    let of_eq = MutationBinopEq::possible_mutations(BinopEq::Eq);
    assert_eq!(of_eq, vec![MutationBinopEq { op: BinopEq::Ne }]);
    let of_ne = MutationBinopEq::possible_mutations(BinopEq::Ne);
    assert_eq!(of_ne, vec![MutationBinopEq { op: BinopEq::Eq }]);
}

#[test]
fn candidates_exclude_original() {
    for op in [BinopEq::Eq, BinopEq::Ne] {
        let cands = MutationBinopEq::possible_mutations(op);
        assert_eq!(cands.len(), 1);
        assert!(cands.iter().all(|m| m.op != op));
    }
}

#[test]
fn mutate_applies_replacement_operator() {
    assert_eq!(MutationBinopEq { op: BinopEq::Ne }.mutate(5, 4), true);
    assert_eq!(MutationBinopEq { op: BinopEq::Eq }.mutate(5, 4), false);
    assert_eq!(BinopEq::Eq.eq("a", "a"), true);
    assert_eq!(BinopEq::Ne.eq("a", "a"), false);
}

#[test]
fn symbols_render_source_tokens() {
    assert_eq!(BinopEq::Eq.symbol(), "==");
    assert_eq!(BinopEq::Ne.symbol(), "!=");
}

#[test]
fn coverage_marked_on_first_call_and_kept() {
    let mut runtime = MutagenRuntimeConfig::without_mutation();
    assert!(!runtime.is_covered(5));
    MutatorBinopEq::run(5, 1, 2, BinopEq::Eq, &mut runtime);
    assert!(runtime.is_covered(5));
    assert!(!runtime.is_covered(6));
    MutatorBinopEq::run(5, 1, 2, BinopEq::Eq, &mut runtime);
    MutatorBinopEq::run(6, 1, 2, BinopEq::Ne, &mut runtime);
    assert!(runtime.is_covered(5));
    assert!(runtime.is_covered(6));
    assert_eq!(runtime.coverage.len(), 2);
}

#[test]
fn coverage_marked_when_mutation_active() {
    let mut runtime = MutagenRuntimeConfig::with_mutation_id(9);
    MutatorBinopEq::run(1, 1, 2, BinopEq::Eq, &mut runtime);
    assert!(runtime.is_covered(1));
    assert_eq!(runtime.mutation_id(), Some(9));
}

#[test]
fn operands_evaluated_once_left_first() {
    for runtime in [
        MutagenRuntimeConfig::without_mutation(),
        MutagenRuntimeConfig::with_mutation_id(1),
    ] {
        let mut runtime = runtime;
        let mut log: Vec<&str> = Vec::new();
        MutatorBinopEq::run(
            1,
            {
                log.push("left");
                5
            },
            {
                log.push("right");
                4
            },
            BinopEq::Eq,
            &mut runtime,
        );
        assert_eq!(log, vec!["left", "right"]);
    }
}

#[test]
fn get_mutation_picks_offset_in_block() {
    let runtime = MutagenRuntimeConfig::with_mutation_id(12);
    let cands = vec![10u8, 20, 30];
    assert_eq!(runtime.get_mutation(10, &cands), Some(30));
    assert_eq!(runtime.get_mutation(11, &cands), Some(20));
    assert_eq!(runtime.get_mutation(13, &cands), None);
    assert_eq!(runtime.get_mutation(9, &cands), None);
    assert_eq!(MutagenRuntimeConfig::without_mutation().get_mutation(12, &cands), None);
}

#[test]
fn transform_site_registers_contiguous_blocks() {
    let mut registry = MutationRegistry::new();
    let context = TransformContext { fn_name: "check".to_owned() };
    let at = SourceLocation { line: 3, column: 14 };
    let (first, spanned) = MutatorBinopEq::transform_site(BinopEq::Eq, at, &mut registry, &context);
    assert_eq!(first, 1);
    assert_eq!(spanned.op, BinopEq::Eq);
    assert_eq!(spanned.location, at);
    let later = SourceLocation { line: 8, column: 2 };
    let (second, _) = MutatorBinopEq::transform_site(BinopEq::Ne, later, &mut registry, &context);
    assert_eq!(second, 2);
    assert_eq!(registry.len(), 2);

    let m = registry.get(1).unwrap();
    assert_eq!(m.fn_name, "check");
    assert_eq!(m.mutator, "binop_eq");
    assert_eq!(m.original, "==");
    assert_eq!(m.mutation, "!=");
    assert_eq!(m.location, at);

    let m = registry.get(2).unwrap();
    assert_eq!(m.original, "!=");
    assert_eq!(m.mutation, "==");
    assert_eq!(m.location, later);

    assert!(registry.get(0).is_none());
    assert!(registry.get(3).is_none());
}

#[test]
fn registry_blocks_follow_entry_counts() {
    let mut registry = MutationRegistry::new();
    let entry = |n: &str| {
        Mutation::new_located(
            n.to_owned(),
            "binop_eq".to_owned(),
            "==".to_owned(),
            "!=".to_owned(),
            SourceLocation { line: 1, column: 1 },
        )
    };
    assert_eq!(registry.add_mutations(vec![entry("a"), entry("b"), entry("c")]), 1);
    assert_eq!(registry.add_mutations(vec![]), 4);
    assert_eq!(registry.add_mutations(vec![entry("d")]), 4);
    assert_eq!(registry.len(), 4);
    assert_eq!(registry.get(3).unwrap().fn_name, "c");
    assert_eq!(registry.get(4).unwrap().fn_name, "d");
}

#[test]
fn to_mutation_describes_replacement() {
    let context = TransformContext { fn_name: "f".to_owned() };
    let original = BinopEqSpanned {
        op: BinopEq::Ne,
        location: SourceLocation { line: 2, column: 5 },
    };
    let m = MutationBinopEq { op: BinopEq::Eq }.to_mutation(original, &context);
    assert_eq!(m.fn_name, "f");
    assert_eq!(m.mutator, "binop_eq");
    assert_eq!(m.original, "!=");
    assert_eq!(m.mutation, "==");
    assert_eq!(m.location, SourceLocation { line: 2, column: 5 });
}

#[test]
fn spanned_symbol_renders_operator() {
    let at = SourceLocation { line: 1, column: 0 };
    assert_eq!(BinopEqSpanned { op: BinopEq::Eq, location: at }.symbol(), "==");
    assert_eq!(BinopEqSpanned { op: BinopEq::Ne, location: at }.symbol(), "!=");
}
