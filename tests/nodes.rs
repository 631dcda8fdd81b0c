use cellular4::discrete::{Boolean, Byte, Nibble, SInt, UInt};
use cellular4::nodes::{BooleanNodes, ByteNodes, NibbleNodes, SIntNodes, UIntNodes};
use cellular4::policy::{
    branch_node_weight, choose_weighted, leaf_node_weight, pick_by_weight, pipe_node_weight,
    NodeClass,
};
use cellular4::siblings::{
    BitColor, BitColorNodes, ComArg, CoordMapNodes, CoordinateSet, GenArg, IterativeFunctionNodes,
    IterativeResult, MutArg, SNFloat, SNFloatNodes, UNFloat, UNFloatNodes, REROLL_SCALE,
};
use rand::rngs::StdRng;
use rand::SeedableRng;

fn ctx(t: u32, byte_t: u8) -> ComArg {
    ComArg {
        coordinate_set: CoordinateSet {
            x: SNFloat { key: -3 },
            y: SNFloat { key: 9 },
            t,
            byte_t: Byte::new(byte_t),
        },
    }
}

fn un(key: u32) -> Box<UNFloatNodes> {
    Box::new(UNFloatNodes::Constant { value: UNFloat { key } })
}

fn sn(key: i32) -> Box<SNFloatNodes> {
    Box::new(SNFloatNodes::Constant { value: SNFloat { key } })
}

fn boolean(v: bool) -> Box<BooleanNodes> {
    Box::new(BooleanNodes::Constant { value: Boolean::new(v) })
}

fn nibble(v: u8) -> Box<NibbleNodes> {
    Box::new(NibbleNodes::Constant { value: Nibble::new(v) })
}

fn byte(v: u8) -> Box<ByteNodes> {
    Box::new(ByteNodes::Constant { value: Byte::new(v) })
}

fn between(value: u32, a: u32, b: u32) -> bool {
    BooleanNodes::UNFloatBetween { child_value: un(value), child_range_a: un(a), child_range_b: un(b) }
        .compute(ctx(0, 0))
        .into_inner()
}

#[test]
fn between_is_strict_and_order_free() {
    assert!(between(5, 7, 3));
    assert!(between(5, 3, 7));
    assert!(!between(3, 7, 3));
    assert!(!between(7, 7, 3));
    assert!(!between(3, 3, 7));
    assert!(!between(7, 3, 7));
    assert!(!between(9, 3, 7));
    let signed = BooleanNodes::SNFloatBetween { child_value: sn(-1), child_range_a: sn(4), child_range_b: sn(-6) };
    assert!(signed.compute(ctx(0, 0)).into_inner());
}

#[test]
fn comparisons_and_sign() {
    let c = ctx(0, 0);
    assert!(BooleanNodes::UNFloatLess { child_a: un(2), child_b: un(3) }.compute(c).into_inner());
    assert!(!BooleanNodes::UNFloatMore { child_a: un(2), child_b: un(3) }.compute(c).into_inner());
    assert!(BooleanNodes::SNFloatMore { child_a: sn(0), child_b: sn(-3) }.compute(c).into_inner());
    assert!(!BooleanNodes::SNFloatLess { child_a: sn(3), child_b: sn(3) }.compute(c).into_inner());
    assert!(BooleanNodes::SNFloatSign { child: sn(0) }.compute(c).into_inner());
    assert!(!BooleanNodes::SNFloatSign { child: Box::new(SNFloatNodes::X) }.compute(c).into_inner());
}

#[test]
fn boolean_algebra() {
    let c = ctx(0, 0);
    for a in [false, true] {
        for b in [false, true] {
            assert_eq!(BooleanNodes::And { child_a: boolean(a), child_b: boolean(b) }.compute(c).into_inner(), a && b);
            assert_eq!(BooleanNodes::Or { child_a: boolean(a), child_b: boolean(b) }.compute(c).into_inner(), a || b);
        }
        assert_eq!(BooleanNodes::Not { child: boolean(a) }.compute(c).into_inner(), !a);
    }
}

#[test]
fn byte_equals_and_color() {
    let c = ctx(0, 0);
    assert!(BooleanNodes::ByteEquals { child_a: byte(9), child_b: byte(9) }.compute(c).into_inner());
    assert!(!BooleanNodes::ByteEquals { child_a: byte(9), child_b: byte(10) }.compute(c).into_inner());
    let red = BitColor { red: true, green: false, blue: false };
    let yellow = BitColor { red: true, green: true, blue: false };
    let blue = BitColor { red: false, green: false, blue: true };
    let has = |a: BitColor, b: BitColor| {
        BooleanNodes::BitColorHas {
            child_a: Box::new(BitColorNodes::Constant { value: a }),
            child_b: Box::new(BitColorNodes::Constant { value: b }),
        }
        .compute(c)
        .into_inner()
    };
    assert!(has(yellow, red));
    assert!(!has(yellow, blue));
    assert!(yellow.has_color(red));
}

#[test]
fn if_else_evaluates_one_branch() {
    let c = ctx(0, 0);
    let t = BooleanNodes::IfElse { predicate: boolean(true), child_a: boolean(true), child_b: boolean(false) };
    assert!(t.compute(c).into_inner());
    let f = BooleanNodes::IfElse { predicate: boolean(false), child_a: boolean(true), child_b: boolean(false) };
    assert!(!f.compute(c).into_inner());
    // The branch not taken would divide by zero; it is never needed.
    let n = NibbleNodes::IfElse {
        predicate: boolean(true),
        child_a: nibble(6),
        child_b: Box::new(NibbleNodes::Divide { child_value: nibble(9), child_divisor: nibble(0) }),
    };
    assert_eq!(n.compute(c).into_inner(), 6);
    let u = UIntNodes::IfElse {
        predicate: boolean(false),
        child_a: Box::new(UIntNodes::Constant { value: UInt::new(1) }),
        child_b: Box::new(UIntNodes::Constant { value: UInt::new(2) }),
    };
    assert_eq!(u.compute(c).into_inner(), 2);
}

#[test]
fn from_booleans_packs_bits() {
    let n = NibbleNodes::FromBooleans { a: boolean(true), b: boolean(false), c: boolean(true), d: boolean(false) };
    assert_eq!(n.compute(ctx(0, 0)).into_inner(), 5);
    let all = NibbleNodes::FromBooleans { a: boolean(true), b: boolean(true), c: boolean(true), d: boolean(true) };
    assert_eq!(all.compute(ctx(0, 0)).into_inner(), 15);
}

#[test]
fn nibble_nodes_compute() {
    let c = ctx(0, 0xAB);
    assert_eq!(NibbleNodes::Add { child_a: nibble(9), child_b: nibble(9) }.compute(c).into_inner(), 2);
    assert_eq!(NibbleNodes::Multiply { child_a: nibble(3), child_b: nibble(7) }.compute(c).into_inner(), 5);
    assert_eq!(NibbleNodes::Modulus { child_value: nibble(14), child_divisor: nibble(4) }.compute(c).into_inner(), 2);
    assert_eq!(NibbleNodes::FromByteModulo { child: byte(0xAB) }.compute(c).into_inner(), 0xB);
    assert_eq!(NibbleNodes::FromByteDivide { child: byte(0xAB) }.compute(c).into_inner(), 0xA);
    assert_eq!(NibbleNodes::FromGametic.compute(c).into_inner(), 0xB);
}

#[test]
fn byte_nodes_compute() {
    let c = ctx(0, 77);
    assert_eq!(ByteNodes::Add { child_a: byte(250), child_b: byte(10) }.compute(c).into_inner(), 4);
    assert_eq!(ByteNodes::Multiply { child_a: byte(20), child_b: byte(20) }.compute(c).into_inner(), 144);
    assert_eq!(ByteNodes::MultiplyNibbles { child_a: nibble(15), child_b: nibble(15) }.compute(c).into_inner(), 225);
    assert_eq!(ByteNodes::Divide { child_value: byte(9), child_divisor: byte(0) }.compute(c).into_inner(), 0);
    assert_eq!(ByteNodes::Modulus { child_value: byte(9), child_divisor: byte(4) }.compute(c).into_inner(), 1);
    assert_eq!(ByteNodes::FromGametic.compute(c).into_inner(), 77);
    let iter = ByteNodes::FromIterativeResult {
        child: Box::new(IterativeFunctionNodes::Constant { value: IterativeResult { iter_final: Byte::new(31) } }),
    };
    assert_eq!(iter.compute(c).into_inner(), 31);
}

#[test]
fn int_nodes_compute() {
    let c = ctx(123_456, 0);
    assert_eq!(UIntNodes::FromGametic.compute(c).into_inner(), 123_456);
    let u = UIntNodes::Multiply {
        child_a: Box::new(UIntNodes::Constant { value: UInt::new(0x8000_0000) }),
        child_b: Box::new(UIntNodes::Constant { value: UInt::new(3) }),
    };
    assert_eq!(u.compute(c).into_inner(), 0x8000_0000);
    let s = SIntNodes::Divide {
        child_value: Box::new(SIntNodes::Constant { value: SInt::new(-9) }),
        child_divisor: Box::new(SIntNodes::Constant { value: SInt::new(2) }),
    };
    assert_eq!(s.compute(c).into_inner(), -4);
    let m = SIntNodes::Modulus {
        child_value: Box::new(SIntNodes::Constant { value: SInt::new(-9) }),
        child_divisor: Box::new(SIntNodes::Constant { value: SInt::new(0) }),
    };
    assert_eq!(m.compute(c).into_inner(), 0);
}

#[test]
fn modify_state_rebinds_coordinates() {
    let moved = CoordinateSet { x: SNFloat { key: 5 }, y: SNFloat { key: 0 }, t: 0, byte_t: Byte::new(0) };
    let t = BooleanNodes::ModifyState {
        child: Box::new(BooleanNodes::SNFloatSign { child: Box::new(SNFloatNodes::X) }),
        child_state: Box::new(CoordMapNodes::Replace { value: moved }),
    };
    assert!(t.compute(ctx(0, 0)).into_inner());
    let same = BooleanNodes::ModifyState {
        child: Box::new(BooleanNodes::SNFloatSign { child: Box::new(SNFloatNodes::X) }),
        child_state: Box::new(CoordMapNodes::Identity),
    };
    assert!(!same.compute(ctx(0, 0)).into_inner());
    let c = ctx(0, 0);
    assert_eq!(c.with_coordinate_set(moved).coordinate_set, moved);
}

#[test]
fn generation_without_budget_gives_leaves() {
    let mut rng = StdRng::seed_from_u64(1);
    let none = GenArg { depth: 0 };
    for _ in 0..200 {
        assert!(matches!(BooleanNodes::generate(&mut rng, none), BooleanNodes::Constant { .. }));
        assert!(matches!(NibbleNodes::generate(&mut rng, none), NibbleNodes::Constant { .. } | NibbleNodes::FromGametic));
        assert!(matches!(ByteNodes::generate(&mut rng, none), ByteNodes::Constant { .. } | ByteNodes::FromGametic));
        assert!(matches!(UIntNodes::generate(&mut rng, none), UIntNodes::Constant { .. } | UIntNodes::FromGametic));
        assert!(matches!(SIntNodes::generate(&mut rng, none), SIntNodes::Constant { .. }));
    }
}

#[test]
fn generation_is_reproducible_and_computable() {
    let arg = GenArg { depth: 6 };
    let mut a = StdRng::seed_from_u64(42);
    let mut b = StdRng::seed_from_u64(42);
    for _ in 0..20 {
        let x = NibbleNodes::generate(&mut a, arg);
        let y = NibbleNodes::generate(&mut b, arg);
        assert_eq!(format!("{:?}", x), format!("{:?}", y));
        assert!(x.compute(ctx(3, 200)).into_inner() < 16);
        assert_eq!(x.compute(ctx(3, 200)), y.compute(ctx(3, 200)));
        let s = SIntNodes::generate(&mut a, arg);
        let _ = s.compute(ctx(3, 200));
        let _ = SIntNodes::generate(&mut b, arg);
    }
}

#[test]
fn generation_grows_with_budget() {
    let mut rng = StdRng::seed_from_u64(3);
    let mut branched = false;
    for _ in 0..50 {
        if !matches!(BooleanNodes::generate(&mut rng, GenArg { depth: 5 }), BooleanNodes::Constant { .. }) {
            branched = true;
        }
    }
    assert!(branched);
}

#[test]
fn mutation_without_chance_keeps_tree() {
    let mut rng = StdRng::seed_from_u64(9);
    for _ in 0..20 {
        let mut t = ByteNodes::generate(&mut rng, GenArg { depth: 5 });
        let before = format!("{:?}", t);
        t.mutate(&mut rng, MutArg { reroll_chance: 0, depth: 5 });
        assert_eq!(format!("{:?}", t), before);
    }
}

#[test]
fn mutation_with_certainty_rerolls_root() {
    let mut rng = StdRng::seed_from_u64(10);
    let mut t = BooleanNodes::And { child_a: boolean(true), child_b: boolean(true) };
    t.mutate(&mut rng, MutArg { reroll_chance: REROLL_SCALE, depth: 0 });
    assert!(matches!(t, BooleanNodes::Constant { .. }));
    let mut n = NibbleNodes::generate(&mut rng, GenArg { depth: 4 });
    n.mutate(&mut rng, MutArg { reroll_chance: REROLL_SCALE, depth: 4 });
    assert!(n.compute(ctx(1, 1)).into_inner() < 16);
}

#[test]
fn weights_follow_budget() {
    assert_eq!(leaf_node_weight(GenArg { depth: 0 }), 2);
    assert_eq!(branch_node_weight(GenArg { depth: 0 }), 0);
    assert_eq!(pipe_node_weight(GenArg { depth: 0 }), 0);
    assert_eq!(branch_node_weight(GenArg { depth: 3 }), 3);
    assert_eq!(branch_node_weight(GenArg { depth: 30 }), 4);
    assert_eq!(pipe_node_weight(GenArg { depth: 30 }), 2);
    assert_eq!(BooleanNodes::variant_classes()[11], NodeClass::Leaf);
}

#[test]
fn weighted_choice_skips_zero_weights() {
    let mut rng = StdRng::seed_from_u64(2);
    let weights = vec![0, 3, 0, 1, 0];
    let mut seen = [0u32; 5];
    for _ in 0..400 {
        seen[choose_weighted(&mut rng, &weights)] += 1;
    }
    assert_eq!(seen[0] + seen[2] + seen[4], 0);
    assert!(seen[1] > seen[3] && seen[3] > 0);
}

#[test]
fn depth_ceiling_check() {
    let leaf = NibbleNodes::Constant { value: Nibble::new(1) };
    assert!(leaf.within_depth(0));
    let two = NibbleNodes::Add {
        child_a: Box::new(NibbleNodes::Multiply { child_a: nibble(2), child_b: nibble(3) }),
        child_b: nibble(4),
    };
    assert!(!two.within_depth(1));
    assert!(two.within_depth(2));
    let cmp = BooleanNodes::UNFloatLess { child_a: un(1), child_b: un(2) };
    assert!(!cmp.within_depth(0));
    assert!(cmp.within_depth(1));
    let mut rng = StdRng::seed_from_u64(4);
    for depth in 0..6 {
        let t = ByteNodes::generate(&mut rng, GenArg { depth });
        assert!(t.within_depth(depth));
    }
}

#[test]
fn update_keeps_tree() {
    let mut rng = StdRng::seed_from_u64(8);
    let mut t = BooleanNodes::generate(&mut rng, GenArg { depth: 5 });
    let before = format!("{:?}", t);
    t.update_recursively(ctx(1, 2));
    assert_eq!(format!("{:?}", t), before);
}

#[test]
fn untaken_branch_may_be_invalid() {
    let bad = Box::new(NibbleNodes::Constant { value: Nibble { value: 200 } });
    assert!(!bad.is_valid());
    let n = NibbleNodes::IfElse { predicate: boolean(false), child_a: bad, child_b: nibble(7) };
    assert!(!n.is_valid());
    assert_eq!(n.compute(ctx(0, 0)).into_inner(), 7);
    let bad_byte = Box::new(ByteNodes::MultiplyNibbles {
        child_a: Box::new(NibbleNodes::Constant { value: Nibble { value: 99 } }),
        child_b: nibble(1),
    });
    let b = ByteNodes::IfElse { predicate: boolean(true), child_a: byte(42), child_b: bad_byte };
    assert_eq!(b.compute(ctx(0, 0)).into_inner(), 42);
}

#[test]
fn validity_check() {
    assert!(NibbleNodes::Add { child_a: nibble(15), child_b: nibble(0) }.is_valid());
    let deep_bad = BooleanNodes::Not {
        child: Box::new(BooleanNodes::ByteEquals {
            child_a: Box::new(ByteNodes::MultiplyNibbles {
                child_a: Box::new(NibbleNodes::Constant { value: Nibble { value: 16 } }),
                child_b: nibble(1),
            }),
            child_b: byte(0),
        }),
    };
    assert!(!deep_bad.is_valid());
    let mut rng = StdRng::seed_from_u64(12);
    for _ in 0..20 {
        assert!(UIntNodes::generate(&mut rng, GenArg { depth: 5 }).is_valid());
    }
}

#[test]
fn generate_variant_builds_the_picked_variant() {
    let mut rng = StdRng::seed_from_u64(13);
    let arg = GenArg { depth: 3 };
    assert!(matches!(NibbleNodes::generate_variant(&mut rng, arg, 5), NibbleNodes::FromBooleans { .. }));
    assert!(matches!(BooleanNodes::generate_variant(&mut rng, arg, 14), BooleanNodes::ByteEquals { .. }));
    assert!(matches!(ByteNodes::generate_variant(&mut rng, GenArg { depth: 0 }, 7), ByteNodes::FromGametic));
    assert!(matches!(UIntNodes::generate_variant(&mut rng, arg, 6), UIntNodes::IfElse { .. }));
    assert!(matches!(SIntNodes::generate_variant(&mut rng, arg, 3), SIntNodes::Divide { .. }));
}

#[test]
fn pick_by_weight_follows_running_totals() {
    let weights = vec![0, 3, 0, 1, 2];
    let expected = [1, 1, 1, 3, 4, 4];
    for x in 0..6u32 {
        assert_eq!(pick_by_weight(&weights, x), expected[x as usize]);
    }
}

#[test]
fn kept_node_passes_its_children_on() {
    let mut rng = StdRng::seed_from_u64(14);
    let t = NibbleNodes::Add { child_a: nibble(3), child_b: nibble(4) };
    let kept = t.mutated_given(false, &mut rng, MutArg { reroll_chance: 0, depth: 3 });
    assert_eq!(format!("{:?}", kept), format!("{:?}", NibbleNodes::Add { child_a: nibble(3), child_b: nibble(4) }));
    let u = NibbleNodes::Add { child_a: nibble(3), child_b: nibble(4) };
    let children_rerolled = u.mutated_given(false, &mut rng, MutArg { reroll_chance: REROLL_SCALE, depth: 1 });
    match children_rerolled {
        NibbleNodes::Add { child_a, child_b } => {
            assert!(matches!(*child_a, NibbleNodes::Constant { .. } | NibbleNodes::FromGametic));
            assert!(matches!(*child_b, NibbleNodes::Constant { .. } | NibbleNodes::FromGametic));
        }
        _ => panic!("the root variant must be kept"),
    }
    let leaf = SIntNodes::Constant { value: SInt::new(-8) };
    let same = leaf.mutated_given(false, &mut rng, MutArg { reroll_chance: 500, depth: 2 });
    assert!(matches!(same, SIntNodes::Constant { value } if value == SInt::new(-8)));
    let fresh = SIntNodes::Constant { value: SInt::new(-8) }.mutated_given(true, &mut rng, MutArg { reroll_chance: 500, depth: 0 });
    assert!(matches!(fresh, SIntNodes::Constant { .. }));
}
