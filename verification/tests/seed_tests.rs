use breakout_rules::board::BrickCell;
use breakout_rules::tear::seed_for;
use breakout_rules::util::{mix_seeds, pixel_span, SeededRng};

#[test]
fn seed_for_is_deterministic_per_cell_and_edge() {
    let cell = BrickCell { row: 2, col: 9 };
    assert_eq!(seed_for(cell, 0), seed_for(cell, 0));
    assert_ne!(seed_for(cell, 0), seed_for(cell, 1), "a different edge gives a different seed");
    assert_ne!(
        seed_for(cell, 0),
        seed_for(BrickCell { row: 9, col: 2 }, 0),
        "a different cell gives a different seed"
    );
}

#[test]
fn seeds_have_exact_values() {
    assert_eq!(mix_seeds(0, 0, 0), 0x9E3779B9);
    assert_eq!(mix_seeds(1, 2, 3), 2532504575);
    assert_eq!(seed_for(BrickCell { row: 2, col: 9 }, 0), 2627458196);
    assert_eq!(seed_for(BrickCell { row: 2, col: 9 }, 1), 2556570403);
    assert_eq!(seed_for(BrickCell { row: 9, col: 2 }, 0), 3152506818);
    assert_eq!(seed_for(BrickCell { row: -1, col: 0 }, 0), 1705931290);
}

#[test]
fn seeds_separate_rows_columns_and_edges() {
    for row in -3..4 {
        for col in -3..4 {
            for edge in 0..4u32 {
                let s = seed_for(BrickCell { row, col }, edge);
                assert_ne!(s, seed_for(BrickCell { row: row + 1, col }, edge));
                assert_ne!(s, seed_for(BrickCell { row, col: col + 1 }, edge));
                assert_ne!(s, seed_for(BrickCell { row, col }, edge + 1));
            }
        }
    }
}

#[test]
fn the_generator_follows_xorshift32() {
    let mut rng = SeededRng::new(1);
    assert_eq!(rng.next_u32(), 270369);
    assert_eq!(rng.next_u32(), 67634689);
    assert_eq!(rng.next_unit_bits(), 2647435461 >> 8);
}

#[test]
fn a_zero_seed_does_not_degenerate() {
    let mut zero = SeededRng::new(0);
    let mut one = SeededRng::new(1);
    for _ in 0..100 {
        let a = zero.next_u32();
        assert_ne!(a, 0);
        assert_eq!(a, one.next_u32());
    }
}

#[test]
fn same_seed_same_stream() {
    let mut a = SeededRng::new(0xDEADBEEF);
    let mut b = SeededRng::new(0xDEADBEEF);
    for _ in 0..50 {
        assert_eq!(a.next_u32(), b.next_u32());
        let u = a.next_unit_bits();
        assert!(u < 1 << 24);
        assert_eq!(u, b.next_unit_bits());
    }
}

#[test]
fn pixel_spans_are_clamped_to_the_image() {
    assert_eq!(pixel_span(2, 5, 10), (2, 5));
    assert_eq!(pixel_span(8, 20, 10), (8, 10));
    assert_eq!(pixel_span(12, 20, 10), (10, 10));
    assert_eq!(pixel_span(6, 3, 10), (6, 6));
    assert_eq!(pixel_span(0, 0, 0), (0, 0));
}
