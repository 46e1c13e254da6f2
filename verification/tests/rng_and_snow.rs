use minecrust::rng::{i32_bits, SeededRng};
use minecrust::snow::{SnowLayer, MAX_SNOW_LAYERS};

#[test]
fn column_seed_formula() {
    assert_eq!(SeededRng::new(1, 2).seed, 1711291919);
    assert_eq!(SeededRng::new(0, 0).seed, 0);
    assert_eq!(SeededRng::new(-1, 0).seed, 3920205903);
}

#[test]
fn block_seed_formula() {
    assert_eq!(SeededRng::new_with_y(1, 1, 1).seed, 1758854539);
    assert_eq!(SeededRng::new_with_y(3, 0, 5).seed, SeededRng::new(3, 5).seed);
}

#[test]
fn congruential_step() {
    assert_eq!(SeededRng::from_seed(0).next_u32(), 1013904223);
    assert_eq!(SeededRng::from_seed(42).next_u32(), 1083814273);
    let r = SeededRng::from_seed(42);
    assert_eq!(r.next_u32(), r.next_u32());
}

#[test]
fn bounded_draws() {
    let r = SeededRng::from_seed(0);
    assert_eq!(r.next_mod(100), 23);
    assert_eq!(r.next_range(10), 3);
    assert_eq!(r.next_range_between(5, 15), 8);
    assert_eq!(SeededRng::from_seed(100).next_mod(7), 0);
    for seed in [0u32, 1, 99, 123456789, u32::MAX] {
        let v = SeededRng::from_seed(seed).next_range_between(-20, 20);
        assert!((-20..20).contains(&v));
    }
}

#[test]
fn variants_and_plant_selectors() {
    assert_eq!(SeededRng::from_seed(42).variant(7).seed, 49);
    assert_eq!(SeededRng::from_seed(u32::MAX).variant(2).seed, 1);
    assert_eq!(SeededRng::from_seed(1).plant_type_seed(), 19);
    assert_eq!(SeededRng::from_seed(5).plant_type_seed(), 95);
    assert_eq!(i32_bits(-1), u32::MAX);
}

#[test]
fn snow_layers_are_clamped() {
    assert_eq!(SnowLayer::new(0).layers, 1);
    assert_eq!(SnowLayer::new(5).layers, 5);
    assert_eq!(SnowLayer::new(200).layers, MAX_SNOW_LAYERS);
    assert_eq!(SnowLayer::default().layers, 1);
}

#[test]
fn snow_layers_fill_up_to_a_block() {
    let s = SnowLayer::new(7);
    assert!(s.can_add_layer());
    let full = s.add_layer().unwrap();
    assert_eq!(full.layers, 8);
    assert!(!full.can_add_layer());
    assert!(full.add_layer().is_none());
    assert_eq!(SnowLayer::new(3).add_layers(2).layers, 5);
    assert_eq!(SnowLayer::new(3).add_layers(20).layers, 8);
}

#[test]
fn adding_many_layers_stops_at_a_block() {
    assert_eq!(SnowLayer::new(8).add_layers(250).layers, 8);
    assert_eq!(SnowLayer::new(1).add_layers(255).layers, 8);
    assert_eq!(SnowLayer::new(1).add_layers(0).layers, 1);
}
