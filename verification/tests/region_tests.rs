use bevy_terminal_emu::effects::{simple_hash, EffectRegion, GridRect};

#[test]
fn test_grid_rect_contains() {
    let rect = GridRect { col: 5, row: 10, width: 3, height: 2 };
    assert!(rect.contains(5, 10));
    assert!(rect.contains(7, 11));
    assert!(!rect.contains(8, 10));
    assert!(!rect.contains(5, 12));
    assert!(!rect.contains(4, 10));
}

#[test]
fn test_effect_region_include_exclude() {
    let region = EffectRegion {
        included: vec![GridRect { col: 0, row: 0, width: 10, height: 10 }],
        excluded: vec![GridRect { col: 3, row: 3, width: 2, height: 2 }],
    };

    assert!(region.contains(0, 0));
    assert!(region.contains(9, 9));
    assert!(!region.contains(3, 3)); // excluded
    assert!(!region.contains(4, 4)); // excluded
    assert!(region.contains(5, 5));
    assert!(!region.contains(10, 10)); // outside the included rectangle
}

#[test]
fn test_effect_region_empty_include() {
    let region = EffectRegion::all();
    assert!(region.contains(0, 0));
    assert!(region.contains(100, 100));
}

#[test]
fn region_containment_of_the_documented_example() {
    let region = EffectRegion {
        included: vec![GridRect { col: 0, row: 0, width: 10, height: 10 }],
        excluded: vec![GridRect { col: 3, row: 3, width: 2, height: 2 }],
    };
    assert!(!region.contains(3, 3));
    assert!(region.contains(9, 9));
    assert!(!region.contains(10, 10));
}

#[test]
fn exclusion_wins_over_the_empty_included_list() {
    let region = EffectRegion {
        included: vec![],
        excluded: vec![GridRect { col: 1, row: 1, width: 1, height: 1 }],
    };
    assert!(region.contains(0, 0));
    assert!(!region.contains(1, 1));
    assert!(region.contains(65535, 65535));
}

#[test]
fn union_of_included_rectangles() {
    let region = EffectRegion {
        included: vec![
            GridRect { col: 0, row: 0, width: 2, height: 2 },
            GridRect { col: 5, row: 5, width: 1, height: 1 },
        ],
        excluded: vec![],
    };
    assert!(region.contains(1, 1));
    assert!(region.contains(5, 5));
    assert!(!region.contains(3, 3));
}

#[test]
fn zero_area_rectangles_contain_nothing() {
    let flat = GridRect { col: 2, row: 2, width: 0, height: 5 };
    assert!(!flat.contains(2, 2));
    let region = EffectRegion { included: vec![flat], excluded: vec![] };
    assert!(!region.contains(2, 2));
    assert!(!region.contains(0, 0));
}

#[test]
fn rectangle_at_the_far_edge_does_not_wrap() {
    let rect = GridRect { col: 65530, row: 65530, width: 100, height: 100 };
    assert!(rect.contains(65535, 65535));
    assert!(rect.contains(65530, 65530));
    assert!(!rect.contains(0, 0));
    assert!(!rect.contains(93, 93));
}

#[test]
fn full_screen_covers_exactly_the_screen() {
    let region = EffectRegion::full_screen(80, 24);
    assert_eq!(region.included, vec![GridRect { col: 0, row: 0, width: 80, height: 24 }]);
    assert!(region.excluded.is_empty());
    assert!(region.contains(0, 0));
    assert!(region.contains(79, 23));
    assert!(!region.contains(80, 0));
    assert!(!region.contains(0, 24));
}

#[test]
fn regions_compare_by_content() {
    let a = EffectRegion::full_screen(80, 24);
    let b = EffectRegion {
        included: vec![GridRect { col: 0, row: 0, width: 80, height: 24 }],
        excluded: vec![],
    };
    let c = EffectRegion::full_screen(80, 25);
    assert!(a.same_as(&b));
    assert!(b.same_as(&a));
    assert!(!a.same_as(&c));
    assert!(!a.same_as(&EffectRegion::all()));
    assert!(a.clone().same_as(&a));
}

#[test]
fn simple_hash_known_values() {
    assert_eq!(simple_hash(0, 0), 0);
    assert_eq!(simple_hash(1, 0), 544027445);
    assert_eq!(simple_hash(0, 1), 3227180694);
    assert_eq!(simple_hash(1, 2), 2477352897);
    assert_eq!(simple_hash(12345, 67890), 176453342);
    assert_eq!(simple_hash(u32::MAX, u32::MAX), 744721273);
    assert_eq!(simple_hash(10, 3), 3487355010);
    assert_eq!(simple_hash(7, 42), 2204579881);
}

#[test]
fn simple_hash_is_a_function_of_its_inputs() {
    for a in 0..50u32 {
        for b in 0..50u32 {
            assert_eq!(simple_hash(a, b), simple_hash(a, b));
        }
    }
    assert_ne!(simple_hash(1, 2), simple_hash(2, 1));
}
