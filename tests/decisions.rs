use ray_tracing::material::{dielectric_direction, diffuse_direction, metal_direction, Direction};
use ray_tracing::scan::{pixel_at, scan_order, Pixel};
use ray_tracing::sphere::{choose_root, Root};
use ray_tracing::trace::{advance, begin, Event, Step};
use ray_tracing::world::{nearest_hit, World};

#[test]
fn scan_starts_at_top_left_and_ends_bottom_right() {
    let v = scan_order(3, 2);
    assert_eq!(v.len(), 6);
    assert_eq!(v[0], Pixel { row: 1, col: 0 });
    assert_eq!(v[2], Pixel { row: 1, col: 2 });
    assert_eq!(v[3], Pixel { row: 0, col: 0 });
    assert_eq!(v[5], Pixel { row: 0, col: 2 });
}

#[test]
fn scan_of_two_by_two() {
    let v = scan_order(2, 2);
    assert_eq!(
        v,
        vec![
            Pixel { row: 1, col: 0 },
            Pixel { row: 1, col: 1 },
            Pixel { row: 0, col: 0 },
            Pixel { row: 0, col: 1 },
        ]
    );
}

#[test]
fn scan_of_empty_image() {
    assert!(scan_order(0, 5).is_empty());
    assert!(scan_order(5, 0).is_empty());
}

#[test]
fn pixel_at_middle_of_image() {
    assert_eq!(pixel_at(5, 4, 3), Pixel { row: 1, col: 1 });
    assert_eq!(pixel_at(11, 4, 3), Pixel { row: 0, col: 3 });
}

#[test]
fn nearest_hit_takes_smallest_distance() {
    let hits = vec![Some(5), None, Some(2), Some(9)];
    assert_eq!(nearest_hit(&hits), Some(2));
}

#[test]
fn nearest_hit_prefers_later_surface_on_tie() {
    let hits = vec![Some(5), None, Some(3), Some(3), Some(4)];
    assert_eq!(nearest_hit(&hits), Some(3));
}

#[test]
fn nearest_hit_none_when_nothing_hit() {
    assert_eq!(nearest_hit(&vec![None, None, None]), None);
    assert_eq!(nearest_hit(&Vec::new()), None);
}

#[test]
fn nearest_hit_with_float_distance_keys() {
    let ts: Vec<f64> = vec![3.5, 0.75, 1.25];
    let hits: Vec<Option<u64>> = ts.iter().map(|t| Some(t.to_bits())).collect();
    assert_eq!(nearest_hit(&hits), Some(1));
}

#[test]
fn world_keeps_insertion_order() {
    let mut w: World<u32> = World::new();
    assert_eq!(w.len(), 0);
    w.add(7);
    w.add(3);
    w.add(7);
    assert_eq!(w.len(), 3);
    assert_eq!(*w.get(0), 7);
    assert_eq!(*w.get(1), 3);
    assert_eq!(*w.get(2), 7);
}

#[test]
fn root_choice_cases() {
    assert_eq!(choose_root(true, true, true), None);
    assert_eq!(choose_root(false, true, true), Some(Root::Near));
    assert_eq!(choose_root(false, true, false), Some(Root::Near));
    assert_eq!(choose_root(false, false, true), Some(Root::Far));
}

#[test]
fn both_roots_out_of_range_is_a_miss() {
    assert_eq!(choose_root(false, false, false), None);
    assert_eq!(choose_root(true, false, false), None);
}

#[test]
fn diffuse_falls_back_to_normal() {
    assert_eq!(diffuse_direction(true), Direction::Normal);
    assert_eq!(diffuse_direction(false), Direction::Jittered);
}

#[test]
fn metal_absorbs_rays_into_surface() {
    assert_eq!(metal_direction(true), Some(Direction::Reflected));
    assert_eq!(metal_direction(false), None);
}

#[test]
fn dielectric_reflects_or_refracts() {
    assert_eq!(dielectric_direction(true, false), Direction::Reflected);
    assert_eq!(dielectric_direction(false, true), Direction::Reflected);
    assert_eq!(dielectric_direction(true, true), Direction::Reflected);
    assert_eq!(dielectric_direction(false, false), Direction::Refracted);
}

#[test]
fn path_with_no_budget_is_black() {
    assert_eq!(begin(0), Step::Black);
    assert_eq!(begin(-3), Step::Black);
    assert_eq!(begin(50), Step::Trace(50));
}

#[test]
fn depth_one_hit_ends_black_and_miss_ends_on_background() {
    let s = begin(1);
    assert_eq!(s, Step::Trace(1));
    assert_eq!(advance(1, Event::Scattered), Step::Black);
    assert_eq!(advance(1, Event::Miss), Step::Background);
    assert_eq!(advance(1, Event::Absorbed), Step::Black);
}

#[test]
fn path_bounces_until_budget_spent() {
    let mut s = begin(3);
    let mut bounces = 0;
    while let Step::Trace(d) = s {
        s = advance(d, Event::Scattered);
        bounces += 1;
    }
    assert_eq!(bounces, 3);
    assert_eq!(s, Step::Black);
    assert_eq!(advance(3, Event::Scattered), Step::Trace(2));
}
