use raytrace::{
    join_outcome, nearest_hit, order_key, pixel_index, row_owner, row_seed, sphere_root,
    trace_events, worker_rows, Face, PathState, Root, SubprocessError, Surface, Terminal,
};

fn key(t: f32) -> i64 {
    order_key(t.to_bits())
}

#[test]
fn rows_are_interleaved_among_workers() {
    assert_eq!(worker_rows(10, 4, 0), vec![0, 4, 8]);
    assert_eq!(worker_rows(10, 4, 1), vec![1, 5, 9]);
    assert_eq!(worker_rows(10, 4, 2), vec![2, 6]);
    assert_eq!(worker_rows(10, 4, 3), vec![3, 7]);
}

#[test]
fn every_row_has_exactly_one_worker() {
    let height = 37;
    for n in 1..6usize {
        let mut seen = vec![0usize; height];
        for w in 0..n {
            for y in worker_rows(height, n, w) {
                assert_eq!(row_owner(y, n), w);
                seen[y] += 1;
            }
        }
        assert!(seen.iter().all(|&c| c == 1));
    }
}

#[test]
fn single_worker_owns_all_rows() {
    assert_eq!(worker_rows(5, 1, 0), vec![0, 1, 2, 3, 4]);
    assert_eq!(worker_rows(0, 3, 2), Vec::<usize>::new());
}

#[test]
fn row_seeds_do_not_depend_on_worker_count() {
    assert_eq!(row_seed(100, 7), 107);
    assert_eq!(row_seed(u64::MAX, 2), 1);
    assert_ne!(row_seed(5, 1), row_seed(5, 2));
}

#[test]
fn pixel_index_is_row_major() {
    assert_eq!(pixel_index(4, 3, 0, 0), Some(0));
    assert_eq!(pixel_index(4, 3, 3, 0), Some(3));
    assert_eq!(pixel_index(4, 3, 1, 2), Some(9));
    assert_eq!(pixel_index(4, 3, 4, 0), None);
    assert_eq!(pixel_index(4, 3, 0, 3), None);
    assert_eq!(pixel_index(0, 0, 0, 0), None);
}

#[test]
fn cap_reached_is_black() {
    assert_eq!(trace_events(&vec![Surface::Missed], 0), Some((0, Terminal::Black)));
    let p = PathState::new(0);
    assert!(!p.needs_query());
    assert_eq!(p.outcome(), Some(Terminal::Black));
}

#[test]
fn depth_cap_one_center_and_border() {
    // One Lambertian sphere, cap 1: the center ray scatters once and stops black;
    // a border ray misses and takes the sky.
    assert_eq!(trace_events(&vec![Surface::Scattered], 1), Some((1, Terminal::Black)));
    assert_eq!(trace_events(&vec![Surface::Missed], 1), Some((0, Terminal::Sky)));
}

#[test]
fn never_more_bounces_than_the_cap() {
    let events = vec![Surface::Scattered; 80];
    assert_eq!(trace_events(&events, 50), Some((50, Terminal::Black)));
    let mut p = PathState::new(50);
    let mut n = 0;
    while p.needs_query() {
        p.record(Surface::Scattered);
        n += 1;
    }
    assert_eq!(n, 50);
    assert_eq!(p.depth(), 50);
    assert_eq!(p.outcome(), Some(Terminal::Black));
}

#[test]
fn absorbed_and_missed_paths() {
    let events = vec![Surface::Scattered, Surface::Scattered, Surface::Missed];
    assert_eq!(trace_events(&events, 50), Some((2, Terminal::Sky)));
    let events = vec![Surface::Scattered, Surface::Absorbed, Surface::Missed];
    assert_eq!(trace_events(&events, 50), Some((1, Terminal::Black)));
    let events = vec![Surface::Scattered, Surface::Scattered];
    assert_eq!(trace_events(&events, 50), None);
    assert_eq!(trace_events(&vec![], 3), None);
}

#[test]
fn order_keys_follow_float_order() {
    let values = [
        f32::NEG_INFINITY, -1.0e30, -2.5, -1.0, -1.0e-30, -0.0, 0.0, 1.0e-30, 0.001, 1.0, 2.5,
        1.0e30, f32::MAX, f32::INFINITY,
    ];
    for a in values.iter() {
        for b in values.iter() {
            assert_eq!(a < b, key(*a) < key(*b));
            assert_eq!(a == b, key(*a) == key(*b));
        }
    }
    assert_eq!(key(0.0), 0);
    assert_eq!(key(-0.0), 0);
    assert_eq!(key(1.0), 0x3f80_0000);
    assert_eq!(key(-1.0), -0x3f80_0000);
}

#[test]
fn nearest_hit_uses_signed_parameter() {
    assert_eq!(nearest_hit(&vec![]), None);
    assert_eq!(nearest_hit(&vec![None, None]), None);
    let ts = vec![Some(key(3.0)), None, Some(key(0.5)), Some(key(2.0))];
    assert_eq!(nearest_hit(&ts), Some(2));
    // Signed, not absolute: -4 is below 1.
    let ts = vec![Some(key(1.0)), Some(key(-4.0))];
    assert_eq!(nearest_hit(&ts), Some(1));
}

#[test]
fn nearest_hit_tie_keeps_first() {
    let ts = vec![None, Some(key(2.0)), Some(key(2.0)), Some(key(5.0))];
    assert_eq!(nearest_hit(&ts), Some(1));
}

#[test]
fn sphere_root_choice() {
    let (lo, hi) = (key(0.001), key(f32::MAX));
    assert_eq!(sphere_root(key(1.0), lo, hi, key(0.5), key(1.5)), Some(Root::Near));
    assert_eq!(sphere_root(key(1.0), lo, hi, key(-0.5), key(1.5)), Some(Root::Far));
    assert_eq!(sphere_root(key(1.0), lo, hi, key(-1.5), key(-0.5)), None);
    // Tangency and a negative discriminant are misses.
    assert_eq!(sphere_root(key(0.0), lo, hi, key(1.0), key(1.0)), None);
    assert_eq!(sphere_root(key(-0.0), lo, hi, key(1.0), key(1.0)), None);
    assert_eq!(sphere_root(key(-3.0), lo, hi, key(1.0), key(2.0)), None);
    // The interval is closed.
    assert_eq!(sphere_root(key(1.0), key(1.0), key(2.0), key(1.0), key(2.0)), Some(Root::Near));
    assert_eq!(sphere_root(key(1.0), key(1.0), key(2.0), key(0.5), key(2.0)), Some(Root::Far));
}

#[test]
fn face_from_alignment() {
    assert_eq!(Face::of_alignment(key(-0.3)), Face::Front);
    assert_eq!(Face::of_alignment(key(0.3)), Face::Back);
    assert_eq!(Face::of_alignment(key(0.0)), Face::Back);
    assert!(!Face::Front.flips_normal());
    assert!(Face::Back.flips_normal());
}

#[test]
fn join_outcome_reports_all_failures() {
    assert!(join_outcome(&vec![true, true, true, true]).is_ok());
    assert!(join_outcome(&vec![]).is_ok());
    match join_outcome(&vec![true, false, true, false]) {
        Err(e) => assert_eq!(e.failed, vec![1, 3]),
        Ok(()) => panic!("two workers failed"),
    }
}

#[test]
fn subprocess_error_keeps_cause() {
    let e = SubprocessError::new(String::from("viewer not found"));
    assert_eq!(e.cause(), "viewer not found");
}

#[test]
fn negative_radius_flips_face_not_stored_normal() {
    // Geometric normal n for radius 0.5 and -n for radius -0.5 at the same center.
    let dot_with_n: f32 = -0.8;
    let outer = Face::of_alignment(key(dot_with_n));
    let inner = Face::of_alignment(key(-dot_with_n));
    assert_eq!(outer, Face::Front);
    assert_eq!(inner, Face::Back);
    let stored = |face: Face, d: f32| if face.flips_normal() { -d } else { d };
    assert_eq!(stored(outer, dot_with_n), stored(inner, -dot_with_n));
    assert!(stored(outer, dot_with_n) < 0.0);
    assert_eq!(order_key((-2.5f32).to_bits()), -order_key(2.5f32.to_bits()));
}

#[test]
fn worker_beyond_count_owns_nothing() {
    assert_eq!(worker_rows(10, 4, 4), Vec::<usize>::new());
}
