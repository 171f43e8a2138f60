use knot::magnitude::Magnitude;
use knot::perturb::{propose, Perturbation, Rotation, Window, DAMPED_ANGLE, FULL_ANGLE, TWO_WEIGHT_BITS};

fn unit_draw(x: f64) -> Magnitude {
    Magnitude::from_bits(x.to_bits()).unwrap()
}

#[test]
fn window_sizes_are_two_and_three() {
    assert_eq!(Window::Pair.len(), 2);
    assert_eq!(Window::Triple.len(), 3);
    assert_eq!(FULL_ANGLE, 2);
    assert_eq!(DAMPED_ANGLE, 1);
    assert_eq!(TWO_WEIGHT_BITS, 0.5f64.to_bits());
}

#[test]
fn plan_takes_three_joints_when_the_draw_exceeds_one_half() {
    let p = Perturbation::plan(20, 37, false, unit_draw(0.75));
    assert_eq!(p.window(), Window::Triple);
    assert_eq!(p.start(), 37 % 18);
    assert_eq!(p.start(), 1);
    assert_eq!(p.angle(), -2);
    assert_eq!(
        p.rotations(),
        vec![
            Rotation { joint: 1, angle: -2 },
            Rotation { joint: 2, angle: 4 },
            Rotation { joint: 3, angle: -2 },
        ]
    );
}

#[test]
fn plan_takes_two_joints_when_the_draw_is_at_most_one_half() {
    let p = Perturbation::plan(20, 40, true, unit_draw(0.5));
    assert_eq!(p.window(), Window::Pair);
    assert_eq!(p.start(), 40 % 19);
    assert_eq!(p.start(), 2);
    assert_eq!(p.angle(), 2);
    assert_eq!(p.rotations(), vec![Rotation { joint: 2, angle: 2 }, Rotation { joint: 3, angle: -2 }]);
    let q = Perturbation::plan(20, 40, true, unit_draw(0.0));
    assert_eq!(q.window(), Window::Pair);
    let r = Perturbation::plan(20, 40, true, unit_draw(0.500_000_000_1));
    assert_eq!(r.window(), Window::Triple);
}

#[test]
fn plan_halves_the_angle_at_the_first_joint() {
    let p = Perturbation::plan(20, 36, true, unit_draw(0.9));
    assert_eq!(p.start(), 0);
    assert_eq!(p.angle(), 1);
    assert_eq!(
        p.rotations(),
        vec![
            Rotation { joint: 0, angle: 1 },
            Rotation { joint: 1, angle: -2 },
            Rotation { joint: 2, angle: 1 },
        ]
    );
    let q = Perturbation::plan(20, 38, false, unit_draw(0.1));
    assert_eq!(q.start(), 0);
    assert_eq!(q.angle(), -1);
    assert_eq!(q.rotations(), vec![Rotation { joint: 0, angle: -1 }, Rotation { joint: 1, angle: 1 }]);
    let r = Perturbation::plan(20, 39, false, unit_draw(0.1));
    assert_eq!(r.start(), 1);
    assert_eq!(r.angle(), -2);
}

#[test]
fn offsets_of_every_move_sum_to_zero() {
    for joints in 3..40usize {
        for index_draw in 0..=255u8 {
            for positive in [false, true] {
                for wide in [0.25f64, 0.75] {
                    let p = Perturbation::plan(joints, index_draw, positive, unit_draw(wide));
                    let turns = p.rotations();
                    let sum: i32 = turns.iter().map(|t| t.angle as i32).sum();
                    assert_eq!(sum, 0);
                    assert_eq!(turns.len(), p.window().len());
                    assert_eq!(turns[0].angle, p.angle());
                    if p.window() == Window::Triple {
                        assert_eq!(turns[1].angle, -2 * p.angle());
                        assert_eq!(turns[2].angle, p.angle());
                    } else {
                        assert_eq!(turns[1].angle, -p.angle());
                    }
                }
            }
        }
    }
}

#[test]
fn every_planned_window_lies_within_the_chain() {
    for joints in 3..300usize {
        for index_draw in 0..=255u8 {
            for wide in [0.25f64, 0.75] {
                let p = Perturbation::plan(joints, index_draw, true, unit_draw(wide));
                let places = joints - p.window().len() + 1;
                assert_eq!(p.start(), index_draw as usize % places);
                assert!(p.start() + p.window().len() <= joints);
                let turns = p.rotations();
                for (k, turn) in turns.iter().enumerate() {
                    assert_eq!(turn.joint, p.start() + k);
                }
                assert_eq!(p.angle().abs(), if p.start() == 0 { 1 } else { 2 });
            }
        }
    }
}

#[test]
fn the_shortest_chain_has_one_place_for_three_joints() {
    for index_draw in 0..=255u8 {
        let p = Perturbation::plan(3, index_draw, true, unit_draw(0.75));
        assert_eq!(p.start(), 0);
        assert_eq!(p.angle(), 1);
        let q = Perturbation::plan(3, index_draw, true, unit_draw(0.25));
        assert_eq!(q.start(), index_draw as usize % 2);
    }
}

#[test]
fn proposed_moves_are_planned_moves() {
    let mut starts_seen = [false; 18];
    let mut forwards = 0;
    let mut backwards = 0;
    for _ in 0..2000 {
        let p = propose(20, unit_draw(0.75));
        assert_eq!(p.window(), Window::Triple);
        assert!(p.start() + 3 <= 20);
        assert_eq!(p.angle().abs(), if p.start() == 0 { 1 } else { 2 });
        starts_seen[p.start()] = true;
        if p.angle() > 0 {
            forwards += 1;
        } else {
            backwards += 1;
        }
        let q = propose(20, unit_draw(0.25));
        assert_eq!(q.window(), Window::Pair);
        assert!(q.start() + 2 <= 20);
    }
    assert!(starts_seen.iter().filter(|seen| **seen).count() > 1);
    assert!(forwards > 0 && backwards > 0);
}
