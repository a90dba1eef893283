use lift_sim::lift::Call;
use lift_sim::lift::Lift;
use lift_sim::lift::DOWN;
use lift_sim::lift::UP;
use lift_sim::system::System;

fn lift(id: &str, floor: i32, requests: Vec<i32>) -> Lift {
    Lift { id: id.to_string(), floor, requests, doors_open: false }
}

#[test]
fn it_adds_two() {
    let f: Vec<i32> = [0, 1, 2, 3, 4, 5, 6].to_vec();
    let mut c = Vec::with_capacity(20);
    c.push(Call { floor: 4, direction: DOWN });
    c.push(Call { floor: 1, direction: UP });

    let mut l = Vec::with_capacity(20);
    l.push(Lift { id: "A".to_string(), floor: 2, requests: [].to_vec(), doors_open: false });

    let mut system = System { calls: c, floors: f, lifts: l };

    system.render();

    system.lifts[0].push_request(1);
    system.tick();

    assert_eq!(2 + 2, 4);
}

#[test]
fn make_move_empty_queue_is_a_no_op() {
    let mut l = lift("A", 3, vec![]);
    l.make_move();
    assert_eq!(l.floor, 3);
    assert!(l.requests.is_empty());
    l.make_move();
    assert_eq!(l.floor, 3);
}

#[test]
fn make_move_steps_exactly_one_floor() {
    let mut up = lift("A", 2, vec![5]);
    up.make_move();
    assert_eq!(up.floor, 3);

    let mut down = lift("B", 4, vec![0]);
    down.make_move();
    assert_eq!(down.floor, 3);

    // A single step per tick regardless of distance to the target.
    let mut far = lift("C", 0, vec![100]);
    far.make_move();
    assert_eq!(far.floor, 1);
}

#[test]
fn make_move_does_not_consume_requests() {
    let mut l = lift("A", 2, vec![3]);
    l.make_move();
    assert_eq!(l.floor, 3);
    assert_eq!(l.requests, vec![3]);
    // The request is still pending, so the lift keeps moving: up past the
    // target (a tie counts as UP), then back down toward it.
    l.make_move();
    assert_eq!(l.floor, 4);
    l.make_move();
    assert_eq!(l.floor, 3);
}

#[test]
fn direction_up_on_tie_and_below() {
    let below = lift("A", 2, vec![3]);
    assert_eq!(below.direction(), UP);

    let tie = lift("B", 3, vec![3]);
    assert_eq!(tie.direction(), UP);

    let above = lift("C", 4, vec![3]);
    assert_eq!(above.direction(), DOWN);
}

#[test]
fn direction_looks_at_oldest_request_only() {
    let l = lift("A", 2, vec![3, 0, 0]);
    assert_eq!(l.direction(), UP);
    let m = lift("B", 2, vec![1, 9, 9]);
    assert_eq!(m.direction(), DOWN);
}

#[test]
fn push_request_appends_in_order() {
    let mut l = lift("A", 0, vec![4, 4]);
    l.push_request(7);
    assert_eq!(l.requests, vec![4, 4, 7]);
    assert_eq!(l.requests.len(), 3);
    l.push_request(4);
    assert_eq!(l.requests, vec![4, 4, 7, 4]);
    assert_eq!(*l.requests.last().unwrap(), 4);
    assert_eq!(l.floor, 0);
}

#[test]
fn has_request_on_floor_marker() {
    let marked = lift("A", 2, vec![5, 2]);
    assert_eq!(marked.has_request_on_floor(), "*");
    assert!(marked.contains_request(2));

    let plain = lift("B", 2, vec![5, 1]);
    assert_eq!(plain.has_request_on_floor(), "");
    assert!(!plain.contains_request(2));
}

#[test]
fn print_lift_brackets_and_marker() {
    let closed = lift("A", 2, vec![]);
    assert_eq!(closed.print_lift(), "[A]");

    let marked = lift("A", 2, vec![2]);
    assert_eq!(marked.print_lift(), "[*A]");

    let open = Lift { id: "B".to_string(), floor: 1, requests: vec![], doors_open: true };
    assert_eq!(open.print_lift(), "]B[");

    let open_marked = Lift { id: "B".to_string(), floor: 1, requests: vec![1], doors_open: true };
    assert_eq!(open_marked.print_lift(), "]*B[");
}

#[test]
fn print_calls_arrows() {
    let s = System {
        floors: vec![0, 1, 2, 3, 4, 5, 6],
        lifts: vec![],
        calls: vec![
            Call { floor: 4, direction: DOWN },
            Call { floor: 1, direction: UP },
            Call { floor: 3, direction: 9 },
        ],
    };
    assert_eq!(s.print_calls(4), " v ");
    assert_eq!(s.print_calls(1), " ^ ");
    assert_eq!(s.print_calls(3), "   ");
    assert_eq!(s.print_calls(0), "   ");
}

#[test]
fn print_calls_first_match_wins() {
    let s = System {
        floors: vec![0, 1],
        lifts: vec![],
        calls: vec![Call { floor: 1, direction: UP }, Call { floor: 1, direction: DOWN }],
    };
    assert_eq!(s.print_calls(1), " ^ ");
}

#[test]
fn print_lifts_for_floor_cells() {
    let s = System {
        floors: vec![0, 1, 2, 3],
        lifts: vec![lift("A", 2, vec![0]), lift("B", 0, vec![])],
        calls: vec![],
    };
    // Lift A stands on floor 2; lift B is elsewhere with no request there.
    assert_eq!(s.print_lifts_for_floor(2), "[A] 2    2");
    // Lift A has a pending request for floor 0; lift B stands there.
    assert_eq!(s.print_lifts_for_floor(0), " *  0[B] 0");
    // Neither lift has anything on floor 3.
    assert_eq!(s.print_lifts_for_floor(3), "    3    3");
}

#[test]
fn single_lift_snapshot_and_tick() {
    let mut s = System {
        floors: vec![0, 1, 2, 3, 4, 5, 6],
        lifts: vec![lift("A", 2, vec![])],
        calls: vec![],
    };
    let before = "6       6\n5       5\n4       4\n3       3\n2   [A] 2\n1       1\n0       0\n";
    assert_eq!(s.render(), before);

    s.lifts[0].push_request(1);
    // Direction is DOWN (2 > 1), so one tick brings the lift to floor 1,
    // where its still-pending request draws the `*` marker.
    let out = s.tick();
    assert_eq!(s.lifts[0].floor, 1);
    let after = "6       6\n5       5\n4       4\n3       3\n2       2\n1   [*A] 1\n0       0\n";
    assert_eq!(out, after);
    assert_eq!(s.render(), after);
}

#[test]
fn oldest_request_drives_the_move() {
    let mut l = lift("A", 2, vec![3, 1, 5]);
    assert_eq!(l.direction(), UP);
    l.make_move();
    assert_eq!(l.floor, 3);
    assert_eq!(l.requests, vec![3, 1, 5]);
}

#[test]
fn rendering_is_pure() {
    let s = System {
        floors: vec![0, 1, 2],
        lifts: vec![lift("A", 1, vec![0, 2])],
        calls: vec![Call { floor: 2, direction: UP }],
    };
    let first = s.render();
    let second = s.render();
    assert_eq!(first, second);
}

#[test]
fn move_lifts_moves_every_lift_independently() {
    let mut s = System {
        floors: vec![0, 1, 2, 3, 4],
        lifts: vec![lift("A", 0, vec![4]), lift("B", 3, vec![1]), lift("C", 2, vec![])],
        calls: vec![],
    };
    s.move_lifts();
    assert_eq!(s.lifts[0].floor, 1);
    assert_eq!(s.lifts[1].floor, 2);
    assert_eq!(s.lifts[2].floor, 2);
    assert_eq!(s.floors, vec![0, 1, 2, 3, 4]);
}

#[test]
fn floor_labels_render_in_decimal() {
    let mut s = String::new();
    lift_sim::text::push_dec_i32(&mut s, 0);
    assert_eq!(s, "0");
    let mut t = String::new();
    lift_sim::text::push_dec_i32(&mut t, 2048);
    assert_eq!(t, "2048");
    let mut u = String::new();
    lift_sim::text::push_dec_i32(&mut u, -205);
    assert_eq!(u, "-205");
    let mut v = String::new();
    lift_sim::text::push_dec_i32(&mut v, i32::MIN);
    assert_eq!(v, "-2147483648");
    let mut w = String::new();
    lift_sim::text::push_dec_i32(&mut w, i32::MAX);
    assert_eq!(w, "2147483647");
}

#[test]
fn negative_floor_labels_in_snapshot() {
    // Lifts and calls are matched against the floor index; the leading
    // label on each line is the floor's own value.
    let s = System { floors: vec![-1, 0], lifts: vec![lift("A", 0, vec![])], calls: vec![] };
    assert_eq!(s.render(), "0       1\n-1   [A] 0\n");
}
