use drone_physics::drone::{DroneMode, Vec3};
use drone_physics::swarm::{Axis, Swarm};

#[test]
fn a_fresh_swarm_sits_on_the_grid() {
    let s = Swarm::new(4, 240);
    assert_eq!(s.num_drones(), 4);
    assert_eq!(s.get_time(), 0);
    assert_eq!(s.physics_dt, 4166);
    let states = s.get_states();
    assert_eq!(states.len(), 4);
    // ceil(sqrt(4)) = 2 columns, half-meter pitch, centred on the origin.
    assert_eq!(states[0].pos, Vec3 { x: -500000, y: -500000, z: 100000 });
    assert_eq!(states[1].pos, Vec3 { x: 0, y: -500000, z: 100000 });
    assert_eq!(states[2].pos, Vec3 { x: -500000, y: 0, z: 100000 });
    assert_eq!(states[3].pos, Vec3 { x: 0, y: 0, z: 100000 });
    for st in states {
        assert_eq!(st.vel, Vec3 { x: 0, y: 0, z: 0 });
        assert_eq!(st.battery, 100000000);
        assert!(st.healthy);
    }
}

#[test]
fn stepping_advances_the_clock_by_the_fixed_tick() {
    let mut s = Swarm::new(2, 240);
    let t1 = s.step();
    assert_eq!(t1, 4166);
    let t2 = s.step();
    assert_eq!(t2, 8332);
    let t3 = s.step_multiple(238);
    assert_eq!(t3, 240 * 4166);
    assert_eq!(s.get_time(), t3);
}

#[test]
fn a_parallel_step_equals_the_sequential_per_agent_update() {
    // The engine fans the tick out over a worker pool; stepping each agent
    // by hand, in order, must give bit-identical state.
    let mut s = Swarm::new(5, 240);
    s.takeoff_all(1000000);
    let mut manual = s.drones.clone();
    let dt = s.physics_dt;
    let max_vel = 2000000; // max_velocity * speed_multiplier, both defaults
    for _ in 0..50 {
        s.step();
        for d in manual.iter_mut() {
            d.step(dt, max_vel, None, 300000);
        }
    }
    for i in 0..5 {
        assert_eq!(s.drones[i], manual[i]);
    }
}

#[test]
fn takeoff_sets_targets_and_ignores_bad_ids() {
    let mut s = Swarm::new(3, 240);
    s.takeoff(vec![0, 2, 17], 1000000);
    assert!(matches!(s.drones[0].mode, DroneMode::Takeoff));
    assert!(matches!(s.drones[1].mode, DroneMode::Idle));
    assert!(matches!(s.drones[2].mode, DroneMode::Takeoff));
    assert_eq!(s.drones[0].target_pos, Vec3 { x: -500000, y: -500000, z: 1000000 });
    assert_eq!(s.drones[0].pid_integral, Vec3 { x: 0, y: 0, z: 0 });
}

#[test]
fn land_aims_below_the_settle_threshold() {
    let mut s = Swarm::new(2, 240);
    s.takeoff_all(1000000);
    s.step_multiple(1200);
    s.land(vec![0, 1]);
    for i in 0..2 {
        assert!(matches!(s.drones[i].mode, DroneMode::Landing));
        assert_eq!(s.drones[i].target_pos.z, 50000);
    }
}

#[test]
fn hover_twice_is_hover_once() {
    let mut s = Swarm::new(3, 240);
    s.takeoff_all(1500000);
    s.step_multiple(700);
    let ids = vec![0usize, 1, 2];
    s.hover(ids.clone());
    let once = s.drones.clone();
    s.hover(ids);
    assert_eq!(s.drones, once);
}

#[test]
fn goto_clamps_targets_into_the_envelope() {
    let mut s = Swarm::new(1, 240);
    s.goto(0, 20000000, -20000000, 0, 700000);
    let d = &s.drones[0];
    assert!(matches!(d.mode, DroneMode::Goto));
    assert_eq!(d.target_pos, Vec3 { x: 10000000, y: -10000000, z: 100000 });
    assert_eq!(d.target_yaw, 700000);
    // An id past the count changes nothing.
    let before = s.drones.clone();
    s.goto(9, 0, 0, 1000000, 0);
    assert_eq!(s.drones, before);
}

#[test]
fn velocity_clamps_commands() {
    let mut s = Swarm::new(1, 240);
    s.velocity(0, 5000000, -5000000, 1000000, 10000000);
    let d = &s.drones[0];
    assert!(matches!(d.mode, DroneMode::Velocity));
    assert_eq!(d.target_vel, Vec3 { x: 2000000, y: -2000000, z: 1000000 });
    assert_eq!(d.yaw_rate, 3141592);
}

#[test]
fn formation_line_spaces_agents_evenly() {
    let mut s = Swarm::new(3, 240);
    s.formation_line(Vec3 { x: 0, y: 0, z: 1000000 }, 1000000, Axis::X);
    assert_eq!(s.drones[0].target_pos, Vec3 { x: -1000000, y: 0, z: 1000000 });
    assert_eq!(s.drones[1].target_pos, Vec3 { x: 0, y: 0, z: 1000000 });
    assert_eq!(s.drones[2].target_pos, Vec3 { x: 1000000, y: 0, z: 1000000 });
    let mut sy = Swarm::new(3, 240);
    sy.formation_line(Vec3 { x: 0, y: 0, z: 1000000 }, 1000000, Axis::Y);
    assert_eq!(sy.drones[2].target_pos, Vec3 { x: 0, y: 1000000, z: 1000000 });
    for i in 0..3 {
        assert!(matches!(s.drones[i].mode, DroneMode::Goto));
        assert_eq!(s.drones[i].target_yaw, 0);
    }
}

#[test]
fn formation_circle_places_four_agents_on_the_quarters() {
    // Four agents on a circle of radius 1.5 around (0, 0, 1): the targets sit
    // at angles 0, pi/2, pi, 3pi/2 — and the layout depends on nothing but
    // the index, the count, the centre and the radius.
    let mut s = Swarm::new(4, 240);
    s.formation_circle(Vec3 { x: 0, y: 0, z: 1000000 }, 1500000);
    assert_eq!(s.drones[0].target_pos, Vec3 { x: 1500000, y: 0, z: 1000000 });
    assert_eq!(s.drones[1].target_pos, Vec3 { x: 0, y: 1500000, z: 1000000 });
    assert_eq!(s.drones[2].target_pos, Vec3 { x: -1500000, y: 0, z: 1000000 });
    assert_eq!(s.drones[3].target_pos, Vec3 { x: -1, y: -1500000, z: 1000000 });
    // A second, independently built swarm lays out identically.
    let mut s2 = Swarm::new(4, 240);
    s2.step_multiple(10);
    s2.formation_circle(Vec3 { x: 0, y: 0, z: 1000000 }, 1500000);
    for i in 0..4 {
        assert_eq!(s2.drones[i].target_pos, s.drones[i].target_pos);
    }
}

#[test]
fn formation_grid_fills_rows_first() {
    let mut s = Swarm::new(5, 240);
    s.formation_grid(Vec3 { x: 0, y: 0, z: 2000000 }, 1000000);
    // cols = ceil(sqrt(5)) = 3, rows = 2; offsets centre the grid.
    assert_eq!(s.drones[0].target_pos, Vec3 { x: -1000000, y: -500000, z: 2000000 });
    assert_eq!(s.drones[1].target_pos, Vec3 { x: 0, y: -500000, z: 2000000 });
    assert_eq!(s.drones[2].target_pos, Vec3 { x: 1000000, y: -500000, z: 2000000 });
    assert_eq!(s.drones[3].target_pos, Vec3 { x: -1000000, y: 500000, z: 2000000 });
    assert_eq!(s.drones[4].target_pos, Vec3 { x: 0, y: 500000, z: 2000000 });
}

#[test]
fn formation_v_alternates_sides_behind_the_leader() {
    let mut s = Swarm::new(3, 240);
    s.formation_v(Vec3 { x: 0, y: 0, z: 1000000 }, 1000000);
    assert_eq!(s.drones[0].target_pos, Vec3 { x: 0, y: 0, z: 1000000 });
    // Follower 1 goes to the minus side, follower 2 to the plus side, both
    // one slot back along the thirty-degree wedge.
    assert_eq!(s.drones[1].target_pos, Vec3 { x: -866025, y: -500000, z: 1000000 });
    assert_eq!(s.drones[2].target_pos, Vec3 { x: -866025, y: 500000, z: 1000000 });
}

#[test]
fn waypoint_sends_one_agent_straight_and_several_onto_a_ring() {
    let mut one = Swarm::new(1, 240);
    one.waypoint(2000000, 3000000, 1500000);
    assert_eq!(one.drones[0].target_pos, Vec3 { x: 2000000, y: 3000000, z: 1500000 });
    let mut four = Swarm::new(4, 240);
    four.waypoint(2000000, 3000000, 1500000);
    assert_eq!(four.drones[0].target_pos, Vec3 { x: 2800000, y: 3000000, z: 1500000 });
    assert_eq!(four.drones[1].target_pos, Vec3 { x: 2000000, y: 3800000, z: 1500000 });
    assert_eq!(four.drones[2].target_pos, Vec3 { x: 1200000, y: 3000000, z: 1500000 });
    assert_eq!(four.drones[3].target_pos, Vec3 { x: 2000000, y: 2200000, z: 1500000 });
}

#[test]
fn monitor_spreads_radii_layers_and_angles() {
    let mut s = Swarm::new(7, 240);
    s.monitor(0, 0, 2000000);
    assert_eq!(s.monitor_center, Some(Vec3 { x: 0, y: 0, z: 2000000 }));
    for i in 0..7 {
        let d = &s.drones[i];
        assert!(matches!(d.mode, DroneMode::Monitor));
        assert_eq!(d.monitor_radius, (1 + (i as i64) % 3) * 1000000);
        let layer = (i % 5) as i64;
        let alt = 2000000 + layer * 600000 - 5 * 300000;
        assert_eq!(d.monitor_altitude, if alt < 500000 { 500000 } else { alt });
        assert_eq!(d.monitor_angle, 6283185 * (i as i64) / 7);
    }
}

#[test]
fn batteries_drain_exactly_and_never_rise() {
    // Ten one-second updates at six percent a minute drain exactly one
    // percent, and only agents that are not idle drain at all.
    let mut s = Swarm::new(2, 240);
    s.takeoff(vec![0], 1000000);
    for _ in 0..10 {
        let before0 = s.drones[0].battery;
        let before1 = s.drones[1].battery;
        s.update_batteries(6000000);
        assert!(s.drones[0].battery <= before0);
        assert_eq!(s.drones[1].battery, before1);
    }
    assert_eq!(s.drones[0].battery, 99000000);
    assert_eq!(s.drones[1].battery, 100000000);
}

#[test]
fn batteries_floor_at_empty() {
    let mut s = Swarm::new(1, 240);
    s.takeoff_all(1000000);
    s.update_batteries(i64::MAX - 1);
    assert_eq!(s.drones[0].battery, 0);
    s.update_batteries(6000000);
    assert_eq!(s.drones[0].battery, 0);
}

#[test]
fn reset_restores_the_spawn_layout_after_any_history() {
    let mut s = Swarm::new(5, 240);
    s.takeoff_all(1500000);
    s.step_multiple(500);
    s.monitor(0, 0, 2000000);
    s.step_multiple(500);
    s.update_batteries(6000000);
    s.velocity(2, 1000000, 0, 0, 0);
    s.step_multiple(100);
    s.reset();
    assert_eq!(s.get_time(), 0);
    assert_eq!(s.monitor_center, None);
    let fresh = Swarm::new(5, 240);
    assert_eq!(s.get_states(), fresh.get_states());
    for i in 0..5 {
        assert!(matches!(s.drones[i].mode, DroneMode::Idle));
    }
}

#[test]
fn respawn_rebuilds_the_swarm_with_a_new_count() {
    let mut s = Swarm::new(4, 240);
    s.takeoff_all(1000000);
    s.step_multiple(300);
    s.respawn(9);
    assert_eq!(s.num_drones(), 9);
    assert_eq!(s.get_time(), 0);
    let fresh = Swarm::new(9, 240);
    assert_eq!(s.get_states(), fresh.get_states());
}

#[test]
fn set_speed_scales_the_limit() {
    let mut s = Swarm::new(1, 240);
    s.set_speed(1500000);
    assert_eq!(s.speed_multiplier, 1500000);
    assert_eq!(s.max_velocity, 3000000);
}

#[test]
fn positions_stay_inside_the_envelope_under_full_throttle() {
    let mut s = Swarm::new(2, 240);
    s.velocity(0, 2000000, 2000000, 2000000, 0);
    s.velocity(1, -2000000, -2000000, -2000000, 0);
    s.step_multiple(4800);
    for st in s.get_states() {
        assert!(-10000000 <= st.pos.x && st.pos.x <= 10000000);
        assert!(-10000000 <= st.pos.y && st.pos.y <= 10000000);
        assert!(0 <= st.pos.z && st.pos.z <= 5000000);
    }
}

#[test]
fn monitored_swarm_keeps_orbiting_within_bounds() {
    let mut s = Swarm::new(6, 240);
    s.monitor(0, 0, 1500000);
    s.step_multiple(2400);
    for st in s.get_states() {
        assert!(-10000000 <= st.pos.x && st.pos.x <= 10000000);
        assert!(0 <= st.pos.z && st.pos.z <= 5000000);
        assert!(st.healthy);
    }
}

#[test]
fn commanded_takeoff_reaches_hover_through_the_engine() {
    let mut s = Swarm::new(1, 240);
    s.takeoff(vec![0], 1000000);
    let mut reached = false;
    for _ in 0..10000 {
        s.step();
        let st = &s.get_states()[0];
        assert!(st.pos.z <= 5000000);
        if matches!(s.drones[0].mode, DroneMode::Hover) {
            reached = true;
            break;
        }
    }
    assert!(reached);
}
