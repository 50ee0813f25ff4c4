use drone_physics::drone::{Drone, DroneMode, Vec3};

const DT: i64 = 4166;
const MAX_VEL: i64 = 2000000;
const ORBIT_SPEED: i64 = 300000;

fn stepped(d: &mut Drone) {
    d.step(DT, MAX_VEL, None, ORBIT_SPEED);
}

#[test]
fn a_fresh_drone_is_idle_and_healthy() {
    let d = Drone::new(3, 500000, -500000, 100000);
    assert_eq!(d.id, 3);
    assert_eq!(d.pos, Vec3 { x: 500000, y: -500000, z: 100000 });
    assert_eq!(d.target_pos, d.pos);
    assert_eq!(d.vel, Vec3 { x: 0, y: 0, z: 0 });
    assert!(matches!(d.mode, DroneMode::Idle));
    assert_eq!(d.battery, 100000000);
    assert!(d.healthy);
}

#[test]
fn idle_velocity_decays_geometrically() {
    let mut d = Drone::new(0, 0, 0, 100000);
    d.vel = Vec3 { x: 1000000, y: -2000000, z: 400000 };
    stepped(&mut d);
    assert_eq!(d.vel.x, 950000);
    assert_eq!(d.vel.y, -1900000);
    assert_eq!(d.vel.z, 380000);
    assert!(matches!(d.mode, DroneMode::Idle));
}

#[test]
fn takeoff_reaches_hover_without_leaving_the_ceiling() {
    // An agent at rest on the pad, commanded a meter up, ticked at 240 Hz,
    // must reach hover once within a tenth of a meter of the target, and its
    // altitude must never leave the envelope on the way.
    let mut d = Drone::new(0, 0, 0, 100000);
    d.target_pos = Vec3 { x: 0, y: 0, z: 1000000 };
    d.target_yaw = 0;
    d.mode = DroneMode::Takeoff;
    d.reset_pid();
    let mut reached = false;
    for _ in 0..10000 {
        stepped(&mut d);
        assert!(d.pos.z <= 5000000);
        assert!(-10000000 <= d.pos.x && d.pos.x <= 10000000);
        if matches!(d.mode, DroneMode::Hover) {
            reached = true;
            break;
        }
        assert!(matches!(d.mode, DroneMode::Takeoff));
    }
    assert!(reached);
    let dx = (d.target_pos.x - d.pos.x) as i128;
    let dy = (d.target_pos.y - d.pos.y) as i128;
    let dz = (d.target_pos.z - d.pos.z) as i128;
    assert!(dx * dx + dy * dy + dz * dz < 10000000000);
}

#[test]
fn landing_settles_to_idle_with_zero_velocity() {
    let mut d = Drone::new(0, 0, 0, 1000000);
    d.target_pos = Vec3 { x: 0, y: 0, z: 50000 };
    d.target_yaw = 0;
    d.mode = DroneMode::Landing;
    d.reset_pid();
    let mut settled = false;
    for _ in 0..10000 {
        stepped(&mut d);
        if matches!(d.mode, DroneMode::Idle) {
            // The very tick the altitude drops below the threshold, the agent
            // idles and its velocity is zeroed.
            assert!(d.pos.z < 150000);
            assert_eq!(d.vel, Vec3 { x: 0, y: 0, z: 0 });
            settled = true;
            break;
        }
        assert!(d.pos.z >= 150000);
    }
    assert!(settled);
}

#[test]
fn pid_integral_stays_clamped_under_constant_error() {
    // A target pinned far away gives a large constant error; the integral
    // memory must never leave one unit on any axis, however long the run.
    let mut d = Drone::new(0, 0, 0, 100000);
    d.target_pos = Vec3 { x: 10000000, y: -10000000, z: 5000000 };
    d.mode = DroneMode::Goto;
    d.reset_pid();
    for _ in 0..5000 {
        stepped(&mut d);
        assert!(-1000000 <= d.pid_integral.x && d.pid_integral.x <= 1000000);
        assert!(-1000000 <= d.pid_integral.y && d.pid_integral.y <= 1000000);
        assert!(-1000000 <= d.pid_integral.z && d.pid_integral.z <= 1000000);
        assert!(-10000000 <= d.pos.x && d.pos.x <= 10000000);
        assert!(-10000000 <= d.pos.y && d.pos.y <= 10000000);
        assert!(0 <= d.pos.z && d.pos.z <= 5000000);
    }
}

#[test]
fn velocity_mode_obeys_the_first_order_response() {
    // One tick from rest under a commanded velocity: the acceleration is
    // response_rate * cmd, integrated over one tick, and the position moves
    // by the new velocity times the tick.
    let mut d = Drone::new(0, 0, 0, 1000000);
    d.target_vel = Vec3 { x: 1000000, y: 0, z: 0 };
    d.mode = DroneMode::Velocity;
    stepped(&mut d);
    // accel = 5.0 * (1.0 - 0.0) - 0.1 * 0.0 = 5.0; vel = 5.0 * dt
    let expect_vel = (5000000i128 * DT as i128 / 1000000) as i64;
    assert_eq!(d.vel.x, expect_vel);
    let expect_pos = (expect_vel as i128 * DT as i128 / 1000000) as i64;
    assert_eq!(d.pos.x, expect_pos);
}

#[test]
fn monitor_mode_orbits_the_centre() {
    let mut d = Drone::new(0, 0, 0, 1500000);
    d.mode = DroneMode::Monitor;
    d.monitor_radius = 2000000;
    d.monitor_altitude = 1500000;
    d.monitor_angle = 0;
    d.reset_pid();
    let center = Some(Vec3 { x: 0, y: 0, z: 0 });
    d.step(DT, MAX_VEL, center, ORBIT_SPEED);
    // The angle advances by orbit_speed * dt.
    let expect_angle = (300000i128 * DT as i128 / 1000000) as i64;
    assert_eq!(d.monitor_angle, expect_angle);
    // The target sits on the circle at the orbit altitude.
    assert_eq!(d.target_pos.z, 1500000);
    let tx = d.target_pos.x as f64 / 1.0e6;
    let ty = d.target_pos.y as f64 / 1.0e6;
    let ang = expect_angle as f64 / 1.0e6;
    assert!((tx - 2.0 * ang.cos()).abs() < 1.0e-4);
    assert!((ty - 2.0 * ang.sin()).abs() < 1.0e-4);
    // Without a centre, monitor mode holds everything but the yaw loop.
    let mut e = Drone::new(0, 0, 0, 1500000);
    e.mode = DroneMode::Monitor;
    let angle_before = e.monitor_angle;
    e.step(DT, MAX_VEL, None, ORBIT_SPEED);
    assert_eq!(e.monitor_angle, angle_before);
}

#[test]
fn yaw_turns_along_the_shortest_path() {
    let mut d = Drone::new(0, 0, 0, 100000);
    d.target_yaw = 3000000;
    stepped(&mut d);
    // error = 3.0 wrapped is 3.0; rate clamps 2 * 3.0 to pi.
    assert_eq!(d.yaw_rate, 3141592);
    assert_eq!(d.yaw, (3141592i128 * DT as i128 / 1000000) as i64);

    let mut e = Drone::new(0, 0, 0, 100000);
    e.target_yaw = -3000000;
    stepped(&mut e);
    assert_eq!(e.yaw_rate, -3141592);
}

#[test]
fn health_follows_battery() {
    let mut d = Drone::new(0, 0, 0, 100000);
    d.battery = 0;
    stepped(&mut d);
    assert!(!d.healthy);
    let mut e = Drone::new(0, 0, 0, 100000);
    e.battery = 1;
    stepped(&mut e);
    assert!(e.healthy);
}
