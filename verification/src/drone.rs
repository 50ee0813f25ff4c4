//! The per-agent model: state, the PID position controller, the first-order
//! velocity-response integrator, the yaw loop, and the mode state machine.
//!
//! Every exec routine carries an exact functional contract: its result is the
//! corresponding spec function of the mathematical view of its inputs, so one
//! tick of an agent is a pure function of the prior state and the tick-global
//! broadcast parameters.

use crate::fixed::{
    clamp64, clamp_s, cos_fp, cos_fp_s, fp_add, fp_add_s, fp_mul, fp_mul_s, fp_ok, fp_sub,
    fp_sub_s, fp_div_s, fp_div, mul128, sin_fp, sin_fp_s, wrap_pi, wrap_pi_s, FP_ONE, FP_PI,
    FP_SAT, FP_TWO_PI,
};
use vstd::prelude::*;

verus! {

/// Proportional gain of the position loop.
pub const FP_KP: i64 = 2000000;

/// Integral gain of the position loop.
pub const FP_KI: i64 = 10000;

/// Derivative gain of the position loop.
pub const FP_KD: i64 = 500000;

/// First-order velocity response rate, per second.
pub const FP_RESPONSE: i64 = 5000000;

/// Linear drag coefficient.
pub const FP_DRAG: i64 = 100000;

/// Geometric velocity decay applied each tick while idle.
pub const FP_IDLE_DECAY: i64 = 950000;

/// Half-width of the flight envelope on the x and y axes.
pub const FP_WORLD_XY: i64 = 10000000;

/// Ceiling of the flight envelope.
pub const FP_WORLD_Z: i64 = 5000000;

/// Half-width of the wider safety envelope that health is judged against.
pub const FP_SAFE_XY: i64 = 15000000;

/// Ceiling of the safety envelope.
pub const FP_SAFE_Z: i64 = 10000000;

/// Altitude below which a landing agent settles to idle.
pub const FP_LAND_EPS: i64 = 150000;

/// Squared arrival distance for the takeoff-to-hover transition.
pub const FP_ARRIVE_SQ: i64 = 10000000000;

/// A full battery, one hundred percent.
pub const FP_BATTERY_FULL: i64 = 100000000;

/// Orbit radius a fresh agent carries before any monitor command.
pub const FP_DEFAULT_RADIUS: i64 = 2000000;

/// Orbit altitude a fresh agent carries before any monitor command.
pub const FP_DEFAULT_ALTITUDE: i64 = 1500000;

/// A world-frame vector, fixed-point on each axis.
#[derive(Clone, Copy, PartialEq, Eq, Structural, Debug)]
pub struct Vec3 {
    pub x: i64,
    pub y: i64,
    pub z: i64,
}

/// The mathematical view of a vector.
pub ghost struct V3 {
    pub x: int,
    pub y: int,
    pub z: int,
}

impl View for Vec3 {
    type V = V3;

    open spec fn view(&self) -> V3 {
        V3 { x: self.x as int, y: self.y as int, z: self.z as int }
    }
}

impl Vec3 {
    /// The zero vector.
    pub fn zero() -> (r: Vec3)
        ensures
            r@ == v3_zero(),
    {
        Vec3 { x: 0, y: 0, z: 0 }
    }
}

pub open spec fn v3_zero() -> V3 {
    V3 { x: 0, y: 0, z: 0 }
}

pub open spec fn v3_ok(v: V3) -> bool {
    fp_ok(v.x) && fp_ok(v.y) && fp_ok(v.z)
}

pub open spec fn opt_v3(o: Option<Vec3>) -> Option<V3> {
    match o {
        Some(v) => Some(v@),
        None => None,
    }
}

pub open spec fn opt_v3_ok(o: Option<V3>) -> bool {
    match o {
        Some(v) => v3_ok(v),
        None => true,
    }
}

/// Agent operating modes; the mode selects the control law a tick runs.
#[derive(Clone, Copy, PartialEq, Eq, Structural, Debug)]
pub enum DroneMode {
    Idle,
    Takeoff,
    Landing,
    Hover,
    Goto,
    Velocity,
    Monitor,
}

/// Per-agent state: kinematics, targets, battery, health, orbit parameters,
/// and the position controller's memory.
#[derive(Clone, Copy, PartialEq, Eq, Structural, Debug)]
pub struct Drone {
    pub id: usize,
    pub pos: Vec3,
    pub vel: Vec3,
    pub yaw: i64,
    pub yaw_rate: i64,
    pub mode: DroneMode,
    pub target_pos: Vec3,
    pub target_vel: Vec3,
    pub target_yaw: i64,
    pub battery: i64,
    pub healthy: bool,
    pub monitor_radius: i64,
    pub monitor_altitude: i64,
    pub monitor_angle: i64,
    pub pid_integral: Vec3,
    pub pid_prev_error: Vec3,
}

/// The mathematical view of an agent.
pub ghost struct DroneM {
    pub id: int,
    pub pos: V3,
    pub vel: V3,
    pub yaw: int,
    pub yaw_rate: int,
    pub mode: DroneMode,
    pub target_pos: V3,
    pub target_vel: V3,
    pub target_yaw: int,
    pub battery: int,
    pub healthy: bool,
    pub monitor_radius: int,
    pub monitor_altitude: int,
    pub monitor_angle: int,
    pub pid_integral: V3,
    pub pid_prev_error: V3,
}

impl View for Drone {
    type V = DroneM;

    open spec fn view(&self) -> DroneM {
        DroneM {
            id: self.id as int,
            pos: self.pos@,
            vel: self.vel@,
            yaw: self.yaw as int,
            yaw_rate: self.yaw_rate as int,
            mode: self.mode,
            target_pos: self.target_pos@,
            target_vel: self.target_vel@,
            target_yaw: self.target_yaw as int,
            battery: self.battery as int,
            healthy: self.healthy,
            monitor_radius: self.monitor_radius as int,
            monitor_altitude: self.monitor_altitude as int,
            monitor_angle: self.monitor_angle as int,
            pid_integral: self.pid_integral@,
            pid_prev_error: self.pid_prev_error@,
        }
    }
}

/// Well-formedness: every stored quantity sits inside the saturation
/// envelope, the battery is nonnegative, and the integral memory obeys the
/// anti-windup clamp.
pub open spec fn wf_m(d: DroneM) -> bool {
    &&& v3_ok(d.pos)
    &&& v3_ok(d.vel)
    &&& fp_ok(d.yaw)
    &&& fp_ok(d.yaw_rate)
    &&& v3_ok(d.target_pos)
    &&& v3_ok(d.target_vel)
    &&& fp_ok(d.target_yaw)
    &&& 0 <= d.battery <= FP_SAT as int
    &&& fp_ok(d.monitor_radius)
    &&& fp_ok(d.monitor_altitude)
    &&& fp_ok(d.monitor_angle)
    &&& integral_ok(d.pid_integral)
    &&& v3_ok(d.pid_prev_error)
}

/// The anti-windup bound on the integral memory: each component in
/// `[-FP_ONE, FP_ONE]`.
pub open spec fn integral_ok(v: V3) -> bool {
    &&& -(FP_ONE as int) <= v.x <= FP_ONE as int
    &&& -(FP_ONE as int) <= v.y <= FP_ONE as int
    &&& -(FP_ONE as int) <= v.z <= FP_ONE as int
}

/// The position inside the hard flight envelope.
pub open spec fn in_flight_envelope(p: V3) -> bool {
    &&& -(FP_WORLD_XY as int) <= p.x <= FP_WORLD_XY as int
    &&& -(FP_WORLD_XY as int) <= p.y <= FP_WORLD_XY as int
    &&& 0 <= p.z <= FP_WORLD_Z as int
}

/// The square of an axis error stays small enough that the three-axis sum
/// fits comfortably in 128 bits.
proof fn lemma_square_bound(a: int)
    requires
        -(4 * FP_SAT as int) <= a <= 4 * FP_SAT as int,
    ensures
        0 <= a * a <= (4 * FP_SAT as int) * (4 * FP_SAT as int),
{
    assert(0 <= a * a <= (4 * FP_SAT as int) * (4 * FP_SAT as int)) by (nonlinear_arith)
        requires
            -(4 * FP_SAT as int) <= a <= 4 * FP_SAT as int,
    ;
}

/// The position error the controller sees on one axis.
pub open spec fn pid_error_s(pos: int, tgt: int) -> int {
    fp_sub_s(tgt, pos)
}

/// The integral memory after one accumulation, clamped against windup.
pub open spec fn pid_integ_s(pos: int, tgt: int, integ0: int, dt: int) -> int {
    clamp_s(integ0 + fp_mul_s(pid_error_s(pos, tgt), dt), -(FP_ONE as int), FP_ONE as int)
}

/// The velocity command of the PID loop on one axis: proportional plus
/// (freshly accumulated) integral plus derivative, clamped to the speed
/// limit. The derivative term is zero when `dt` is zero.
pub open spec fn pid_cmd_s(pos: int, tgt: int, integ0: int, prev0: int, dt: int, max_vel: int) -> int {
    let e = pid_error_s(pos, tgt);
    let p_term = fp_mul_s(FP_KP as int, e);
    let i_term = fp_mul_s(FP_KI as int, pid_integ_s(pos, tgt, integ0, dt));
    let d_term = if dt > 0 {
        fp_div_s(fp_mul_s(FP_KD as int, e - prev0), dt)
    } else {
        0
    };
    clamp_s(p_term + i_term + d_term, -max_vel, max_vel)
}

/// The three-axis velocity command of the PID loop.
pub open spec fn pid_cmd3_s(d: DroneM, dt: int, max_vel: int) -> V3 {
    V3 {
        x: pid_cmd_s(d.pos.x, d.target_pos.x, d.pid_integral.x, d.pid_prev_error.x, dt, max_vel),
        y: pid_cmd_s(d.pos.y, d.target_pos.y, d.pid_integral.y, d.pid_prev_error.y, dt, max_vel),
        z: pid_cmd_s(d.pos.z, d.target_pos.z, d.pid_integral.z, d.pid_prev_error.z, dt, max_vel),
    }
}

/// The controller memory after one PID evaluation.
pub open spec fn pid_advance_s(d: DroneM, dt: int) -> DroneM {
    DroneM {
        pid_integral: V3 {
            x: pid_integ_s(d.pos.x, d.target_pos.x, d.pid_integral.x, dt),
            y: pid_integ_s(d.pos.y, d.target_pos.y, d.pid_integral.y, dt),
            z: pid_integ_s(d.pos.z, d.target_pos.z, d.pid_integral.z, dt),
        },
        pid_prev_error: V3 {
            x: pid_error_s(d.pos.x, d.target_pos.x),
            y: pid_error_s(d.pos.y, d.target_pos.y),
            z: pid_error_s(d.pos.z, d.target_pos.z),
        },
        ..d
    }
}

/// One axis of the damped first-order velocity response.
pub open spec fn vel_axis_s(vel: int, cmd: int, dt: int) -> int {
    let accel = fp_mul_s(FP_RESPONSE as int, cmd - vel) - fp_mul_s(FP_DRAG as int, vel);
    fp_add_s(vel, fp_mul_s(accel, dt))
}

/// The velocity response and explicit-Euler position integration.
pub open spec fn apply_velocity_s(d: DroneM, cmd: V3, dt: int) -> DroneM {
    let vx = vel_axis_s(d.vel.x, cmd.x, dt);
    let vy = vel_axis_s(d.vel.y, cmd.y, dt);
    let vz = vel_axis_s(d.vel.z, cmd.z, dt);
    DroneM {
        vel: V3 { x: vx, y: vy, z: vz },
        pos: V3 {
            x: fp_add_s(d.pos.x, fp_mul_s(vx, dt)),
            y: fp_add_s(d.pos.y, fp_mul_s(vy, dt)),
            z: fp_add_s(d.pos.z, fp_mul_s(vz, dt)),
        },
        ..d
    }
}

/// One tick of a position-seeking mode (Takeoff, Landing, Goto, Hover):
/// PID toward the target, integrate, then evaluate the mode transitions.
#[verifier::opaque]
pub open spec fn position_mode_s(d: DroneM, dt: int, max_vel: int) -> DroneM {
    let cmd = pid_cmd3_s(d, dt, max_vel);
    let d1 = apply_velocity_s(pid_advance_s(d, dt), cmd, dt);
    let dx = d1.target_pos.x - d1.pos.x;
    let dy = d1.target_pos.y - d1.pos.y;
    let dz = d1.target_pos.z - d1.pos.z;
    let dist2 = dx * dx + dy * dy + dz * dz;
    if d1.mode == DroneMode::Landing && d1.pos.z < FP_LAND_EPS as int {
        DroneM { mode: DroneMode::Idle, vel: v3_zero(), ..d1 }
    } else if d1.mode == DroneMode::Takeoff && dist2 < FP_ARRIVE_SQ as int {
        DroneM { mode: DroneMode::Hover, ..d1 }
    } else {
        d1
    }
}

/// One tick of the orbital monitor: advance the orbit angle, move the target
/// around the circle at the orbit altitude, face the centre, then run the
/// position loop toward the moving target.
#[verifier::opaque]
pub open spec fn monitor_mode_s(d: DroneM, dt: int, max_vel: int, center: V3, mos: int) -> DroneM {
    let a1 = fp_add_s(d.monitor_angle, fp_mul_s(mos, dt));
    let angle = if a1 > FP_TWO_PI as int {
        a1 - FP_TWO_PI as int
    } else {
        a1
    };
    let d1 = DroneM {
        monitor_angle: angle,
        target_pos: V3 {
            x: fp_add_s(center.x, fp_mul_s(d.monitor_radius, cos_fp_s(angle))),
            y: fp_add_s(center.y, fp_mul_s(d.monitor_radius, sin_fp_s(angle))),
            z: d.monitor_altitude,
        },
        target_yaw: wrap_pi_s(angle - FP_PI as int),
        ..d
    };
    let cmd = pid_cmd3_s(d1, dt, max_vel);
    apply_velocity_s(pid_advance_s(d1, dt), cmd, dt)
}

/// The control law the mode selects.
pub open spec fn step_mode_s(d: DroneM, dt: int, max_vel: int, mc: Option<V3>, mos: int) -> DroneM {
    match d.mode {
        DroneMode::Idle => DroneM {
            vel: V3 {
                x: fp_mul_s(FP_IDLE_DECAY as int, d.vel.x),
                y: fp_mul_s(FP_IDLE_DECAY as int, d.vel.y),
                z: fp_mul_s(FP_IDLE_DECAY as int, d.vel.z),
            },
            ..d
        },
        DroneMode::Takeoff | DroneMode::Landing | DroneMode::Goto | DroneMode::Hover =>
            position_mode_s(d, dt, max_vel),
        DroneMode::Velocity => apply_velocity_s(d, d.target_vel, dt),
        DroneMode::Monitor => match mc {
            Some(c) => monitor_mode_s(d, dt, max_vel, c, mos),
            None => d,
        },
    }
}

/// The yaw loop, run every tick in every mode: shortest-path error, a rate
/// clamped to half a turn per second, explicit-Euler integration.
pub open spec fn yaw_phase_s(d: DroneM, dt: int) -> DroneM {
    let e = wrap_pi_s(d.target_yaw - d.yaw);
    let yr = clamp_s(2 * e, -(FP_PI as int), FP_PI as int);
    DroneM { yaw_rate: yr, yaw: fp_add_s(d.yaw, fp_mul_s(yr, dt)), ..d }
}

/// The end-of-tick envelope clamp and health derivation.
pub open spec fn clamp_health_s(d: DroneM) -> DroneM {
    let p = V3 {
        x: clamp_s(d.pos.x, -(FP_WORLD_XY as int), FP_WORLD_XY as int),
        y: clamp_s(d.pos.y, -(FP_WORLD_XY as int), FP_WORLD_XY as int),
        z: clamp_s(d.pos.z, 0, FP_WORLD_Z as int),
    };
    DroneM {
        pos: p,
        healthy: -(FP_SAFE_XY as int) < p.x < FP_SAFE_XY as int
            && -(FP_SAFE_XY as int) < p.y < FP_SAFE_XY as int
            && 0 <= p.z <= FP_SAFE_Z as int
            && d.battery > 0,
        ..d
    }
}

/// One full tick of an agent: the mode's control law, the yaw loop, the
/// envelope clamp, the health derivation.
pub open spec fn step_s(d: DroneM, dt: int, max_vel: int, mc: Option<V3>, mos: int) -> DroneM {
    clamp_health_s(yaw_phase_s(step_mode_s(d, dt, max_vel, mc, mos), dt))
}

/// The state a fresh agent starts in: at rest on the given spot, targets on
/// the spot itself, idle, full battery.
pub open spec fn new_drone_s(id: int, x: int, y: int, z: int) -> DroneM {
    DroneM {
        id: id,
        pos: V3 { x: x, y: y, z: z },
        vel: v3_zero(),
        yaw: 0,
        yaw_rate: 0,
        mode: DroneMode::Idle,
        target_pos: V3 { x: x, y: y, z: z },
        target_vel: v3_zero(),
        target_yaw: 0,
        battery: FP_BATTERY_FULL as int,
        healthy: true,
        monitor_radius: FP_DEFAULT_RADIUS as int,
        monitor_altitude: FP_DEFAULT_ALTITUDE as int,
        monitor_angle: 0,
        pid_integral: v3_zero(),
        pid_prev_error: v3_zero(),
    }
}

impl Drone {
    pub fn new(id: usize, x: i64, y: i64, z: i64) -> (d: Drone)
        requires
            fp_ok(x as int),
            fp_ok(y as int),
            fp_ok(z as int),
        ensures
            d@ == new_drone_s(id as int, x as int, y as int, z as int),
            wf_m(d@),
    {
        Drone {
            id,
            pos: Vec3 { x, y, z },
            vel: Vec3 { x: 0, y: 0, z: 0 },
            yaw: 0,
            yaw_rate: 0,
            mode: DroneMode::Idle,
            target_pos: Vec3 { x, y, z },
            target_vel: Vec3 { x: 0, y: 0, z: 0 },
            target_yaw: 0,
            battery: FP_BATTERY_FULL,
            healthy: true,
            monitor_radius: FP_DEFAULT_RADIUS,
            monitor_altitude: FP_DEFAULT_ALTITUDE,
            monitor_angle: 0,
            pid_integral: Vec3 { x: 0, y: 0, z: 0 },
            pid_prev_error: Vec3 { x: 0, y: 0, z: 0 },
        }
    }

    /// Clear the position controller's memory, as every position-seeking
    /// command does on entry.
    pub fn reset_pid(&mut self)
        ensures
            final(self)@ == (DroneM {
                pid_integral: v3_zero(),
                pid_prev_error: v3_zero(),
                ..old(self)@
            }),
    {
        self.pid_integral = Vec3 { x: 0, y: 0, z: 0 };
        self.pid_prev_error = Vec3 { x: 0, y: 0, z: 0 };
    }

    /// One PID evaluation: returns the velocity command and advances the
    /// controller memory.
    fn compute_position_control(&mut self, dt: i64, max_vel: i64) -> (cmd: Vec3)
        requires
            wf_m(old(self)@),
            0 <= dt <= FP_ONE,
            0 <= max_vel <= FP_SAT,
        ensures
            cmd@ == pid_cmd3_s(old(self)@, dt as int, max_vel as int),
            final(self)@ == pid_advance_s(old(self)@, dt as int),
            wf_m(final(self)@),
            v3_ok(cmd@),
    {
        let cmd = Vec3 {
            x: self.pid_axis_x(dt, max_vel),
            y: self.pid_axis_y(dt, max_vel),
            z: self.pid_axis_z(dt, max_vel),
        };
        cmd
    }

    fn pid_axis_x(&mut self, dt: i64, max_vel: i64) -> (cmd: i64)
        requires
            wf_m(old(self)@),
            0 <= dt <= FP_ONE,
            0 <= max_vel <= FP_SAT,
        ensures
            cmd as int == pid_cmd_s(
                old(self)@.pos.x,
                old(self)@.target_pos.x,
                old(self)@.pid_integral.x,
                old(self)@.pid_prev_error.x,
                dt as int,
                max_vel as int,
            ),
            final(self)@ == (DroneM {
                pid_integral: V3 {
                    x: pid_integ_s(
                        old(self)@.pos.x,
                        old(self)@.target_pos.x,
                        old(self)@.pid_integral.x,
                        dt as int,
                    ),
                    ..old(self)@.pid_integral
                },
                pid_prev_error: V3 {
                    x: pid_error_s(old(self)@.pos.x, old(self)@.target_pos.x),
                    ..old(self)@.pid_prev_error
                },
                ..old(self)@
            }),
            fp_ok(cmd as int),
    {
        let error = fp_sub(self.target_pos.x, self.pos.x);
        let integ = clamp64(self.pid_integral.x + fp_mul(error, dt), -FP_ONE, FP_ONE);
        let p_term = fp_mul(FP_KP, error);
        let i_term = fp_mul(FP_KI, integ);
        let d_term: i64 = if dt > 0 {
            fp_div(fp_mul(FP_KD, error - self.pid_prev_error.x), dt)
        } else {
            0
        };
        self.pid_integral = Vec3 { x: integ, ..self.pid_integral };
        self.pid_prev_error = Vec3 { x: error, ..self.pid_prev_error };
        clamp64(p_term + i_term + d_term, -max_vel, max_vel)
    }

    fn pid_axis_y(&mut self, dt: i64, max_vel: i64) -> (cmd: i64)
        requires
            wf_m(old(self)@),
            0 <= dt <= FP_ONE,
            0 <= max_vel <= FP_SAT,
        ensures
            cmd as int == pid_cmd_s(
                old(self)@.pos.y,
                old(self)@.target_pos.y,
                old(self)@.pid_integral.y,
                old(self)@.pid_prev_error.y,
                dt as int,
                max_vel as int,
            ),
            final(self)@ == (DroneM {
                pid_integral: V3 {
                    y: pid_integ_s(
                        old(self)@.pos.y,
                        old(self)@.target_pos.y,
                        old(self)@.pid_integral.y,
                        dt as int,
                    ),
                    ..old(self)@.pid_integral
                },
                pid_prev_error: V3 {
                    y: pid_error_s(old(self)@.pos.y, old(self)@.target_pos.y),
                    ..old(self)@.pid_prev_error
                },
                ..old(self)@
            }),
            fp_ok(cmd as int),
    {
        let error = fp_sub(self.target_pos.y, self.pos.y);
        let integ = clamp64(self.pid_integral.y + fp_mul(error, dt), -FP_ONE, FP_ONE);
        let p_term = fp_mul(FP_KP, error);
        let i_term = fp_mul(FP_KI, integ);
        let d_term: i64 = if dt > 0 {
            fp_div(fp_mul(FP_KD, error - self.pid_prev_error.y), dt)
        } else {
            0
        };
        self.pid_integral = Vec3 { y: integ, ..self.pid_integral };
        self.pid_prev_error = Vec3 { y: error, ..self.pid_prev_error };
        clamp64(p_term + i_term + d_term, -max_vel, max_vel)
    }

    fn pid_axis_z(&mut self, dt: i64, max_vel: i64) -> (cmd: i64)
        requires
            wf_m(old(self)@),
            0 <= dt <= FP_ONE,
            0 <= max_vel <= FP_SAT,
        ensures
            cmd as int == pid_cmd_s(
                old(self)@.pos.z,
                old(self)@.target_pos.z,
                old(self)@.pid_integral.z,
                old(self)@.pid_prev_error.z,
                dt as int,
                max_vel as int,
            ),
            final(self)@ == (DroneM {
                pid_integral: V3 {
                    z: pid_integ_s(
                        old(self)@.pos.z,
                        old(self)@.target_pos.z,
                        old(self)@.pid_integral.z,
                        dt as int,
                    ),
                    ..old(self)@.pid_integral
                },
                pid_prev_error: V3 {
                    z: pid_error_s(old(self)@.pos.z, old(self)@.target_pos.z),
                    ..old(self)@.pid_prev_error
                },
                ..old(self)@
            }),
            fp_ok(cmd as int),
    {
        let error = fp_sub(self.target_pos.z, self.pos.z);
        let integ = clamp64(self.pid_integral.z + fp_mul(error, dt), -FP_ONE, FP_ONE);
        let p_term = fp_mul(FP_KP, error);
        let i_term = fp_mul(FP_KI, integ);
        let d_term: i64 = if dt > 0 {
            fp_div(fp_mul(FP_KD, error - self.pid_prev_error.z), dt)
        } else {
            0
        };
        self.pid_integral = Vec3 { z: integ, ..self.pid_integral };
        self.pid_prev_error = Vec3 { z: error, ..self.pid_prev_error };
        clamp64(p_term + i_term + d_term, -max_vel, max_vel)
    }

    /// The velocity response and position integration for one tick.
    fn apply_velocity_control(&mut self, cmd: Vec3, dt: i64)
        requires
            wf_m(old(self)@),
            v3_ok(cmd@),
            0 <= dt <= FP_ONE,
        ensures
            final(self)@ == apply_velocity_s(old(self)@, cmd@, dt as int),
            wf_m(final(self)@),
    {
        let vx = fp_add(self.vel.x, fp_mul(fp_mul(FP_RESPONSE, cmd.x - self.vel.x) - fp_mul(FP_DRAG, self.vel.x), dt));
        let vy = fp_add(self.vel.y, fp_mul(fp_mul(FP_RESPONSE, cmd.y - self.vel.y) - fp_mul(FP_DRAG, self.vel.y), dt));
        let vz = fp_add(self.vel.z, fp_mul(fp_mul(FP_RESPONSE, cmd.z - self.vel.z) - fp_mul(FP_DRAG, self.vel.z), dt));
        self.vel = Vec3 { x: vx, y: vy, z: vz };
        self.pos = Vec3 {
            x: fp_add(self.pos.x, fp_mul(vx, dt)),
            y: fp_add(self.pos.y, fp_mul(vy, dt)),
            z: fp_add(self.pos.z, fp_mul(vz, dt)),
        };
    }

    fn tick_position_mode(&mut self, dt: i64, max_vel: i64)
        requires
            wf_m(old(self)@),
            0 <= dt <= FP_ONE,
            0 <= max_vel <= FP_SAT,
        ensures
            final(self)@ == position_mode_s(old(self)@, dt as int, max_vel as int),
            wf_m(final(self)@),
    {
        proof {
            reveal(position_mode_s);
        }
        let ghost d0 = self@;
        let cmd = self.compute_position_control(dt, max_vel);
        self.apply_velocity_control(cmd, dt);
        proof {
            assert(self@ == apply_velocity_s(
                pid_advance_s(d0, dt as int),
                pid_cmd3_s(d0, dt as int, max_vel as int),
                dt as int,
            ));
        }
        let dx = self.target_pos.x - self.pos.x;
        let dy = self.target_pos.y - self.pos.y;
        let dz = self.target_pos.z - self.pos.z;
        proof {
            lemma_square_bound(dx as int);
            lemma_square_bound(dy as int);
            lemma_square_bound(dz as int);
        }
        let dist2: i128 = mul128(dx, dx) + mul128(dy, dy) + mul128(dz, dz);
        if self.mode == DroneMode::Landing && self.pos.z < FP_LAND_EPS {
            self.mode = DroneMode::Idle;
            self.vel = Vec3 { x: 0, y: 0, z: 0 };
        } else if self.mode == DroneMode::Takeoff && dist2 < FP_ARRIVE_SQ as i128 {
            self.mode = DroneMode::Hover;
        }
    }

    fn tick_monitor(&mut self, dt: i64, max_vel: i64, center: Vec3, monitor_orbit_speed: i64)
        requires
            wf_m(old(self)@),
            0 <= dt <= FP_ONE,
            0 <= max_vel <= FP_SAT,
            v3_ok(center@),
            fp_ok(monitor_orbit_speed as int),
        ensures
            final(self)@ == monitor_mode_s(
                old(self)@,
                dt as int,
                max_vel as int,
                center@,
                monitor_orbit_speed as int,
            ),
            wf_m(final(self)@),
    {
        proof {
            reveal(monitor_mode_s);
        }
        let a1 = fp_add(self.monitor_angle, fp_mul(monitor_orbit_speed, dt));
        let angle = if a1 > FP_TWO_PI {
            a1 - FP_TWO_PI
        } else {
            a1
        };
        self.monitor_angle = angle;
        self.target_pos = Vec3 {
            x: fp_add(center.x, fp_mul(self.monitor_radius, cos_fp(angle))),
            y: fp_add(center.y, fp_mul(self.monitor_radius, sin_fp(angle))),
            z: self.monitor_altitude,
        };
        self.target_yaw = wrap_pi(angle - FP_PI);
        let ghost d1 = self@;
        let cmd = self.compute_position_control(dt, max_vel);
        self.apply_velocity_control(cmd, dt);
        proof {
            assert(self@ == apply_velocity_s(
                pid_advance_s(d1, dt as int),
                pid_cmd3_s(d1, dt as int, max_vel as int),
                dt as int,
            ));
        }
    }

    /// The yaw loop, the envelope clamp and the health derivation that close
    /// every tick.
    fn finish_tick(&mut self, dt: i64)
        requires
            wf_m(old(self)@),
            0 <= dt <= FP_ONE,
        ensures
            final(self)@ == clamp_health_s(yaw_phase_s(old(self)@, dt as int)),
            wf_m(final(self)@),
            in_flight_envelope(final(self)@.pos),
    {
        let ghost dm = self@;
        let e = wrap_pi(self.target_yaw - self.yaw);
        let yr = clamp64(2 * e, -FP_PI, FP_PI);
        self.yaw_rate = yr;
        self.yaw = fp_add(self.yaw, fp_mul(yr, dt));
        proof {
            assert(self@ == yaw_phase_s(dm, dt as int));
        }
        let ghost dy = yaw_phase_s(dm, dt as int);
        self.pos = Vec3 {
            x: clamp64(self.pos.x, -FP_WORLD_XY, FP_WORLD_XY),
            y: clamp64(self.pos.y, -FP_WORLD_XY, FP_WORLD_XY),
            z: clamp64(self.pos.z, 0, FP_WORLD_Z),
        };
        self.healthy = -FP_SAFE_XY < self.pos.x && self.pos.x < FP_SAFE_XY && -FP_SAFE_XY
            < self.pos.y && self.pos.y < FP_SAFE_XY && 0 <= self.pos.z && self.pos.z <= FP_SAFE_Z
            && self.battery > 0;
        proof {
            assert(self@ == clamp_health_s(dy));
        }
    }

    /// Advance this agent by one fixed tick under the tick-global broadcast
    /// parameters. The result is exactly `step_s` of the prior state; in
    /// particular the position lands inside the hard flight envelope and the
    /// integral memory keeps its anti-windup bound, however long the run.
    pub fn step(&mut self, dt: i64, max_vel: i64, monitor_center: Option<Vec3>, monitor_orbit_speed: i64)
        requires
            wf_m(old(self)@),
            0 <= dt <= FP_ONE,
            0 <= max_vel <= FP_SAT,
            opt_v3_ok(opt_v3(monitor_center)),
            fp_ok(monitor_orbit_speed as int),
        ensures
            final(self)@ == step_s(
                old(self)@,
                dt as int,
                max_vel as int,
                opt_v3(monitor_center),
                monitor_orbit_speed as int,
            ),
            wf_m(final(self)@),
            in_flight_envelope(final(self)@.pos),
            integral_ok(final(self)@.pid_integral),
    {
        let ghost d0 = self@;
        match self.mode {
            DroneMode::Idle => {
                self.vel = Vec3 {
                    x: fp_mul(FP_IDLE_DECAY, self.vel.x),
                    y: fp_mul(FP_IDLE_DECAY, self.vel.y),
                    z: fp_mul(FP_IDLE_DECAY, self.vel.z),
                };
            },
            DroneMode::Takeoff | DroneMode::Landing | DroneMode::Goto | DroneMode::Hover => {
                self.tick_position_mode(dt, max_vel);
            },
            DroneMode::Velocity => {
                let tv = self.target_vel;
                self.apply_velocity_control(tv, dt);
            },
            DroneMode::Monitor => {
                if let Some(center) = monitor_center {
                    self.tick_monitor(dt, max_vel, center, monitor_orbit_speed);
                }
            },
        }
        proof {
            assert(self@ == step_mode_s(
                d0,
                dt as int,
                max_vel as int,
                opt_v3(monitor_center),
                monitor_orbit_speed as int,
            ));
        }
        self.finish_tick(dt);
    }
}

} // verus!
