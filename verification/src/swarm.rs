//! The swarm engine: it owns the agent collection, advances every agent by
//! one fixed tick (fanning the independent per-agent updates out over a
//! parallel worker pool), and implements the command surface — takeoff, land,
//! hover, goto, velocity, the formation layouts, orbital monitoring, battery
//! drain, reset and respawn.
//!
//! Every command is total: agent ids at or past the agent count are silently
//! ignored, and numeric targets are clamped into their safe envelopes rather
//! than rejected.

use crate::drone::{
    opt_v3, opt_v3_ok, step_s, v3_zero, wf_m, Drone, DroneM, DroneMode, Vec3, V3,
    FP_BATTERY_FULL, FP_WORLD_XY, FP_WORLD_Z,
};
use crate::fixed::{
    ceil_sqrt, ceil_sqrt_s, clamp64, clamp_s, cos_fp_s, fp_add, fp_add_s, fp_mul, fp_mul_s,
    fp_ok, fp_scale, fp_scale_s, fp_sub_s, is_ceil_sqrt, lemma_fp_mul_nonneg, lemma_tdiv_below, sin_fp_s,
    tdiv, tdiv64, FP_ONE, FP_PI, FP_SAT, FP_TWO_PI,
};
use rayon::iter::{IntoParallelRefMutIterator, ParallelIterator};
use vstd::arithmetic::div_mod::{lemma_div_nonincreasing, lemma_div_pos_is_pos};
use vstd::prelude::*;

verus! {

/// The largest agent count the engine accepts; counts past this could not be
/// laid out on the initial grid without leaving the arithmetic envelope.
pub const MAX_DRONES: usize = 1000000000;

/// Grid pitch of the initial layout, half a meter.
pub const FP_GRID_SPACING: i64 = 500000;

/// Half the grid pitch, the centring offset per grid slot.
pub const FP_GRID_HALF: i64 = 250000;

/// Altitude agents spawn and reset at.
pub const FP_SPAWN_Z: i64 = 100000;

/// The altitude a landing command steers toward.
pub const FP_LAND_TARGET_Z: i64 = 50000;

/// Floor of the altitude band a goto command accepts.
pub const FP_GOTO_Z_MIN: i64 = 100000;

/// Bound on commanded velocities, two meters per second.
pub const FP_VEL_LIMIT: i64 = 2000000;

/// The speed limit of a fresh swarm, two meters per second.
pub const FP_DEFAULT_MAX_VEL: i64 = 2000000;

/// Orbit angular speed of the monitor behaviour, radians per second.
pub const FP_ORBIT_SPEED: i64 = 300000;

/// Cosine and sine of the thirty-degree wedge of the V formation.
pub const FP_COS_WEDGE: i64 = 866025;

pub const FP_SIN_WEDGE: i64 = 500000;

/// Radius of the ring that a multi-agent waypoint command forms.
pub const FP_WAYPOINT_RADIUS: i64 = 800000;

/// Floor of the monitor orbit altitude.
pub const FP_MONITOR_ALT_MIN: i64 = 500000;

/// The observable state of one agent, as the query surface reports it.
#[derive(Clone, Copy, PartialEq, Eq, Structural, Debug)]
pub struct DroneState {
    pub id: usize,
    pub pos: Vec3,
    pub vel: Vec3,
    pub yaw: i64,
    pub battery: i64,
    pub healthy: bool,
}

/// The observable projection of an agent.
pub open spec fn state_of(d: Drone) -> DroneState {
    DroneState {
        id: d.id,
        pos: d.pos,
        vel: d.vel,
        yaw: d.yaw,
        battery: d.battery,
        healthy: d.healthy,
    }
}

/// Axis a line formation runs along.
#[derive(Clone, Copy, PartialEq, Eq, Structural, Debug)]
pub enum Axis {
    X,
    Y,
}

/// The swarm: the agent collection, the accumulated simulation time, the
/// fixed tick, the speed limit, and the shared monitor-orbit parameters.
pub struct Swarm {
    pub drones: Vec<Drone>,
    pub sim_time: i64,
    pub physics_dt: i64,
    pub max_velocity: i64,
    pub speed_multiplier: i64,
    pub monitor_center: Option<Vec3>,
    pub monitor_orbit_speed: i64,
}

/// The mathematical views of a run of agents.
pub open spec fn views_s(ds: Seq<Drone>) -> Seq<DroneM> {
    ds.map_values(|d: Drone| d@)
}

/// One tick applied to every agent independently, under one snapshot of the
/// broadcast parameters.
pub open spec fn tick_all_s(ds: Seq<DroneM>, dt: int, mv: int, mc: Option<V3>, mos: int) -> Seq<
    DroneM,
> {
    ds.map_values(|d: DroneM| step_s(d, dt, mv, mc, mos))
}

/// `k` ticks applied in sequence.
pub open spec fn tick_all_n_s(
    ds: Seq<DroneM>,
    k: nat,
    dt: int,
    mv: int,
    mc: Option<V3>,
    mos: int,
) -> Seq<DroneM>
    decreases k,
{
    if k == 0 {
        ds
    } else {
        tick_all_s(tick_all_n_s(ds, (k - 1) as nat, dt, mv, mc, mos), dt, mv, mc, mos)
    }
}

/// Simulation time after `k` ticks.
pub open spec fn time_after_s(t: int, dt: int, k: nat) -> int
    decreases k,
{
    if k == 0 {
        t
    } else {
        fp_add_s(time_after_s(t, dt, (k - 1) as nat), dt)
    }
}

/// The speed limit every agent sees in a tick.
pub open spec fn broadcast_max_vel_s(max_velocity: int, speed_multiplier: int) -> int {
    fp_mul_s(max_velocity, speed_multiplier)
}

/// What a takeoff command does to one agent: aim straight up (or down) to the
/// commanded altitude over the current spot, face forward, clear the
/// controller memory.
pub open spec fn takeoff_one_s(d: DroneM, altitude: int) -> DroneM {
    DroneM {
        target_pos: V3 { x: d.pos.x, y: d.pos.y, z: altitude },
        target_yaw: 0,
        mode: DroneMode::Takeoff,
        pid_integral: v3_zero(),
        pid_prev_error: v3_zero(),
        ..d
    }
}

/// What a land command does to one agent.
pub open spec fn land_one_s(d: DroneM) -> DroneM {
    DroneM {
        target_pos: V3 { x: d.pos.x, y: d.pos.y, z: FP_LAND_TARGET_Z as int },
        target_yaw: 0,
        mode: DroneMode::Landing,
        pid_integral: v3_zero(),
        pid_prev_error: v3_zero(),
        ..d
    }
}

/// What a hover command does to one agent: hold the current spot and heading.
/// The controller memory is left alone.
pub open spec fn hover_one_s(d: DroneM) -> DroneM {
    DroneM { target_pos: d.pos, target_yaw: d.yaw, mode: DroneMode::Hover, ..d }
}

/// What a goto command does to one agent: the target is clamped into the
/// command envelope, the controller memory is cleared.
pub open spec fn goto_one_s(d: DroneM, x: int, y: int, z: int, yaw: int) -> DroneM {
    DroneM {
        target_pos: V3 {
            x: clamp_s(x, -(FP_WORLD_XY as int), FP_WORLD_XY as int),
            y: clamp_s(y, -(FP_WORLD_XY as int), FP_WORLD_XY as int),
            z: clamp_s(z, FP_GOTO_Z_MIN as int, FP_WORLD_Z as int),
        },
        target_yaw: yaw,
        mode: DroneMode::Goto,
        pid_integral: v3_zero(),
        pid_prev_error: v3_zero(),
        ..d
    }
}

/// What a velocity command does to one agent.
pub open spec fn velocity_one_s(d: DroneM, vx: int, vy: int, vz: int, yaw_rate: int) -> DroneM {
    DroneM {
        target_vel: V3 {
            x: clamp_s(vx, -(FP_VEL_LIMIT as int), FP_VEL_LIMIT as int),
            y: clamp_s(vy, -(FP_VEL_LIMIT as int), FP_VEL_LIMIT as int),
            z: clamp_s(vz, -(FP_VEL_LIMIT as int), FP_VEL_LIMIT as int),
        },
        yaw_rate: clamp_s(yaw_rate, -(FP_PI as int), FP_PI as int),
        mode: DroneMode::Velocity,
        ..d
    }
}

/// A multi-id command applied to every listed agent, ids past the count
/// silently ignored.
pub open spec fn apply_ids_s(
    ds: Seq<DroneM>,
    ids: Seq<usize>,
    f: spec_fn(DroneM) -> DroneM,
) -> Seq<DroneM> {
    Seq::new(ds.len(), |j: int| if ids.contains(j as usize) { f(ds[j]) } else { ds[j] })
}

/// The starting angle of agent `i` of `n` on a circle, evenly spaced.
pub open spec fn circle_angle_s(i: int, n: int) -> int {
    tdiv(FP_TWO_PI as int * i, n)
}

/// Offset of agent `i` along a line formation.
pub open spec fn line_offset_s(i: int, n: int, spacing: int) -> int {
    fp_add_s(-tdiv(fp_scale_s(spacing, n - 1), 2), fp_scale_s(spacing, i))
}

/// Target of agent `i` on a line formation along the given axis.
pub open spec fn line_tx_s(c: V3, axis: Axis, i: int, n: int, spacing: int) -> int {
    match axis {
        Axis::X => fp_add_s(c.x, line_offset_s(i, n, spacing)),
        Axis::Y => c.x,
    }
}

pub open spec fn line_ty_s(c: V3, axis: Axis, i: int, n: int, spacing: int) -> int {
    match axis {
        Axis::X => c.y,
        Axis::Y => fp_add_s(c.y, line_offset_s(i, n, spacing)),
    }
}

/// Target of agent `i` on a circle formation.
pub open spec fn circle_x_s(cx: int, radius: int, i: int, n: int) -> int {
    fp_add_s(cx, fp_mul_s(radius, cos_fp_s(circle_angle_s(i, n))))
}

pub open spec fn circle_y_s(cy: int, radius: int, i: int, n: int) -> int {
    fp_add_s(cy, fp_mul_s(radius, sin_fp_s(circle_angle_s(i, n))))
}

/// Column count of a grid formation: the ceiling of the square root of the
/// agent count.
pub open spec fn grid_cols_s(n: int) -> int {
    ceil_sqrt_s(n)
}

pub open spec fn grid_rows_s(n: int) -> int {
    tdiv(n + grid_cols_s(n) - 1, grid_cols_s(n))
}

/// Target of agent `i` on a grid formation, centred on the middle of the
/// grid.
pub open spec fn grid_tx_s(cx: int, i: int, n: int, spacing: int) -> int {
    fp_add_s(
        fp_add_s(cx, -tdiv(fp_scale_s(spacing, grid_cols_s(n) - 1), 2)),
        fp_scale_s(spacing, i % grid_cols_s(n)),
    )
}

pub open spec fn grid_ty_s(cy: int, i: int, n: int, spacing: int) -> int {
    fp_add_s(
        fp_add_s(cy, -tdiv(fp_scale_s(spacing, grid_rows_s(n) - 1), 2)),
        fp_scale_s(spacing, tdiv(i, grid_cols_s(n))),
    )
}

/// Back-offset distance of follower `i` in a V formation.
pub open spec fn v_back_s(i: int, spacing: int) -> int {
    fp_scale_s(spacing, tdiv(i + 1, 2))
}

/// Target of follower `i` in a V formation: behind the leader along the
/// wedge, alternating sides.
pub open spec fn v_x_s(cx: int, i: int, spacing: int) -> int {
    fp_sub_s(cx, fp_mul_s(v_back_s(i, spacing), FP_COS_WEDGE as int))
}

pub open spec fn v_y_s(cy: int, i: int, spacing: int) -> int {
    if i % 2 == 0 {
        fp_add_s(cy, fp_mul_s(v_back_s(i, spacing), FP_SIN_WEDGE as int))
    } else {
        fp_sub_s(cy, fp_mul_s(v_back_s(i, spacing), FP_SIN_WEDGE as int))
    }
}

/// Number of altitude layers a monitor command spreads `n` agents over.
pub open spec fn monitor_layers_s(n: int) -> int {
    if n < 5 {
        n
    } else {
        5
    }
}

/// What a monitor command does to agent `i` of `n`: a cycling orbit radius,
/// an altitude layer around the commanded altitude floored at the minimum,
/// an evenly spaced starting angle, cleared controller memory.
pub open spec fn monitor_one_s(d: DroneM, i: int, n: int, z: int) -> DroneM {
    let layers = monitor_layers_s(n);
    let layer = i % layers;
    let alt = fp_add_s(z, layer * 600000 - layers * 300000);
    DroneM {
        monitor_radius: (1 + i % 3) * FP_ONE as int,
        monitor_altitude: if alt < FP_MONITOR_ALT_MIN as int {
            FP_MONITOR_ALT_MIN as int
        } else {
            alt
        },
        monitor_angle: circle_angle_s(i, n),
        mode: DroneMode::Monitor,
        pid_integral: v3_zero(),
        pid_prev_error: v3_zero(),
        ..d
    }
}

/// The x coordinate of spawn slot `i` on the initial grid of `n` agents.
pub open spec fn grid_spawn_x_s(i: int, n: int) -> int {
    (i % ceil_sqrt_s(n)) * FP_GRID_SPACING as int - ceil_sqrt_s(n) * FP_GRID_HALF as int
}

/// The y coordinate of spawn slot `i`.
pub open spec fn grid_spawn_y_s(i: int, n: int) -> int {
    tdiv(i, ceil_sqrt_s(n)) * FP_GRID_SPACING as int - ceil_sqrt_s(n) * FP_GRID_HALF as int
}

/// The full state of a freshly spawned agent in slot `i` of `n`.
pub open spec fn initial_drone_s(i: int, n: int) -> DroneM {
    crate::drone::new_drone_s(i, grid_spawn_x_s(i, n), grid_spawn_y_s(i, n), FP_SPAWN_Z as int)
}

/// What a reset does to one agent: back to its spawn slot, at rest, idle,
/// full battery, cleared controller memory. Targets and orbit parameters are
/// left as the last commands set them.
pub open spec fn reset_one_s(d: DroneM, i: int, n: int) -> DroneM {
    DroneM {
        pos: V3 { x: grid_spawn_x_s(i, n), y: grid_spawn_y_s(i, n), z: FP_SPAWN_Z as int },
        vel: v3_zero(),
        yaw: 0,
        yaw_rate: 0,
        mode: DroneMode::Idle,
        battery: FP_BATTERY_FULL as int,
        healthy: true,
        pid_integral: v3_zero(),
        pid_prev_error: v3_zero(),
        ..d
    }
}

/// What a battery update does to one agent: agents not idle drain by the
/// per-minute rate scaled to one second, floored at empty; idle agents keep
/// their charge.
pub open spec fn drain_one_s(d: DroneM, rate: int) -> DroneM {
    if d.mode == DroneMode::Idle {
        d
    } else {
        let b = crate::fixed::fp_sub_s(d.battery, tdiv(rate, 60));
        DroneM { battery: if b < 0 { 0 } else { b }, ..d }
    }
}

/// Everything but the agents is unchanged.
pub open spec fn same_params_s(a: Swarm, b: Swarm) -> bool {
    &&& a.sim_time == b.sim_time
    &&& a.physics_dt == b.physics_dt
    &&& a.max_velocity == b.max_velocity
    &&& a.speed_multiplier == b.speed_multiplier
    &&& a.monitor_center == b.monitor_center
    &&& a.monitor_orbit_speed == b.monitor_orbit_speed
}

/// The id of every agent of a swarm of `n`, in order.
fn all_ids(n: usize) -> (ids: Vec<usize>)
    ensures
        ids@.len() == n,
        forall|j: int| 0 <= j < n ==> ids@[j] == j,
{
    let mut ids: Vec<usize> = Vec::new();
    let mut i: usize = 0;
    while i < n
        invariant
            i <= n,
            ids@.len() == i,
            forall|j: int| 0 <= j < i ==> ids@[j] == j,
        decreases n - i,
    {
        ids.push(i);
        i += 1;
    }
    ids
}

impl Swarm {
    /// Every agent is well formed, the tick and the speed parameters sit in
    /// their envelopes, and the count admits the grid layout.
    pub open spec fn wf(self) -> bool {
        &&& forall|i: int|
            0 <= i < self.drones@.len() ==> wf_m(#[trigger] self.drones@[i]@)
        &&& self.drones@.len() <= MAX_DRONES
        &&& 0 <= self.physics_dt <= FP_ONE
        &&& 0 <= self.max_velocity <= FP_SAT
        &&& 0 <= self.speed_multiplier <= FP_SAT
        &&& fp_ok(self.sim_time as int)
        &&& opt_v3_ok(opt_v3(self.monitor_center))
        &&& fp_ok(self.monitor_orbit_speed as int)
    }

    /// Build a swarm of `num_drones` agents laid out on the initial grid,
    /// ticking at `physics_hz`.
    pub fn new(num_drones: usize, physics_hz: u32) -> (s: Swarm)
        requires
            num_drones <= MAX_DRONES,
            physics_hz >= 1,
        ensures
            s.wf(),
            s.drones@.len() == num_drones,
            forall|i: int|
                0 <= i < num_drones ==> (#[trigger] s.drones@[i])@ == initial_drone_s(
                    i,
                    num_drones as int,
                ),
            s.sim_time == 0,
            s.physics_dt as int == tdiv(FP_ONE as int, physics_hz as int),
            s.max_velocity == FP_DEFAULT_MAX_VEL,
            s.speed_multiplier == FP_ONE,
            s.monitor_center matches None,
            s.monitor_orbit_speed == FP_ORBIT_SPEED,
    {
        let drones = spawn_grid(num_drones);
        let dt = tdiv64(FP_ONE, physics_hz as i64);
        proof {
            lemma_div_pos_is_pos(FP_ONE as int, physics_hz as int);
            lemma_div_nonincreasing(FP_ONE as int, physics_hz as int);
        }
        Swarm {
            drones,
            sim_time: 0,
            physics_dt: dt,
            max_velocity: FP_DEFAULT_MAX_VEL,
            speed_multiplier: FP_ONE,
            monitor_center: None,
            monitor_orbit_speed: FP_ORBIT_SPEED,
        }
    }

    /// Simulation time, seconds.
    pub fn get_time(&self) -> (t: i64)
        ensures
            t == self.sim_time,
    {
        self.sim_time
    }

    /// Number of agents.
    pub fn num_drones(&self) -> (n: usize)
        ensures
            n == self.drones@.len(),
    {
        self.drones.len()
    }

    /// Scale the speed limit: the limit becomes twice the multiplier.
    pub fn set_speed(&mut self, multiplier: i64)
        requires
            old(self).wf(),
            0 <= multiplier <= FP_SAT,
        ensures
            final(self).wf(),
            final(self).speed_multiplier == multiplier,
            final(self).max_velocity as int == fp_mul_s(FP_DEFAULT_MAX_VEL as int, multiplier as int),
            *final(self) == (Swarm {
                speed_multiplier: multiplier,
                max_velocity: final(self).max_velocity,
                ..*old(self)
            }),
    {
        proof {
            lemma_fp_mul_nonneg(FP_DEFAULT_MAX_VEL as int, multiplier as int);
        }
        self.speed_multiplier = multiplier;
        self.max_velocity = fp_mul(FP_DEFAULT_MAX_VEL, multiplier);
    }

    /// Advance every agent by one fixed tick and return the new simulation
    /// time. The broadcast parameters are snapshotted once, so every agent
    /// sees the same values; no agent reads another's state, so the result
    /// is the pointwise `step_s` map whatever order the workers ran in.
    pub fn step(&mut self) -> (t: i64)
        requires
            old(self).wf(),
        ensures
            final(self).wf(),
            views_s(final(self).drones@) == tick_all_s(
                views_s(old(self).drones@),
                old(self).physics_dt as int,
                broadcast_max_vel_s(old(self).max_velocity as int, old(self).speed_multiplier as int),
                opt_v3(old(self).monitor_center),
                old(self).monitor_orbit_speed as int,
            ),
            final(self).sim_time as int == fp_add_s(old(self).sim_time as int, old(self).physics_dt as int),
            t == final(self).sim_time,
            final(self).physics_dt == old(self).physics_dt,
            final(self).max_velocity == old(self).max_velocity,
            final(self).speed_multiplier == old(self).speed_multiplier,
            final(self).monitor_center == old(self).monitor_center,
            final(self).monitor_orbit_speed == old(self).monitor_orbit_speed,
    {
        let dt = self.physics_dt;
        proof {
            lemma_fp_mul_nonneg(self.max_velocity as int, self.speed_multiplier as int);
        }
        let max_vel = fp_mul(self.max_velocity, self.speed_multiplier);
        let monitor_center = self.monitor_center;
        let monitor_orbit_speed = self.monitor_orbit_speed;
        step_all_parallel(&mut self.drones, dt, max_vel, monitor_center, monitor_orbit_speed);
        self.sim_time = fp_add(self.sim_time, dt);
        proof {
            assert(views_s(self.drones@) =~= tick_all_s(
                views_s(old(self).drones@),
                old(self).physics_dt as int,
                broadcast_max_vel_s(old(self).max_velocity as int, old(self).speed_multiplier as int),
                opt_v3(old(self).monitor_center),
                old(self).monitor_orbit_speed as int,
            ));
        }
        self.sim_time
    }

    /// Run `steps` ticks in sequence — error accumulates per fixed sub-step,
    /// never in one large step — and return the new simulation time.
    pub fn step_multiple(&mut self, steps: u32) -> (t: i64)
        requires
            old(self).wf(),
        ensures
            final(self).wf(),
            views_s(final(self).drones@) == tick_all_n_s(
                views_s(old(self).drones@),
                steps as nat,
                old(self).physics_dt as int,
                broadcast_max_vel_s(old(self).max_velocity as int, old(self).speed_multiplier as int),
                opt_v3(old(self).monitor_center),
                old(self).monitor_orbit_speed as int,
            ),
            final(self).sim_time as int == time_after_s(
                old(self).sim_time as int,
                old(self).physics_dt as int,
                steps as nat,
            ),
            t == final(self).sim_time,
            final(self).physics_dt == old(self).physics_dt,
            final(self).max_velocity == old(self).max_velocity,
            final(self).speed_multiplier == old(self).speed_multiplier,
            final(self).monitor_center == old(self).monitor_center,
            final(self).monitor_orbit_speed == old(self).monitor_orbit_speed,
    {
        let mut k: u32 = 0;
        while k < steps
            invariant
                self.wf(),
                k <= steps,
                views_s(self.drones@) == tick_all_n_s(
                    views_s(old(self).drones@),
                    k as nat,
                    old(self).physics_dt as int,
                    broadcast_max_vel_s(
                        old(self).max_velocity as int,
                        old(self).speed_multiplier as int,
                    ),
                    opt_v3(old(self).monitor_center),
                    old(self).monitor_orbit_speed as int,
                ),
                self.sim_time as int == time_after_s(
                    old(self).sim_time as int,
                    old(self).physics_dt as int,
                    k as nat,
                ),
                self.physics_dt == old(self).physics_dt,
                self.max_velocity == old(self).max_velocity,
                self.speed_multiplier == old(self).speed_multiplier,
                self.monitor_center == old(self).monitor_center,
                self.monitor_orbit_speed == old(self).monitor_orbit_speed,
            decreases steps - k,
        {
            self.step();
            k += 1;
        }
        self.sim_time
    }

    /// Command the listed agents to take off to the given altitude over
    /// their current spot. Ids at or past the agent count are ignored.
    pub fn takeoff(&mut self, ids: Vec<usize>, altitude: i64)
        requires
            old(self).wf(),
            fp_ok(altitude as int),
        ensures
            final(self).wf(),
            views_s(final(self).drones@) == apply_ids_s(
                views_s(old(self).drones@),
                ids@,
                (|d: DroneM| takeoff_one_s(d, altitude as int)),
            ),
            same_params_s(*final(self), *old(self)),
    {
        let n = self.drones.len();
        let mut k: usize = 0;
        while k < ids.len()
            invariant
                old(self).wf(),
                fp_ok(altitude as int),
                k <= ids@.len(),
                n == old(self).drones@.len(),
                self.drones@.len() == n,
                forall|j: int| 0 <= j < n ==> wf_m((#[trigger] self.drones@[j])@),
                forall|j: int|
                    0 <= j < n ==> (#[trigger] self.drones@[j])@ == (
                    if (exists|t: int| 0 <= t < k && ids@[t] == j as usize) {
                        takeoff_one_s(old(self).drones@[j]@, altitude as int)
                    } else {
                        old(self).drones@[j]@
                    }),
                same_params_s(*self, *old(self)),
            decreases ids@.len() - k,
        {
            let id = ids[k];
            if id < n {
                let ghost cur = self.drones@[id as int]@;
                let ghost jold = old(self).drones@[id as int]@;
                let mut d = self.drones[id];
                d.target_pos = Vec3 { x: d.pos.x, y: d.pos.y, z: altitude };
                d.target_yaw = 0;
                d.mode = DroneMode::Takeoff;
                d.reset_pid();
                proof {
                    assert(cur == self.drones@[id as int]@);
                    assert(d@ == takeoff_one_s(cur, altitude as int));
                    assert(takeoff_one_s(takeoff_one_s(jold, altitude as int), altitude as int)
                        == takeoff_one_s(jold, altitude as int));
                    if exists|t: int| 0 <= t < k && ids@[t] == id {
                        assert(cur == takeoff_one_s(jold, altitude as int));
                    } else {
                        assert(cur == jold);
                    }
                    assert(d@ == takeoff_one_s(jold, altitude as int));
                }
                self.drones.set(id, d);
            }
            k += 1;
        }
        proof {
            assert(views_s(self.drones@) =~= apply_ids_s(
                views_s(old(self).drones@),
                ids@,
                (|d: DroneM| takeoff_one_s(d, altitude as int)),
            ));
        }
    }

    /// Take every agent off to the given altitude.
    pub fn takeoff_all(&mut self, altitude: i64)
        requires
            old(self).wf(),
            fp_ok(altitude as int),
        ensures
            final(self).wf(),
            final(self).drones@.len() == old(self).drones@.len(),
            forall|j: int|
                0 <= j < old(self).drones@.len() ==> (#[trigger] final(self).drones@[j])@
                    == takeoff_one_s(old(self).drones@[j]@, altitude as int),
            same_params_s(*final(self), *old(self)),
    {
        let ids = all_ids(self.drones.len());
        self.takeoff(ids, altitude);
        proof {
            assert(views_s(self.drones@).len() == self.drones@.len());
            assert(views_s(old(self).drones@).len() == old(self).drones@.len());
            assert forall|j: int| 0 <= j < old(self).drones@.len() implies (
                #[trigger] self.drones@[j])@ == takeoff_one_s(
                old(self).drones@[j]@,
                altitude as int,
            ) by {
                assert(ids@[j] == j as usize);
                assert(ids@.contains(j as usize));
                assert(views_s(self.drones@)[j] == self.drones@[j]@);
            }
        }
    }

    /// Command the listed agents to land under their current spot.
    pub fn land(&mut self, ids: Vec<usize>)
        requires
            old(self).wf(),
        ensures
            final(self).wf(),
            views_s(final(self).drones@) == apply_ids_s(
                views_s(old(self).drones@),
                ids@,
                (|d: DroneM| land_one_s(d)),
            ),
            same_params_s(*final(self), *old(self)),
    {
        let n = self.drones.len();
        let mut k: usize = 0;
        while k < ids.len()
            invariant
                old(self).wf(),
                k <= ids@.len(),
                n == old(self).drones@.len(),
                self.drones@.len() == n,
                forall|j: int| 0 <= j < n ==> wf_m((#[trigger] self.drones@[j])@),
                forall|j: int|
                    0 <= j < n ==> (#[trigger] self.drones@[j])@ == (
                    if (exists|t: int| 0 <= t < k && ids@[t] == j as usize) {
                        land_one_s(old(self).drones@[j]@)
                    } else {
                        old(self).drones@[j]@
                    }),
                same_params_s(*self, *old(self)),
            decreases ids@.len() - k,
        {
            let id = ids[k];
            if id < n {
                let ghost cur = self.drones@[id as int]@;
                let ghost jold = old(self).drones@[id as int]@;
                let mut d = self.drones[id];
                d.target_pos = Vec3 { x: d.pos.x, y: d.pos.y, z: FP_LAND_TARGET_Z };
                d.target_yaw = 0;
                d.mode = DroneMode::Landing;
                d.reset_pid();
                proof {
                    assert(cur == self.drones@[id as int]@);
                    assert(d@ == land_one_s(cur));
                    assert(land_one_s(land_one_s(jold)) == land_one_s(jold));
                    if exists|t: int| 0 <= t < k && ids@[t] == id {
                        assert(cur == land_one_s(jold));
                    } else {
                        assert(cur == jold);
                    }
                    assert(d@ == land_one_s(jold));
                }
                self.drones.set(id, d);
            }
            k += 1;
        }
        proof {
            assert(views_s(self.drones@) =~= apply_ids_s(
                views_s(old(self).drones@),
                ids@,
                (|d: DroneM| land_one_s(d)),
            ));
        }
    }

    /// Land every agent.
    pub fn land_all(&mut self)
        requires
            old(self).wf(),
        ensures
            final(self).wf(),
            final(self).drones@.len() == old(self).drones@.len(),
            forall|j: int|
                0 <= j < old(self).drones@.len() ==> (#[trigger] final(self).drones@[j])@
                    == land_one_s(old(self).drones@[j]@),
            same_params_s(*final(self), *old(self)),
    {
        let ids = all_ids(self.drones.len());
        self.land(ids);
        proof {
            assert(views_s(self.drones@).len() == self.drones@.len());
            assert(views_s(old(self).drones@).len() == old(self).drones@.len());
            assert forall|j: int| 0 <= j < old(self).drones@.len() implies (
                #[trigger] self.drones@[j])@ == land_one_s(old(self).drones@[j]@) by {
                assert(ids@[j] == j as usize);
                assert(ids@.contains(j as usize));
                assert(views_s(self.drones@)[j] == self.drones@[j]@);
            }
        }
    }

    /// Command the listed agents to hold their current spot and heading.
    pub fn hover(&mut self, ids: Vec<usize>)
        requires
            old(self).wf(),
        ensures
            final(self).wf(),
            views_s(final(self).drones@) == apply_ids_s(
                views_s(old(self).drones@),
                ids@,
                (|d: DroneM| hover_one_s(d)),
            ),
            same_params_s(*final(self), *old(self)),
    {
        let n = self.drones.len();
        let mut k: usize = 0;
        while k < ids.len()
            invariant
                old(self).wf(),
                k <= ids@.len(),
                n == old(self).drones@.len(),
                self.drones@.len() == n,
                forall|j: int| 0 <= j < n ==> wf_m((#[trigger] self.drones@[j])@),
                forall|j: int|
                    0 <= j < n ==> (#[trigger] self.drones@[j])@ == (
                    if (exists|t: int| 0 <= t < k && ids@[t] == j as usize) {
                        hover_one_s(old(self).drones@[j]@)
                    } else {
                        old(self).drones@[j]@
                    }),
                same_params_s(*self, *old(self)),
            decreases ids@.len() - k,
        {
            let id = ids[k];
            if id < n {
                let ghost cur = self.drones@[id as int]@;
                let ghost jold = old(self).drones@[id as int]@;
                let mut d = self.drones[id];
                d.target_pos = d.pos;
                d.target_yaw = d.yaw;
                d.mode = DroneMode::Hover;
                proof {
                    assert(cur == self.drones@[id as int]@);
                    assert(d@ == hover_one_s(cur));
                    assert(hover_one_s(hover_one_s(jold)) == hover_one_s(jold));
                    if exists|t: int| 0 <= t < k && ids@[t] == id {
                        assert(cur == hover_one_s(jold));
                    } else {
                        assert(cur == jold);
                    }
                    assert(d@ == hover_one_s(jold));
                }
                self.drones.set(id, d);
            }
            k += 1;
        }
        proof {
            assert(views_s(self.drones@) =~= apply_ids_s(
                views_s(old(self).drones@),
                ids@,
                (|d: DroneM| hover_one_s(d)),
            ));
        }
    }

    /// Hold every agent where it is.
    pub fn hover_all(&mut self)
        requires
            old(self).wf(),
        ensures
            final(self).wf(),
            final(self).drones@.len() == old(self).drones@.len(),
            forall|j: int|
                0 <= j < old(self).drones@.len() ==> (#[trigger] final(self).drones@[j])@
                    == hover_one_s(old(self).drones@[j]@),
            same_params_s(*final(self), *old(self)),
    {
        let ids = all_ids(self.drones.len());
        self.hover(ids);
        proof {
            assert(views_s(self.drones@).len() == self.drones@.len());
            assert(views_s(old(self).drones@).len() == old(self).drones@.len());
            assert forall|j: int| 0 <= j < old(self).drones@.len() implies (
                #[trigger] self.drones@[j])@ == hover_one_s(old(self).drones@[j]@) by {
                assert(ids@[j] == j as usize);
                assert(ids@.contains(j as usize));
                assert(views_s(self.drones@)[j] == self.drones@[j]@);
            }
        }
    }

    /// Send one agent to a position; the target is clamped into the command
    /// envelope. An id at or past the agent count is ignored.
    pub fn goto(&mut self, id: usize, x: i64, y: i64, z: i64, yaw: i64)
        requires
            old(self).wf(),
            fp_ok(yaw as int),
        ensures
            final(self).wf(),
            views_s(final(self).drones@) == (
            if id < old(self).drones@.len() {
                views_s(old(self).drones@).update(
                    id as int,
                    goto_one_s(
                        old(self).drones@[id as int]@,
                        x as int,
                        y as int,
                        z as int,
                        yaw as int,
                    ),
                )
            } else {
                views_s(old(self).drones@)
            }),
            final(self).drones@.len() == old(self).drones@.len(),
            id < old(self).drones@.len() ==> final(self).drones@[id as int]@ == goto_one_s(
                old(self).drones@[id as int]@,
                x as int,
                y as int,
                z as int,
                yaw as int,
            ),
            forall|j: int|
                0 <= j < old(self).drones@.len() && j != id as int ==> final(self).drones@[j]
                    == old(self).drones@[j],
            same_params_s(*final(self), *old(self)),
    {
        if id < self.drones.len() {
            let mut d = self.drones[id];
            d.target_pos = Vec3 {
                x: clamp64(x, -FP_WORLD_XY, FP_WORLD_XY),
                y: clamp64(y, -FP_WORLD_XY, FP_WORLD_XY),
                z: clamp64(z, FP_GOTO_Z_MIN, FP_WORLD_Z),
            };
            d.target_yaw = yaw;
            d.mode = DroneMode::Goto;
            d.reset_pid();
            self.drones.set(id, d);
            proof {
                assert(views_s(self.drones@) =~= views_s(old(self).drones@).update(
                    id as int,
                    goto_one_s(
                        old(self).drones@[id as int]@,
                        x as int,
                        y as int,
                        z as int,
                        yaw as int,
                    ),
                ));
            }
        } else {
            proof {
                assert(views_s(self.drones@) =~= views_s(old(self).drones@));
            }
        }
    }

    /// Command one agent to a velocity; components are clamped to the
    /// velocity bound, the yaw rate to half a turn per second.
    pub fn velocity(&mut self, id: usize, vx: i64, vy: i64, vz: i64, yaw_rate: i64)
        requires
            old(self).wf(),
        ensures
            final(self).wf(),
            views_s(final(self).drones@) == (
            if id < old(self).drones@.len() {
                views_s(old(self).drones@).update(
                    id as int,
                    velocity_one_s(
                        old(self).drones@[id as int]@,
                        vx as int,
                        vy as int,
                        vz as int,
                        yaw_rate as int,
                    ),
                )
            } else {
                views_s(old(self).drones@)
            }),
            final(self).drones@.len() == old(self).drones@.len(),
            id < old(self).drones@.len() ==> final(self).drones@[id as int]@ == velocity_one_s(
                old(self).drones@[id as int]@,
                vx as int,
                vy as int,
                vz as int,
                yaw_rate as int,
            ),
            forall|j: int|
                0 <= j < old(self).drones@.len() && j != id as int ==> final(self).drones@[j]
                    == old(self).drones@[j],
            same_params_s(*final(self), *old(self)),
    {
        if id < self.drones.len() {
            let mut d = self.drones[id];
            d.target_vel = Vec3 {
                x: clamp64(vx, -FP_VEL_LIMIT, FP_VEL_LIMIT),
                y: clamp64(vy, -FP_VEL_LIMIT, FP_VEL_LIMIT),
                z: clamp64(vz, -FP_VEL_LIMIT, FP_VEL_LIMIT),
            };
            d.yaw_rate = clamp64(yaw_rate, -FP_PI, FP_PI);
            d.mode = DroneMode::Velocity;
            self.drones.set(id, d);
            proof {
                assert(views_s(self.drones@) =~= views_s(old(self).drones@).update(
                    id as int,
                    velocity_one_s(
                        old(self).drones@[id as int]@,
                        vx as int,
                        vy as int,
                        vz as int,
                        yaw_rate as int,
                    ),
                ));
            }
        } else {
            proof {
                assert(views_s(self.drones@) =~= views_s(old(self).drones@));
            }
        }
    }

    /// Lay the agents out on a line along the given axis, evenly spaced and
    /// centred on `center`, and send each to its slot.
    pub fn formation_line(&mut self, center: Vec3, spacing: i64, axis: Axis)
        requires
            old(self).wf(),
        ensures
            final(self).wf(),
            final(self).drones@.len() == old(self).drones@.len(),
            forall|i: int|
                0 <= i < old(self).drones@.len() ==> (#[trigger] final(self).drones@[i])@
                    == goto_one_s(
                    old(self).drones@[i]@,
                    line_tx_s(center@, axis, i, old(self).drones@.len() as int, spacing as int),
                    line_ty_s(center@, axis, i, old(self).drones@.len() as int, spacing as int),
                    center@.z,
                    0,
                ),
            same_params_s(*final(self), *old(self)),
    {
        let n = self.drones.len();
        let neg_half = -tdiv64(fp_scale(spacing, (n as i64) - 1), 2);
        let mut i: usize = 0;
        while i < n
            invariant
                old(self).wf(),
                self.wf(),
                i <= n,
                n == old(self).drones@.len(),
                self.drones@.len() == n,
                neg_half as int == -tdiv(fp_scale_s(spacing as int, n as int - 1), 2),
                forall|j: int|
                    0 <= j < i ==> (#[trigger] self.drones@[j])@ == goto_one_s(
                        old(self).drones@[j]@,
                        line_tx_s(center@, axis, j, n as int, spacing as int),
                        line_ty_s(center@, axis, j, n as int, spacing as int),
                        center@.z,
                        0,
                    ),
                forall|j: int| i <= j < n ==> self.drones@[j] == old(self).drones@[j],
                same_params_s(*self, *old(self)),
            decreases n - i,
        {
            let off = fp_add(neg_half, fp_scale(spacing, i as i64));
            let (x, y) = match axis {
                Axis::X => (fp_add(center.x, off), center.y),
                Axis::Y => (center.x, fp_add(center.y, off)),
            };
            self.goto(i, x, y, center.z, 0);
            i += 1;
        }
    }

    /// Lay the agents out on a circle of the given radius around `center`,
    /// evenly spaced by angle, and send each to its slot.
    pub fn formation_circle(&mut self, center: Vec3, radius: i64)
        requires
            old(self).wf(),
        ensures
            final(self).wf(),
            final(self).drones@.len() == old(self).drones@.len(),
            forall|i: int|
                0 <= i < old(self).drones@.len() ==> (#[trigger] final(self).drones@[i])@
                    == goto_one_s(
                    old(self).drones@[i]@,
                    circle_x_s(center@.x, radius as int, i, old(self).drones@.len() as int),
                    circle_y_s(center@.y, radius as int, i, old(self).drones@.len() as int),
                    center@.z,
                    0,
                ),
            same_params_s(*final(self), *old(self)),
    {
        let n = self.drones.len();
        let mut i: usize = 0;
        while i < n
            invariant
                old(self).wf(),
                self.wf(),
                i <= n,
                n == old(self).drones@.len(),
                self.drones@.len() == n,
                forall|j: int|
                    0 <= j < i ==> (#[trigger] self.drones@[j])@ == goto_one_s(
                        old(self).drones@[j]@,
                        circle_x_s(center@.x, radius as int, j, n as int),
                        circle_y_s(center@.y, radius as int, j, n as int),
                        center@.z,
                        0,
                    ),
                forall|j: int| i <= j < n ==> self.drones@[j] == old(self).drones@[j],
                same_params_s(*self, *old(self)),
            decreases n - i,
        {
            let angle = tdiv64(FP_TWO_PI * (i as i64), n as i64);
            let x = fp_add(center.x, fp_mul(radius, crate::fixed::cos_fp(angle)));
            let y = fp_add(center.y, fp_mul(radius, crate::fixed::sin_fp(angle)));
            self.goto(i, x, y, center.z, 0);
            i += 1;
        }
    }

    /// Lay the agents out on a near-square grid centred on `center` and send
    /// each to its slot.
    pub fn formation_grid(&mut self, center: Vec3, spacing: i64)
        requires
            old(self).wf(),
        ensures
            final(self).wf(),
            final(self).drones@.len() == old(self).drones@.len(),
            forall|i: int|
                0 <= i < old(self).drones@.len() ==> (#[trigger] final(self).drones@[i])@
                    == goto_one_s(
                    old(self).drones@[i]@,
                    grid_tx_s(center@.x, i, old(self).drones@.len() as int, spacing as int),
                    grid_ty_s(center@.y, i, old(self).drones@.len() as int, spacing as int),
                    center@.z,
                    0,
                ),
            same_params_s(*final(self), *old(self)),
    {
        let n = self.drones.len();
        if n == 0 {
            return ;
        }
        let cols = ceil_sqrt(n);
        let rows = (n + cols - 1) / cols;
        let neg_half_x = -tdiv64(fp_scale(spacing, (cols as i64) - 1), 2);
        let neg_half_y = -tdiv64(fp_scale(spacing, (rows as i64) - 1), 2);
        let mut i: usize = 0;
        while i < n
            invariant
                old(self).wf(),
                self.wf(),
                i <= n,
                n == old(self).drones@.len(),
                self.drones@.len() == n,
                n >= 1,
                cols as int == grid_cols_s(n as int),
                cols >= 1,
                cols <= 65536,
                rows as int == grid_rows_s(n as int),
                neg_half_x as int == -tdiv(fp_scale_s(spacing as int, grid_cols_s(n as int) - 1), 2),
                neg_half_y as int == -tdiv(fp_scale_s(spacing as int, grid_rows_s(n as int) - 1), 2),
                forall|j: int|
                    0 <= j < i ==> (#[trigger] self.drones@[j])@ == goto_one_s(
                        old(self).drones@[j]@,
                        grid_tx_s(center@.x, j, n as int, spacing as int),
                        grid_ty_s(center@.y, j, n as int, spacing as int),
                        center@.z,
                        0,
                    ),
                forall|j: int| i <= j < n ==> self.drones@[j] == old(self).drones@[j],
                same_params_s(*self, *old(self)),
            decreases n - i,
        {
            let row = i / cols;
            let col = i % cols;
            let x = fp_add(fp_add(center.x, neg_half_x), fp_scale(spacing, col as i64));
            let y = fp_add(fp_add(center.y, neg_half_y), fp_scale(spacing, row as i64));
            proof {
                lemma_div_nonincreasing(i as int, cols as int);
                assert(col as int == i as int % grid_cols_s(n as int));
                assert(row as int == tdiv(i as int, grid_cols_s(n as int)));
                assert(x as int == grid_tx_s(center@.x, i as int, n as int, spacing as int));
                assert(y as int == grid_ty_s(center@.y, i as int, n as int, spacing as int));
            }
            self.goto(i, x, y, center.z, 0);
            i += 1;
        }
    }

    /// Lay the agents out in a V: the leader on `center`, followers behind
    /// it along a thirty-degree wedge, alternating sides.
    pub fn formation_v(&mut self, center: Vec3, spacing: i64)
        requires
            old(self).wf(),
        ensures
            final(self).wf(),
            final(self).drones@.len() == old(self).drones@.len(),
            old(self).drones@.len() > 0 ==> (#[trigger] final(self).drones@[0])@ == goto_one_s(
                old(self).drones@[0]@,
                center@.x,
                center@.y,
                center@.z,
                0,
            ),
            forall|i: int|
                1 <= i < old(self).drones@.len() ==> (#[trigger] final(self).drones@[i])@
                    == goto_one_s(
                    old(self).drones@[i]@,
                    v_x_s(center@.x, i, spacing as int),
                    v_y_s(center@.y, i, spacing as int),
                    center@.z,
                    0,
                ),
            same_params_s(*final(self), *old(self)),
    {
        let n = self.drones.len();
        if n > 0 {
            self.goto(0, center.x, center.y, center.z, 0);
        }
        let mut i: usize = 1;
        while i < n
            invariant
                old(self).wf(),
                self.wf(),
                1 <= i <= n || (n == 0 && i == 1),
                n == old(self).drones@.len(),
                self.drones@.len() == n,
                n > 0 ==> (#[trigger] self.drones@[0])@ == goto_one_s(
                    old(self).drones@[0]@,
                    center@.x,
                    center@.y,
                    center@.z,
                    0,
                ),
                forall|j: int|
                    1 <= j < i ==> (#[trigger] self.drones@[j])@ == goto_one_s(
                        old(self).drones@[j]@,
                        v_x_s(center@.x, j, spacing as int),
                        v_y_s(center@.y, j, spacing as int),
                        center@.z,
                        0,
                    ),
                forall|j: int| i <= j < n ==> self.drones@[j] == old(self).drones@[j],
                same_params_s(*self, *old(self)),
            decreases n - i,
        {
            let back = fp_scale(spacing, ((i + 1) / 2) as i64);
            let dx = fp_mul(back, FP_COS_WEDGE);
            let dy = fp_mul(back, FP_SIN_WEDGE);
            let x = crate::fixed::fp_sub(center.x, dx);
            let y = if i % 2 == 0 {
                fp_add(center.y, dy)
            } else {
                crate::fixed::fp_sub(center.y, dy)
            };
            self.goto(i, x, y, center.z, 0);
            i += 1;
        }
    }

    /// Send the swarm to a waypoint: a single agent flies straight to it,
    /// several agents form a ring around it.
    pub fn waypoint(&mut self, x: i64, y: i64, z: i64)
        requires
            old(self).wf(),
        ensures
            final(self).wf(),
            final(self).drones@.len() == old(self).drones@.len(),
            old(self).drones@.len() == 1 ==> views_s(final(self).drones@) == views_s(
                old(self).drones@,
            ).update(0, goto_one_s(old(self).drones@[0]@, x as int, y as int, z as int, 0)),
            old(self).drones@.len() != 1 ==> forall|i: int|
                0 <= i < old(self).drones@.len() ==> (#[trigger] final(self).drones@[i])@
                    == goto_one_s(
                    old(self).drones@[i]@,
                    circle_x_s(x as int, FP_WAYPOINT_RADIUS as int, i, old(self).drones@.len() as int),
                    circle_y_s(y as int, FP_WAYPOINT_RADIUS as int, i, old(self).drones@.len() as int),
                    z as int,
                    0,
                ),
            same_params_s(*final(self), *old(self)),
    {
        if self.drones.len() == 1 {
            self.goto(0, x, y, z, 0);
        } else {
            self.formation_circle(Vec3 { x, y, z }, FP_WAYPOINT_RADIUS);
        }
    }

    /// Put the whole swarm on orbital surveillance around a centre: each
    /// agent gets a cycling orbit radius, an altitude layer, and an evenly
    /// spaced starting angle.
    pub fn monitor(&mut self, x: i64, y: i64, z: i64)
        requires
            old(self).wf(),
            fp_ok(x as int),
            fp_ok(y as int),
            fp_ok(z as int),
        ensures
            final(self).wf(),
            final(self).drones@.len() == old(self).drones@.len(),
            forall|i: int|
                0 <= i < old(self).drones@.len() ==> (#[trigger] final(self).drones@[i])@
                    == monitor_one_s(old(self).drones@[i]@, i, old(self).drones@.len() as int, z as int),
            final(self).monitor_center == Some(Vec3 { x, y, z }),
            final(self).sim_time == old(self).sim_time,
            final(self).physics_dt == old(self).physics_dt,
            final(self).max_velocity == old(self).max_velocity,
            final(self).speed_multiplier == old(self).speed_multiplier,
            final(self).monitor_orbit_speed == old(self).monitor_orbit_speed,
    {
        self.monitor_center = Some(Vec3 { x, y, z });
        let n = self.drones.len();
        let mut i: usize = 0;
        while i < n
            invariant
                old(self).wf(),
                fp_ok(z as int),
                i <= n,
                n == old(self).drones@.len(),
                self.drones@.len() == n,
                forall|j: int| 0 <= j < n ==> wf_m((#[trigger] self.drones@[j])@),
                forall|j: int|
                    0 <= j < i ==> (#[trigger] self.drones@[j])@ == monitor_one_s(
                        old(self).drones@[j]@,
                        j,
                        n as int,
                        z as int,
                    ),
                forall|j: int| i <= j < n ==> self.drones@[j] == old(self).drones@[j],
                self.monitor_center == Some(Vec3 { x, y, z }),
                self.sim_time == old(self).sim_time,
                self.physics_dt == old(self).physics_dt,
                self.max_velocity == old(self).max_velocity,
                self.speed_multiplier == old(self).speed_multiplier,
                self.monitor_orbit_speed == old(self).monitor_orbit_speed,
            decreases n - i,
        {
            let mut d = self.drones[i];
            d.monitor_radius = (1 + (i % 3) as i64) * FP_ONE;
            let layers = if n < 5 {
                n
            } else {
                5
            };
            let layer = i % layers;
            let alt = fp_add(z, (layer as i64) * 600000 - (layers as i64) * 300000);
            d.monitor_altitude = if alt < FP_MONITOR_ALT_MIN {
                FP_MONITOR_ALT_MIN
            } else {
                alt
            };
            proof {
                assert(FP_TWO_PI as int * i < n as int * FP_TWO_PI as int);
                lemma_tdiv_below(FP_TWO_PI as int * i, n as int, FP_TWO_PI as int);
            }
            d.monitor_angle = tdiv64(FP_TWO_PI * (i as i64), n as i64);
            d.mode = DroneMode::Monitor;
            d.reset_pid();
            self.drones.set(i, d);
            i += 1;
        }
    }

    /// Restore every agent to its spawn slot, at rest, idle and fully
    /// charged, and restart the clock. The agent count is kept; targets and
    /// orbit parameters stay as the last commands set them, but the shared
    /// monitor centre is dropped.
    pub fn reset(&mut self)
        requires
            old(self).wf(),
        ensures
            final(self).wf(),
            final(self).drones@.len() == old(self).drones@.len(),
            forall|i: int|
                0 <= i < old(self).drones@.len() ==> (#[trigger] final(self).drones@[i])@
                    == reset_one_s(old(self).drones@[i]@, i, old(self).drones@.len() as int),
            final(self).sim_time == 0,
            final(self).monitor_center matches None,
            final(self).physics_dt == old(self).physics_dt,
            final(self).max_velocity == old(self).max_velocity,
            final(self).speed_multiplier == old(self).speed_multiplier,
            final(self).monitor_orbit_speed == old(self).monitor_orbit_speed,
    {
        let n = self.drones.len();
        let g = ceil_sqrt(n);
        let mut i: usize = 0;
        while i < n
            invariant
                old(self).wf(),
                is_ceil_sqrt(n as int, g as int),
                g as int == ceil_sqrt_s(n as int),
                g <= 65536,
                i <= n,
                n == old(self).drones@.len(),
                n <= MAX_DRONES,
                self.drones@.len() == n,
                forall|j: int| 0 <= j < n ==> wf_m((#[trigger] self.drones@[j])@),
                forall|j: int|
                    0 <= j < i ==> (#[trigger] self.drones@[j])@ == reset_one_s(
                        old(self).drones@[j]@,
                        j,
                        n as int,
                    ),
                forall|j: int| i <= j < n ==> self.drones@[j] == old(self).drones@[j],
                same_params_s(*self, *old(self)),
            decreases n - i,
        {
            proof {
                assert(g >= 1);
                assert(i < n <= g as int * g as int);
                lemma_tdiv_below(i as int, g as int, g as int);
                vstd::arithmetic::div_mod::lemma_mod_bound(i as int, g as int);
            }
            let row = i / g;
            let col = i % g;
            let x: i64 = (col as i64) * FP_GRID_SPACING - (g as i64) * FP_GRID_HALF;
            let y: i64 = (row as i64) * FP_GRID_SPACING - (g as i64) * FP_GRID_HALF;
            let mut d = self.drones[i];
            d.pos = Vec3 { x, y, z: FP_SPAWN_Z };
            d.vel = Vec3 { x: 0, y: 0, z: 0 };
            d.yaw = 0;
            d.yaw_rate = 0;
            d.mode = DroneMode::Idle;
            d.battery = FP_BATTERY_FULL;
            d.healthy = true;
            d.reset_pid();
            self.drones.set(i, d);
            i += 1;
        }
        self.sim_time = 0;
        self.monitor_center = None;
    }

    /// Discard the agents and build a fresh swarm of `num_drones` on the
    /// initial grid; the clock restarts and the shared monitor centre is
    /// dropped, while the tick and speed settings are kept.
    pub fn respawn(&mut self, num_drones: usize)
        requires
            old(self).wf(),
            num_drones <= MAX_DRONES,
        ensures
            final(self).wf(),
            final(self).drones@.len() == num_drones,
            forall|i: int|
                0 <= i < num_drones ==> (#[trigger] final(self).drones@[i])@ == initial_drone_s(
                    i,
                    num_drones as int,
                ),
            final(self).sim_time == 0,
            final(self).monitor_center matches None,
            final(self).physics_dt == old(self).physics_dt,
            final(self).max_velocity == old(self).max_velocity,
            final(self).speed_multiplier == old(self).speed_multiplier,
            final(self).monitor_orbit_speed == old(self).monitor_orbit_speed,
    {
        self.drones = spawn_grid(num_drones);
        self.sim_time = 0;
        self.monitor_center = None;
    }

    /// Drain the battery of every agent that is not idle by the per-minute
    /// rate scaled to one second, floored at empty. A nonnegative rate never
    /// raises any battery.
    pub fn update_batteries(&mut self, drain_rate: i64)
        requires
            old(self).wf(),
            drain_rate > i64::MIN,
        ensures
            final(self).wf(),
            final(self).drones@.len() == old(self).drones@.len(),
            forall|i: int|
                0 <= i < old(self).drones@.len() ==> (#[trigger] final(self).drones@[i])@
                    == drain_one_s(old(self).drones@[i]@, drain_rate as int),
            drain_rate >= 0 ==> forall|i: int|
                0 <= i < old(self).drones@.len() ==> (#[trigger] final(self).drones@[i])@.battery
                    <= old(self).drones@[i]@.battery,
            same_params_s(*final(self), *old(self)),
    {
        let per_second = tdiv64(drain_rate, 60);
        proof {
            if drain_rate >= 0 {
                lemma_div_pos_is_pos(drain_rate as int, 60);
            }
        }
        let n = self.drones.len();
        let mut i: usize = 0;
        while i < n
            invariant
                old(self).wf(),
                per_second as int == tdiv(drain_rate as int, 60),
                drain_rate >= 0 ==> per_second >= 0,
                i <= n,
                n == old(self).drones@.len(),
                self.drones@.len() == n,
                forall|j: int| 0 <= j < n ==> wf_m((#[trigger] self.drones@[j])@),
                forall|j: int|
                    0 <= j < i ==> (#[trigger] self.drones@[j])@ == drain_one_s(
                        old(self).drones@[j]@,
                        drain_rate as int,
                    ),
                drain_rate >= 0 ==> forall|j: int|
                    0 <= j < i ==> (#[trigger] self.drones@[j])@.battery <= old(
                        self,
                    ).drones@[j]@.battery,
                forall|j: int| i <= j < n ==> self.drones@[j] == old(self).drones@[j],
                same_params_s(*self, *old(self)),
            decreases n - i,
        {
            let mut d = self.drones[i];
            if !matches!(d.mode, DroneMode::Idle) {
                let b = crate::fixed::fp_sub(d.battery, per_second);
                d.battery = if b < 0 {
                    0
                } else {
                    b
                };
                self.drones.set(i, d);
            }
            i += 1;
        }
    }

    /// The observable state of every agent, in id order.
    pub fn get_states(&self) -> (r: Vec<DroneState>)
        ensures
            r@.len() == self.drones@.len(),
            forall|i: int|
                0 <= i < self.drones@.len() ==> r@[i] == state_of(#[trigger] self.drones@[i]),
    {
        let mut r: Vec<DroneState> = Vec::new();
        let mut i: usize = 0;
        while i < self.drones.len()
            invariant
                i <= self.drones@.len(),
                r@.len() == i,
                forall|j: int|
                    0 <= j < i ==> r@[j] == state_of(#[trigger] self.drones@[j]),
            decreases self.drones@.len() - i,
        {
            let d = self.drones[i];
            r.push(
                DroneState {
                    id: d.id,
                    pos: d.pos,
                    vel: d.vel,
                    yaw: d.yaw,
                    battery: d.battery,
                    healthy: d.healthy,
                },
            );
            i += 1;
        }
        r
    }
}

/// Fan one tick out over all agents on a parallel worker pool.
///
/// Relies on rayon's `par_iter_mut().for_each`: it runs the closure exactly
/// once on every element of the vector, each worker holding exclusive access
/// to its element, and leaves the length and order unchanged. The closure
/// calls the verified `Drone::step`, whose contract makes each new element
/// exactly `step_s` of the old one — so the outcome is the same pointwise
/// update a sequential loop would produce, whatever the scheduling.
#[verifier::external_body]
fn step_all_parallel(
    drones: &mut Vec<Drone>,
    dt: i64,
    max_vel: i64,
    monitor_center: Option<Vec3>,
    monitor_orbit_speed: i64,
)
    requires
        0 <= dt <= FP_ONE,
        0 <= max_vel <= FP_SAT,
        opt_v3_ok(opt_v3(monitor_center)),
        fp_ok(monitor_orbit_speed as int),
        forall|i: int| 0 <= i < old(drones)@.len() ==> wf_m((#[trigger] old(drones)@[i])@),
    ensures
        final(drones)@.len() == old(drones)@.len(),
        forall|i: int|
            0 <= i < old(drones)@.len() ==> (#[trigger] final(drones)@[i])@ == step_s(
                old(drones)@[i]@,
                dt as int,
                max_vel as int,
                opt_v3(monitor_center),
                monitor_orbit_speed as int,
            ),
        forall|i: int| 0 <= i < old(drones)@.len() ==> wf_m((#[trigger] final(drones)@[i])@),
{
    drones.par_iter_mut().for_each(
        |d| d.step(dt, max_vel, monitor_center, monitor_orbit_speed),
    );
}

/// Build the initial grid: agents in row-major slots half a meter apart,
/// centred on the origin, on the spawn altitude.
fn spawn_grid(num_drones: usize) -> (drones: Vec<Drone>)
    requires
        num_drones <= MAX_DRONES,
    ensures
        drones@.len() == num_drones,
        forall|i: int|
            0 <= i < num_drones ==> (#[trigger] drones@[i])@ == initial_drone_s(
                i,
                num_drones as int,
            ),
        forall|i: int| 0 <= i < num_drones ==> wf_m((#[trigger] drones@[i])@),
{
    let g = ceil_sqrt(num_drones);
    let mut drones: Vec<Drone> = Vec::new();
    let mut i: usize = 0;
    while i < num_drones
        invariant
            num_drones <= MAX_DRONES,
            is_ceil_sqrt(num_drones as int, g as int),
            g as int == ceil_sqrt_s(num_drones as int),
            g <= 65536,
            i <= num_drones,
            drones@.len() == i,
            forall|j: int|
                0 <= j < i ==> (#[trigger] drones@[j])@ == initial_drone_s(j, num_drones as int),
            forall|j: int| 0 <= j < i ==> wf_m((#[trigger] drones@[j])@),
        decreases num_drones - i,
    {
        proof {
            assert(g >= 1);
            assert(i < num_drones <= g as int * g as int);
            lemma_tdiv_below(i as int, g as int, g as int);
            vstd::arithmetic::div_mod::lemma_mod_bound(i as int, g as int);
        }
        let row = i / g;
        let col = i % g;
        let x: i64 = (col as i64) * FP_GRID_SPACING - (g as i64) * FP_GRID_HALF;
        let y: i64 = (row as i64) * FP_GRID_SPACING - (g as i64) * FP_GRID_HALF;
        let d = Drone::new(i, x, y, FP_SPAWN_Z);
        drones.push(d);
        i += 1;
    }
    drones
}

} // verus!
