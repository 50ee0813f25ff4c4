//! The laws the library states of itself, proved over the tick and command
//! models: the flight-envelope clamp and the anti-windup bound hold after
//! any number of ticks, hovering twice is hovering once, a reset restores
//! the spawn layout whatever happened before, a landing agent settles to
//! idle exactly when it drops below the landing altitude, and a tick is a
//! pointwise map, so its outcome cannot depend on scheduling order.

use crate::drone::{
    in_flight_envelope, integral_ok, opt_v3_ok, position_mode_s, step_s, wf_m, DroneM, DroneMode,
    V3, FP_LAND_EPS,
};
use crate::fixed::{fp_ok, FP_ONE, FP_SAT};
use crate::swarm::{
    apply_ids_s, hover_one_s, initial_drone_s, reset_one_s, tick_all_n_s, tick_all_s,
};
use vstd::arithmetic::div_mod::lemma_mod_bound;
use vstd::prelude::*;

verus! {

/// The position loop and the integrator keep an agent well formed.
#[verifier::rlimit(100)]
#[verifier::spinoff_prover]
proof fn lemma_pid_apply_wf(d: DroneM, dt: int, mv: int)
    requires
        wf_m(d),
        0 <= dt <= FP_ONE as int,
        0 <= mv <= FP_SAT as int,
    ensures
        wf_m(
            crate::drone::apply_velocity_s(
                crate::drone::pid_advance_s(d, dt),
                crate::drone::pid_cmd3_s(d, dt, mv),
                dt,
            ),
        ),
{
}

/// A position-seeking tick keeps an agent well formed.
#[verifier::rlimit(100)]
#[verifier::spinoff_prover]
proof fn lemma_position_mode_wf(d: DroneM, dt: int, mv: int)
    requires
        wf_m(d),
        0 <= dt <= FP_ONE as int,
        0 <= mv <= FP_SAT as int,
    ensures
        wf_m(position_mode_s(d, dt, mv)),
        integral_ok(position_mode_s(d, dt, mv).pid_integral),
{
    reveal(crate::drone::position_mode_s);
    lemma_pid_apply_wf(d, dt, mv);
}

/// A monitor tick keeps an agent well formed.
#[verifier::rlimit(100)]
#[verifier::spinoff_prover]
proof fn lemma_monitor_mode_wf(d: DroneM, dt: int, mv: int, c: V3, mos: int)
    requires
        wf_m(d),
        0 <= dt <= FP_ONE as int,
        0 <= mv <= FP_SAT as int,
        crate::drone::v3_ok(c),
        fp_ok(mos),
    ensures
        wf_m(crate::drone::monitor_mode_s(d, dt, mv, c, mos)),
        integral_ok(crate::drone::monitor_mode_s(d, dt, mv, c, mos).pid_integral),
{
    reveal(crate::drone::monitor_mode_s);
    let a1 = crate::fixed::fp_add_s(d.monitor_angle, crate::fixed::fp_mul_s(mos, dt));
    let angle = if a1 > crate::fixed::FP_TWO_PI as int {
        a1 - crate::fixed::FP_TWO_PI as int
    } else {
        a1
    };
    lemma_mod_bound(angle - crate::fixed::FP_PI as int, crate::fixed::FP_TWO_PI as int);
    let d1 = DroneM {
        monitor_angle: angle,
        target_pos: V3 {
            x: crate::fixed::fp_add_s(
                c.x,
                crate::fixed::fp_mul_s(d.monitor_radius, crate::fixed::cos_fp_s(angle)),
            ),
            y: crate::fixed::fp_add_s(
                c.y,
                crate::fixed::fp_mul_s(d.monitor_radius, crate::fixed::sin_fp_s(angle)),
            ),
            z: d.monitor_altitude,
        },
        target_yaw: crate::fixed::wrap_pi_s(angle - crate::fixed::FP_PI as int),
        ..d
    };
    assert(wf_m(d1));
    lemma_pid_apply_wf(d1, dt, mv);
}

/// The yaw loop, the envelope clamp and the health derivation keep an agent
/// well formed and land the position inside the flight envelope.
#[verifier::rlimit(100)]
#[verifier::spinoff_prover]
proof fn lemma_finish_wf(d: DroneM, dt: int)
    requires
        wf_m(d),
        0 <= dt <= FP_ONE as int,
    ensures
        wf_m(crate::drone::clamp_health_s(crate::drone::yaw_phase_s(d, dt))),
        in_flight_envelope(crate::drone::clamp_health_s(crate::drone::yaw_phase_s(d, dt)).pos),
        crate::drone::clamp_health_s(crate::drone::yaw_phase_s(d, dt)).pid_integral
            == d.pid_integral,
        crate::drone::clamp_health_s(crate::drone::yaw_phase_s(d, dt)).mode == d.mode,
{
    lemma_mod_bound(d.target_yaw - d.yaw, crate::fixed::FP_TWO_PI as int);
}

/// One tick keeps an agent well formed; it lands the position inside the
/// hard flight envelope and keeps the integral memory inside the anti-windup
/// clamp.
pub proof fn lemma_step_wf(d: DroneM, dt: int, mv: int, mc: Option<V3>, mos: int)
    requires
        wf_m(d),
        0 <= dt <= FP_ONE as int,
        0 <= mv <= FP_SAT as int,
        opt_v3_ok(mc),
        fp_ok(mos),
    ensures
        wf_m(step_s(d, dt, mv, mc, mos)),
        in_flight_envelope(step_s(d, dt, mv, mc, mos).pos),
        integral_ok(step_s(d, dt, mv, mc, mos).pid_integral),
{
    let dm = crate::drone::step_mode_s(d, dt, mv, mc, mos);
    match d.mode {
        DroneMode::Idle => {
            assert(wf_m(dm));
        },
        DroneMode::Takeoff | DroneMode::Landing | DroneMode::Goto | DroneMode::Hover => {
            lemma_position_mode_wf(d, dt, mv);
            assert(wf_m(dm));
        },
        DroneMode::Velocity => {
            assert(wf_m(dm));
        },
        DroneMode::Monitor => {
            match mc {
                Some(c) => {
                    lemma_monitor_mode_wf(d, dt, mv, c, mos);
                    assert(wf_m(dm));
                },
                None => {
                    assert(wf_m(dm));
                },
            }
        },
    }
    lemma_finish_wf(dm, dt);
}

/// The flight envelope and the anti-windup bound hold of every agent after
/// any number of ticks — arbitrarily long runs included.
pub proof fn lemma_run_keeps_envelope(
    ds: Seq<DroneM>,
    k: nat,
    dt: int,
    mv: int,
    mc: Option<V3>,
    mos: int,
)
    requires
        forall|i: int| 0 <= i < ds.len() ==> wf_m(#[trigger] ds[i]),
        0 <= dt <= FP_ONE as int,
        0 <= mv <= FP_SAT as int,
        opt_v3_ok(mc),
        fp_ok(mos),
    ensures
        tick_all_n_s(ds, k, dt, mv, mc, mos).len() == ds.len(),
        forall|i: int|
            0 <= i < ds.len() ==> wf_m(#[trigger] tick_all_n_s(ds, k, dt, mv, mc, mos)[i]),
        forall|i: int|
            0 <= i < ds.len() ==> integral_ok(
                (#[trigger] tick_all_n_s(ds, k, dt, mv, mc, mos)[i]).pid_integral,
            ),
        k >= 1 ==> forall|i: int|
            0 <= i < ds.len() ==> in_flight_envelope(
                (#[trigger] tick_all_n_s(ds, k, dt, mv, mc, mos)[i]).pos,
            ),
    decreases k,
{
    if k == 0 {
    } else {
        lemma_run_keeps_envelope(ds, (k - 1) as nat, dt, mv, mc, mos);
        let prev = tick_all_n_s(ds, (k - 1) as nat, dt, mv, mc, mos);
        assert forall|i: int| 0 <= i < ds.len() implies wf_m(
            #[trigger] tick_all_n_s(ds, k, dt, mv, mc, mos)[i],
        ) && integral_ok(tick_all_n_s(ds, k, dt, mv, mc, mos)[i].pid_integral)
            && in_flight_envelope(tick_all_n_s(ds, k, dt, mv, mc, mos)[i].pos) by {
            assert(tick_all_n_s(ds, k, dt, mv, mc, mos)[i] == step_s(prev[i], dt, mv, mc, mos));
            lemma_step_wf(prev[i], dt, mv, mc, mos);
        }
    }
}

/// Hovering is idempotent: commanding `hover` twice in a row, with no tick
/// between, leaves exactly the state one command leaves.
pub proof fn lemma_hover_idempotent(ds: Seq<DroneM>, ids: Seq<usize>)
    ensures
        apply_ids_s(
            apply_ids_s(ds, ids, (|d: DroneM| hover_one_s(d))),
            ids,
            (|d: DroneM| hover_one_s(d)),
        ) == apply_ids_s(ds, ids, (|d: DroneM| hover_one_s(d))),
{
    let once = apply_ids_s(ds, ids, (|d: DroneM| hover_one_s(d)));
    let twice = apply_ids_s(once, ids, (|d: DroneM| hover_one_s(d)));
    assert forall|j: int| 0 <= j < ds.len() implies twice[j] == once[j] by {
        if ids.contains(j as usize) {
            assert(hover_one_s(hover_one_s(ds[j])) == hover_one_s(ds[j]));
        }
    }
    assert(twice =~= once);
}

/// A reset restores the exact spawn-grid observables — position, velocity,
/// heading, battery, health — and the idle mode, whatever the prior command
/// and tick history left in the agent.
pub proof fn lemma_reset_restores_spawn(d: DroneM, i: int, n: int)
    ensures
        reset_one_s(d, i, n).pos == initial_drone_s(i, n).pos,
        reset_one_s(d, i, n).vel == initial_drone_s(i, n).vel,
        reset_one_s(d, i, n).yaw == initial_drone_s(i, n).yaw,
        reset_one_s(d, i, n).yaw_rate == initial_drone_s(i, n).yaw_rate,
        reset_one_s(d, i, n).battery == initial_drone_s(i, n).battery,
        reset_one_s(d, i, n).healthy == initial_drone_s(i, n).healthy,
        reset_one_s(d, i, n).mode == DroneMode::Idle,
        reset_one_s(d, i, n).pid_integral == initial_drone_s(i, n).pid_integral,
        reset_one_s(d, i, n).pid_prev_error == initial_drone_s(i, n).pid_prev_error,
{
}

/// A landing agent settles: on the first tick its (post-move) altitude drops
/// below the landing threshold — and only then — it switches to idle with
/// its velocity zeroed; until then it stays in the landing mode.
pub proof fn lemma_landing_settles(d: DroneM, dt: int, mv: int, mc: Option<V3>, mos: int)
    requires
        wf_m(d),
        d.mode == DroneMode::Landing,
        0 <= dt <= FP_ONE as int,
        0 <= mv <= FP_SAT as int,
    ensures
        step_s(d, dt, mv, mc, mos).mode == DroneMode::Idle <==> step_s(
            d,
            dt,
            mv,
            mc,
            mos,
        ).pos.z < FP_LAND_EPS as int,
        step_s(d, dt, mv, mc, mos).mode == DroneMode::Idle ==> step_s(d, dt, mv, mc, mos).vel
            == crate::drone::v3_zero(),
        step_s(d, dt, mv, mc, mos).mode == DroneMode::Idle || step_s(d, dt, mv, mc, mos).mode
            == DroneMode::Landing,
{
    reveal(crate::drone::position_mode_s);
}

/// One tick is a pointwise map: the next state of an agent depends only on
/// its own prior state and the shared broadcast snapshot, never on another
/// agent or on the order the workers ran in — so a parallel tick equals the
/// sequential one.
pub proof fn lemma_tick_is_pointwise(
    ds: Seq<DroneM>,
    dt: int,
    mv: int,
    mc: Option<V3>,
    mos: int,
    i: int,
)
    requires
        0 <= i < ds.len(),
    ensures
        tick_all_s(ds, dt, mv, mc, mos).len() == ds.len(),
        tick_all_s(ds, dt, mv, mc, mos)[i] == step_s(ds[i], dt, mv, mc, mos),
{
}

} // verus!
