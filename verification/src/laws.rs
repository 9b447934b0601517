use vstd::prelude::*;

use crate::player::{
    dash_window_expired, ground_probe_step, jump_honored, jump_step, tick_player, Player,
    DASH_TIME_MS, MAX_AIR_JUMPS, MAX_DASHES, NO_DASH_TIME, TIME_LIMIT_MS,
};

verus! {

/// The outside observations one tick of the ability pipeline consumes: the
/// ground-probe result, the two edge-triggered requests, and the tick's
/// timestamp.
#[derive(Clone, Copy, Debug, PartialEq, Eq, Structural)]
pub struct TickEvent {
    pub probe_hit: bool,
    pub jump_triggered: bool,
    pub dash_triggered: bool,
    pub now_ms: i64,
}

/// A timestamp the controllers accept.
pub open spec fn event_ok(e: TickEvent) -> bool {
    0 <= e.now_ms <= TIME_LIMIT_MS
}

/// Every event of the sequence carries an accepted timestamp.
pub open spec fn events_ok(events: Seq<TickEvent>) -> bool {
    forall|i: int| 0 <= i < events.len() ==> event_ok(#[trigger] events[i])
}

/// The ability state after running a whole sequence of ticks, oldest first.
pub open spec fn run_ticks(p: Player, events: Seq<TickEvent>) -> Player
    decreases events.len(),
{
    if events.len() == 0 {
        p
    } else {
        let before = run_ticks(p, events.drop_last());
        let e = events.last();
        tick_player(before, e.probe_hit, e.jump_triggered, e.dash_triggered, e.now_ms)
    }
}

/// One tick of the ability pipeline keeps the player state well-formed.
pub proof fn lemma_tick_player_preserves_inv(
    p: Player,
    probe_hit: bool,
    jump_triggered: bool,
    dash_triggered: bool,
    now_ms: i64,
)
    requires
        p.inv(),
        0 <= now_ms <= TIME_LIMIT_MS,
    ensures
        tick_player(p, probe_hit, jump_triggered, dash_triggered, now_ms).inv(),
{
}

/// Law: `is_grounded` is true after a tick exactly when that tick's
/// downward probe intersected something, and a confirming probe clears the
/// in-air jump counter (still visible at the end of the tick whenever the
/// same tick does not also honor a jump request).
pub proof fn lemma_ground_contact(
    p: Player,
    probe_hit: bool,
    jump_triggered: bool,
    dash_triggered: bool,
    now_ms: i64,
)
    ensures
        tick_player(p, probe_hit, jump_triggered, dash_triggered, now_ms).is_grounded
            == probe_hit,
        probe_hit ==> ground_probe_step(p, probe_hit).jumps_without_ground == 0
            && !ground_probe_step(p, probe_hit).is_jumping,
        probe_hit && !jump_triggered ==> tick_player(
            p,
            probe_hit,
            jump_triggered,
            dash_triggered,
            now_ms,
        ).jumps_without_ground == 0,
{
}

/// Law: across any sequence of ticks, `dash_count` is monotonically
/// non-decreasing and never exceeds `MAX_DASHES`.
pub proof fn lemma_dash_count_monotone(p: Player, events: Seq<TickEvent>)
    requires
        p.inv(),
        events_ok(events),
    ensures
        run_ticks(p, events).inv(),
        p.dash_count <= run_ticks(p, events).dash_count <= MAX_DASHES,
    decreases events.len(),
{
    if events.len() > 0 {
        assert(events_ok(events.drop_last())) by {
            assert forall|i: int|
                0 <= i < events.drop_last().len() implies event_ok(
                #[trigger] events.drop_last()[i],
            ) by {
                assert(events.drop_last()[i] == events[i]);
            }
        }
        lemma_dash_count_monotone(p, events.drop_last());
        assert(event_ok(events.last()));
    }
}

/// Law: a dash accepted at time T opens the dash window: the state after
/// that tick is dashing, stamped T, with one more dash spent.
pub proof fn lemma_dash_trigger_opens_window(
    p: Player,
    probe_hit: bool,
    jump_triggered: bool,
    now_ms: i64,
)
    requires
        p.inv(),
        !p.is_dashing,
        p.dash_count < MAX_DASHES,
        0 <= now_ms <= TIME_LIMIT_MS,
    ensures
        ({
            let after = tick_player(p, probe_hit, jump_triggered, true, now_ms);
            after.is_dashing && after.last_dash_time == now_ms && after.dash_count
                == p.dash_count + 1
        }),
{
}

/// Law: while the window of a dash stamped T is open, every tick whose time
/// lies in [T, T + DASH_TIME_MS) leaves the dash active and the stamp
/// untouched, whatever else the tick does.
pub proof fn lemma_dash_window_active(p: Player, start_ms: i64, events: Seq<TickEvent>)
    requires
        p.inv(),
        p.is_dashing,
        p.last_dash_time == start_ms,
        events_ok(events),
        forall|i: int|
            0 <= i < events.len() ==> start_ms <= (#[trigger] events[i]).now_ms < start_ms
                + DASH_TIME_MS,
    ensures
        run_ticks(p, events).is_dashing,
        run_ticks(p, events).last_dash_time == start_ms,
        run_ticks(p, events).inv(),
    decreases events.len(),
{
    if events.len() > 0 {
        assert forall|i: int| 0 <= i < events.drop_last().len() implies event_ok(
            #[trigger] events.drop_last()[i],
        ) && start_ms <= events.drop_last()[i].now_ms < start_ms + DASH_TIME_MS by {
            assert(events.drop_last()[i] == events[i]);
        }
        lemma_dash_window_active(p, start_ms, events.drop_last());
        assert(event_ok(events.last()));
    }
}

/// Law: once the window of a dash stamped T has elapsed, ticks strictly
/// after T + DASH_TIME_MS without a new dash request leave and keep the
/// dash inactive. (The window closes only strictly after it elapses: a tick
/// at exactly T + DASH_TIME_MS still sees the dash active.)
pub proof fn lemma_dash_window_expires(p: Player, start_ms: i64, events: Seq<TickEvent>)
    requires
        p.inv(),
        p.is_dashing,
        p.last_dash_time == start_ms,
        events.len() >= 1,
        events_ok(events),
        forall|i: int|
            0 <= i < events.len() ==> (#[trigger] events[i]).now_ms > start_ms + DASH_TIME_MS,
        forall|i: int| 0 <= i < events.len() ==> !(#[trigger] events[i]).dash_triggered,
    ensures
        !run_ticks(p, events).is_dashing,
        run_ticks(p, events).last_dash_time == NO_DASH_TIME,
    decreases events.len(),
{
    if events.len() == 1 {
        assert(dash_window_expired(
            jump_step(ground_probe_step(p, events[0].probe_hit), events[0].jump_triggered),
            events[0].now_ms,
        ));
    } else {
        assert forall|i: int| 0 <= i < events.drop_last().len() implies event_ok(
            #[trigger] events.drop_last()[i],
        ) && events.drop_last()[i].now_ms > start_ms + DASH_TIME_MS && !events.drop_last()[
            i
        ].dash_triggered by {
            assert(events.drop_last()[i] == events[i]);
        }
        lemma_dash_window_expires(p, start_ms, events.drop_last());
        assert(!events.last().dash_triggered);
    }
}

/// Law: a jump honored this tick exhausts the allowance: until ground
/// contact is re-confirmed, a further jump request is not honored.
pub proof fn lemma_second_jump_dropped(p: Player, jump_triggered: bool)
    requires
        p.inv(),
    ensures
        jump_honored(p, jump_triggered) ==> !jump_honored(jump_step(p, jump_triggered), true),
{
}

/// Law: the in-air jump state persists while the probe finds no ground, so
/// at most `MAX_AIR_JUMPS` jumps are honored between ground contacts.
pub proof fn lemma_no_jump_until_grounded(p: Player, events: Seq<TickEvent>)
    requires
        p.inv(),
        p.is_jumping,
        p.jumps_without_ground >= MAX_AIR_JUMPS,
        events_ok(events),
        forall|i: int| 0 <= i < events.len() ==> !(#[trigger] events[i]).probe_hit,
    ensures
        run_ticks(p, events).is_jumping,
        run_ticks(p, events).jumps_without_ground >= MAX_AIR_JUMPS,
    decreases events.len(),
{
    if events.len() > 0 {
        assert forall|i: int| 0 <= i < events.drop_last().len() implies event_ok(
            #[trigger] events.drop_last()[i],
        ) && !events.drop_last()[i].probe_hit by {
            assert(events.drop_last()[i] == events[i]);
        }
        lemma_no_jump_until_grounded(p, events.drop_last());
        assert(!events.last().probe_hit);
    }
}

} // verus!
