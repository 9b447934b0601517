use vstd::prelude::*;

use crate::camera::CameraOrientation;
use crate::input::Inputs;
use crate::math::{lemma_milli_mul_bound, milli_mul, mul_milli, Vec2, Vec3, MILLI};

verus! {

/// Ground run speed: 10 world units per second, in milli-units.
pub const PLAYER_SPEED: i64 = 10_000;

/// Vertical velocity written by an honored jump: 7.5 units per second.
pub const JUMP_SPEED: i64 = 7_500;

/// Magnitude of the one-shot dash impulse: 15 units.
pub const DASH_IMPULSE: i64 = 15_000;

/// Length of the dash window: 330 milliseconds.
pub const DASH_TIME_MS: i64 = 330;

/// Lifetime dash budget; further dashes are refused once it is reached.
pub const MAX_DASHES: u8 = 120;

/// In-air jump allowance checked by the jump controller.
pub const MAX_AIR_JUMPS: u8 = 1;

/// Sentinel timestamp meaning "no active dash".
pub const NO_DASH_TIME: i64 = -1;

/// Length of the downward ground probe: 1.5 units.
pub const GROUND_PROBE_DISTANCE: i64 = 1_500;

/// Falling to or below this height triggers fall recovery: -20 units.
pub const FALL_THRESHOLD: i64 = -20_000;

/// Fall recovery teleports the character to (0, 2, 0); this is the height.
pub const RESPAWN_HEIGHT: i64 = 2_000;

/// The follow-target marker sits one fifth (200/1000) of the movement
/// vector ahead of the character.
pub const TARGET_OFFSET_FACTOR: i64 = 200;

/// Largest simulation timestamp the controllers accept, in milliseconds.
pub const TIME_LIMIT_MS: i64 = 1_000_000_000_000;

/// Largest position component the controllers accept, in milli-units.
pub const POSITION_LIMIT: i64 = 1_000_000_000;

/// The ability state of one character, owned by the controller pipeline and
/// mutated in place, one instance per character for its whole lifetime.
#[derive(Clone, Copy, Debug, PartialEq, Eq, Structural)]
pub struct Player {
    /// True from jump initiation until ground contact is re-acquired.
    pub is_jumping: bool,
    /// Jumps performed since the last confirmed ground contact.
    pub jumps_without_ground: u8,
    /// Result of the current tick's ground probe.
    pub is_grounded: bool,
    /// True for the fixed dash window after an accepted dash.
    pub is_dashing: bool,
    /// Lifetime dash counter, never above `MAX_DASHES`, never decreasing.
    pub dash_count: u8,
    /// Timestamp of the active dash, or `NO_DASH_TIME` when none is active.
    pub last_dash_time: i64,
}

impl Player {
    /// Well-formedness: the counters stay in their documented ranges and the
    /// dash flag agrees with the dash timestamp. Established at spawn and
    /// preserved by every controller.
    pub open spec fn inv(self) -> bool {
        &&& self.jumps_without_ground <= MAX_AIR_JUMPS
        &&& !self.is_jumping ==> self.jumps_without_ground == 0
        &&& self.dash_count <= MAX_DASHES
        &&& (self.is_dashing <==> self.last_dash_time != NO_DASH_TIME)
        &&& NO_DASH_TIME <= self.last_dash_time <= TIME_LIMIT_MS
    }

    /// The state a character spawns with: all counters zeroed, no active dash.
    pub open spec fn default_spec() -> Player {
        Player {
            is_jumping: false,
            jumps_without_ground: 0,
            is_grounded: false,
            is_dashing: false,
            dash_count: 0,
            last_dash_time: NO_DASH_TIME,
        }
    }

    /// Builds the spawn state.
    pub fn default() -> (player: Player)
        ensures
            player == Player::default_spec(),
            player.inv(),
    {
        Player {
            is_jumping: false,
            jumps_without_ground: 0,
            is_grounded: false,
            is_dashing: false,
            dash_count: 0,
            last_dash_time: NO_DASH_TIME,
        }
    }
}

/// What the ground probe does to the player state: a hit confirms ground
/// contact and clears the jump bookkeeping; a miss only records the absence
/// of contact.
pub open spec fn ground_probe_step(p: Player, probe_hit: bool) -> Player {
    if probe_hit {
        Player { is_grounded: true, is_jumping: false, jumps_without_ground: 0, ..p }
    } else {
        Player { is_grounded: false, ..p }
    }
}

/// GroundProbe: fold this tick's probe result (any intersection within
/// `GROUND_PROBE_DISTANCE` below the character, ground filter) into the
/// player state. Multiple hits count the same as one.
pub fn ground_probe_update(player: &mut Player, probe_hit: bool)
    ensures
        *final(player) == ground_probe_step(*old(player), probe_hit),
        final(player).is_grounded == probe_hit,
        probe_hit ==> !final(player).is_jumping && final(player).jumps_without_ground == 0,
        !probe_hit ==> final(player).is_jumping == old(player).is_jumping
            && final(player).jumps_without_ground == old(player).jumps_without_ground,
        final(player).is_dashing == old(player).is_dashing,
        final(player).dash_count == old(player).dash_count,
        final(player).last_dash_time == old(player).last_dash_time,
        old(player).inv() ==> final(player).inv(),
{
    player.is_grounded = probe_hit;
    if probe_hit {
        player.is_jumping = false;
        player.jumps_without_ground = 0;
    }
}

/// Whether a jump request is honored: the character is not already marked
/// jumping, or the in-air jump counter is still below the allowance.
pub open spec fn jump_honored(p: Player, jump_triggered: bool) -> bool {
    jump_triggered && (!p.is_jumping || p.jumps_without_ground < MAX_AIR_JUMPS)
}

/// What an honored jump does to the player state; a dropped request changes
/// nothing.
pub open spec fn jump_step(p: Player, jump_triggered: bool) -> Player {
    if jump_honored(p, jump_triggered) {
        Player {
            is_jumping: true,
            jumps_without_ground: (p.jumps_without_ground + 1) as u8,
            ..p
        }
    } else {
        p
    }
}

/// JumpController: on an honored request, overwrite the vertical velocity
/// with `JUMP_SPEED` (other components untouched) and update the jump
/// bookkeeping; otherwise drop the request silently.
pub fn jump_update(player: &mut Player, velocity: &mut Vec3, jump_triggered: bool) -> (honored: bool)
    requires
        old(player).inv(),
    ensures
        honored == jump_honored(*old(player), jump_triggered),
        *final(player) == jump_step(*old(player), jump_triggered),
        final(player).inv(),
        jump_honored(*old(player), jump_triggered) ==> *final(velocity) == (Vec3 {
            x: old(velocity).x,
            y: JUMP_SPEED,
            z: old(velocity).z,
        }) && final(player).is_jumping && final(player).jumps_without_ground == old(player).jumps_without_ground + 1,
        !jump_honored(*old(player), jump_triggered) ==> *final(velocity) == *old(velocity)
            && *final(player) == *old(player),
        final(player).is_grounded == old(player).is_grounded,
        final(player).is_dashing == old(player).is_dashing,
        final(player).dash_count == old(player).dash_count,
        final(player).last_dash_time == old(player).last_dash_time,
{
    if jump_triggered && (!player.is_jumping || player.jumps_without_ground < MAX_AIR_JUMPS) {
        velocity.y = JUMP_SPEED;
        player.is_jumping = true;
        player.jumps_without_ground = player.jumps_without_ground + 1;
        true
    } else {
        false
    }
}

/// Whether a dash request is accepted: not already dashing and the lifetime
/// budget is not exhausted.
pub open spec fn dash_accepted(p: Player, dash_triggered: bool) -> bool {
    dash_triggered && !p.is_dashing && p.dash_count < MAX_DASHES
}

/// Whether the dash window recorded in `p` has elapsed at `now_ms`.
pub open spec fn dash_window_expired(p: Player, now_ms: i64) -> bool {
    p.last_dash_time != NO_DASH_TIME && p.last_dash_time + DASH_TIME_MS < now_ms
}

/// What the dash controller does to the player state: an accepted request
/// opens a dash window at `now_ms` and spends one dash; afterwards, a window
/// whose time has elapsed is closed. Requests while dashing or after the
/// budget is spent change nothing.
pub open spec fn dash_step(p: Player, dash_triggered: bool, now_ms: i64) -> Player {
    let triggered = if dash_accepted(p, dash_triggered) {
        Player {
            is_dashing: true,
            dash_count: (p.dash_count + 1) as u8,
            last_dash_time: now_ms,
            ..p
        }
    } else {
        p
    };
    if dash_window_expired(triggered, now_ms) {
        Player { is_dashing: false, last_dash_time: NO_DASH_TIME, ..triggered }
    } else {
        triggered
    }
}

/// DashController: on an accepted request, apply a one-shot impulse of
/// magnitude `DASH_IMPULSE` along the character's backward direction `back`
/// and open the dash window; every tick, clear the impulse and the dash
/// state once the window has elapsed.
pub fn dash_update(
    player: &mut Player,
    impulse: &mut Vec3,
    back: Vec3,
    dash_triggered: bool,
    now_ms: i64,
) -> (spent: bool)
    requires
        old(player).inv(),
        back.in_unit_range(),
        0 <= now_ms <= TIME_LIMIT_MS,
    ensures
        *final(player) == dash_step(*old(player), dash_triggered, now_ms),
        final(player).inv(),
        spent == dash_accepted(*old(player), dash_triggered),
        dash_accepted(*old(player), dash_triggered) ==> final(player).is_dashing && final(player).dash_count == old(player).dash_count + 1 && final(player).last_dash_time == now_ms
            && final(impulse).x == milli_mul(back.x as int, DASH_IMPULSE as int) && final(impulse).y == milli_mul(back.y as int, DASH_IMPULSE as int) && final(impulse).z == milli_mul(
            back.z as int,
            DASH_IMPULSE as int,
        ),
        !dash_accepted(*old(player), dash_triggered) && dash_window_expired(*old(player), now_ms)
            ==> !final(player).is_dashing && final(player).last_dash_time == NO_DASH_TIME && *final(impulse) == Vec3::zero_spec(),
        !dash_accepted(*old(player), dash_triggered) && !dash_window_expired(*old(player), now_ms)
            ==> *final(player) == *old(player) && *final(impulse) == *old(impulse),
        final(player).dash_count >= old(player).dash_count,
        final(player).is_grounded == old(player).is_grounded,
        final(player).is_jumping == old(player).is_jumping,
        final(player).jumps_without_ground == old(player).jumps_without_ground,
{
    let mut spent = false;
    if dash_triggered && !player.is_dashing && player.dash_count < MAX_DASHES {
        player.is_dashing = true;
        player.dash_count = player.dash_count + 1;
        impulse.x = mul_milli(back.x, DASH_IMPULSE);
        impulse.y = mul_milli(back.y, DASH_IMPULSE);
        impulse.z = mul_milli(back.z, DASH_IMPULSE);
        player.last_dash_time = now_ms;
        spent = true;
    }
    if player.last_dash_time != NO_DASH_TIME && player.last_dash_time + DASH_TIME_MS < now_ms {
        impulse.x = 0;
        impulse.y = 0;
        impulse.z = 0;
        player.last_dash_time = NO_DASH_TIME;
        player.is_dashing = false;
    }
    spent
}

/// The milli-unit speed requested along one normalized input axis.
pub open spec fn axis_speed(input_axis: i64) -> int {
    milli_mul(input_axis as int, PLAYER_SPEED as int)
}

/// One component of the camera-relative horizontal movement vector:
/// the strafe part along the camera's right direction plus the run part
/// along its forward direction.
pub open spec fn move_component(movement: Vec2, right_c: i64, forward_c: i64) -> int {
    milli_mul(right_c as int, axis_speed(movement.x)) + milli_mul(
        forward_c as int,
        axis_speed(movement.y),
    )
}

/// One component of the follow-target offset: one fifth of each movement
/// part, scaled separately and then summed.
pub open spec fn target_offset(movement: Vec2, right_c: i64, forward_c: i64) -> int {
    milli_mul(
        milli_mul(right_c as int, axis_speed(movement.x)),
        TARGET_OFFSET_FACTOR as int,
    ) + milli_mul(
        milli_mul(forward_c as int, axis_speed(movement.y)),
        TARGET_OFFSET_FACTOR as int,
    )
}

/// What the movement controller hands to the outside collaborators: the
/// follow-target marker position (always), and a look-at target when the
/// character re-orients this tick.
#[derive(Clone, Copy, Debug)]
pub struct MovementOutput {
    /// Where the follow-target marker goes, for the camera collaborator.
    pub target: Vec3,
    /// Where the character turns to face, when it does.
    pub look_target: Option<Vec3>,
}

/// MovementController: compute the camera-relative horizontal velocity and,
/// unless the character is dashing, write it to the rigid body, preserving
/// the vertical component; re-orient toward the inverse of the movement
/// vector when the input is non-zero; always move the follow-target marker
/// one fifth of the movement vector ahead; and teleport the character to the
/// respawn point when it has fallen to or below `FALL_THRESHOLD`.
pub fn movement_update(
    player: &Player,
    position: &mut Vec3,
    velocity: &mut Vec3,
    movement: Vec2,
    camera: &CameraOrientation,
) -> (out: MovementOutput)
    requires
        movement.in_unit_range(),
        camera.wf(),
        -POSITION_LIMIT <= old(position).x <= POSITION_LIMIT,
        -POSITION_LIMIT <= old(position).y <= POSITION_LIMIT,
        -POSITION_LIMIT <= old(position).z <= POSITION_LIMIT,
    ensures
        out.target.x == old(position).x + target_offset(movement, camera.right.x, camera.forward.x),
        out.target.y == old(position).y,
        out.target.z == old(position).z + target_offset(movement, camera.right.z, camera.forward.z),
        !player.is_dashing ==> final(velocity).x == move_component(
            movement,
            camera.right.x,
            camera.forward.x,
        ) && final(velocity).z == move_component(movement, camera.right.z, camera.forward.z)
            && final(velocity).y == old(velocity).y,
        player.is_dashing ==> *final(velocity) == *old(velocity),
        (!player.is_dashing && !movement.is_zero()) == out.look_target.is_some(),
        out.look_target matches Some(look) ==> look.x == old(position).x - target_offset(
            movement,
            camera.right.x,
            camera.forward.x,
        ) && look.y == old(position).y && look.z == old(position).z - target_offset(
            movement,
            camera.right.z,
            camera.forward.z,
        ),
        old(position).y <= FALL_THRESHOLD ==> *final(position) == (Vec3 {
            x: 0,
            y: RESPAWN_HEIGHT,
            z: 0,
        }),
        old(position).y > FALL_THRESHOLD ==> *final(position) == *old(position),
{
    let speed_x = mul_milli(movement.x, PLAYER_SPEED);
    let speed_y = mul_milli(movement.y, PLAYER_SPEED);
    proof {
        lemma_milli_mul_bound(movement.x as int, PLAYER_SPEED as int, MILLI as int, PLAYER_SPEED as int);
        lemma_milli_mul_bound(movement.y as int, PLAYER_SPEED as int, MILLI as int, PLAYER_SPEED as int);
    }
    let move_right_x = mul_milli(camera.right.x, speed_x);
    let move_right_z = mul_milli(camera.right.z, speed_x);
    let move_forward_x = mul_milli(camera.forward.x, speed_y);
    let move_forward_z = mul_milli(camera.forward.z, speed_y);
    proof {
        lemma_milli_mul_bound(camera.right.x as int, speed_x as int, MILLI as int, PLAYER_SPEED as int);
        lemma_milli_mul_bound(camera.right.z as int, speed_x as int, MILLI as int, PLAYER_SPEED as int);
        lemma_milli_mul_bound(camera.forward.x as int, speed_y as int, MILLI as int, PLAYER_SPEED as int);
        lemma_milli_mul_bound(camera.forward.z as int, speed_y as int, MILLI as int, PLAYER_SPEED as int);
    }
    let offset_right_x = mul_milli(move_right_x, TARGET_OFFSET_FACTOR);
    let offset_right_z = mul_milli(move_right_z, TARGET_OFFSET_FACTOR);
    let offset_forward_x = mul_milli(move_forward_x, TARGET_OFFSET_FACTOR);
    let offset_forward_z = mul_milli(move_forward_z, TARGET_OFFSET_FACTOR);
    proof {
        lemma_milli_mul_bound(move_right_x as int, TARGET_OFFSET_FACTOR as int, PLAYER_SPEED as int, TARGET_OFFSET_FACTOR as int);
        lemma_milli_mul_bound(move_right_z as int, TARGET_OFFSET_FACTOR as int, PLAYER_SPEED as int, TARGET_OFFSET_FACTOR as int);
        lemma_milli_mul_bound(move_forward_x as int, TARGET_OFFSET_FACTOR as int, PLAYER_SPEED as int, TARGET_OFFSET_FACTOR as int);
        lemma_milli_mul_bound(move_forward_z as int, TARGET_OFFSET_FACTOR as int, PLAYER_SPEED as int, TARGET_OFFSET_FACTOR as int);
    }
    let target = Vec3 {
        x: position.x + offset_right_x + offset_forward_x,
        y: position.y,
        z: position.z + offset_right_z + offset_forward_z,
    };
    if !player.is_dashing {
        velocity.x = move_right_x + move_forward_x;
        velocity.z = move_right_z + move_forward_z;
    }
    let look_target = if !player.is_dashing && (movement.x != 0 || movement.y != 0) {
        Some(
            Vec3 {
                x: position.x - offset_right_x - offset_forward_x,
                y: position.y,
                z: position.z - offset_right_z - offset_forward_z,
            },
        )
    } else {
        None
    };
    if position.y <= FALL_THRESHOLD {
        position.x = 0;
        position.y = RESPAWN_HEIGHT;
        position.z = 0;
    }
    MovementOutput { target, look_target }
}

/// The three animation clips the selector can pick.
#[derive(Clone, Copy, Debug, PartialEq, Eq, Structural)]
pub enum AnimationClip {
    Idle,
    Jump,
    Run,
}

/// A selected clip together with whether it loops.
#[derive(Clone, Copy, Debug, PartialEq, Eq, Structural)]
pub struct AnimationCommand {
    pub clip: AnimationClip,
    pub looping: bool,
}

/// The selection rule, a pure function of the tick's final state: jumping
/// plays the jump clip once; otherwise any horizontal velocity plays the run
/// clip looping; otherwise the idle clip loops.
pub open spec fn animation_for(p: Player, velocity: Vec3) -> AnimationCommand {
    if p.is_jumping {
        AnimationCommand { clip: AnimationClip::Jump, looping: false }
    } else if velocity.x != 0 || velocity.z != 0 {
        AnimationCommand { clip: AnimationClip::Run, looping: true }
    } else {
        AnimationCommand { clip: AnimationClip::Idle, looping: true }
    }
}

/// AnimationSelector: pick exactly one clip for this tick, by priority
/// jump, then run, then idle. No state is mutated.
pub fn select_animation(player: &Player, velocity: &Vec3) -> (cmd: AnimationCommand)
    ensures
        cmd == animation_for(*player, *velocity),
{
    if player.is_jumping {
        AnimationCommand { clip: AnimationClip::Jump, looping: false }
    } else if velocity.x != 0 || velocity.z != 0 {
        AnimationCommand { clip: AnimationClip::Run, looping: true }
    } else {
        AnimationCommand { clip: AnimationClip::Idle, looping: true }
    }
}

/// Everything the pipeline owns for one character: the ability state and the
/// rigid-body fields it writes (position, velocity, one-shot impulse).
#[derive(Clone, Copy, Debug, PartialEq, Eq, Structural)]
pub struct Character {
    pub player: Player,
    pub position: Vec3,
    pub velocity: Vec3,
    pub impulse: Vec3,
}

impl Character {
    /// Well-formedness: a valid ability state and a position inside the
    /// world bounds the controllers accept.
    pub open spec fn wf(self) -> bool {
        &&& self.player.inv()
        &&& -POSITION_LIMIT <= self.position.x <= POSITION_LIMIT
        &&& -POSITION_LIMIT <= self.position.y <= POSITION_LIMIT
        &&& -POSITION_LIMIT <= self.position.z <= POSITION_LIMIT
    }

    /// A freshly spawned character: default ability state, at rest at
    /// `position`.
    pub fn new(position: Vec3) -> (character: Character)
        requires
            -POSITION_LIMIT <= position.x <= POSITION_LIMIT,
            -POSITION_LIMIT <= position.y <= POSITION_LIMIT,
            -POSITION_LIMIT <= position.z <= POSITION_LIMIT,
        ensures
            character.wf(),
            character.player == Player::default_spec(),
            character.position == position,
            character.velocity == Vec3::zero_spec(),
            character.impulse == Vec3::zero_spec(),
    {
        Character {
            player: Player::default(),
            position,
            velocity: Vec3::zero(),
            impulse: Vec3::zero(),
        }
    }
}

/// What one whole tick does to the ability state: the ground probe, then the
/// jump controller, then the dash controller, in the fixed pipeline order.
/// The movement controller and the animation selector read state but do not
/// change it.
pub open spec fn tick_player(
    p: Player,
    probe_hit: bool,
    jump_triggered: bool,
    dash_triggered: bool,
    now_ms: i64,
) -> Player {
    dash_step(jump_step(ground_probe_step(p, probe_hit), jump_triggered), dash_triggered, now_ms)
}

/// What one tick hands to the outside collaborators.
#[derive(Clone, Copy, Debug)]
pub struct TickOutput {
    /// Where the follow-target marker goes.
    pub target: Vec3,
    /// Where the character turns to face, when it re-orients this tick.
    pub look_target: Option<Vec3>,
    /// The clip the animation player should play.
    pub animation: AnimationCommand,
}

/// One simulation tick, in the fixed order GroundProbe, JumpController,
/// DashController, MovementController, AnimationSelector. Later stages read
/// the state the earlier stages wrote within this same tick.
pub fn tick(
    character: &mut Character,
    inputs: &Inputs,
    camera: &CameraOrientation,
    back: Vec3,
    probe_hit: bool,
    now_ms: i64,
) -> (out: TickOutput)
    requires
        old(character).wf(),
        inputs.wf(),
        camera.wf(),
        back.in_unit_range(),
        0 <= now_ms <= TIME_LIMIT_MS,
    ensures
        final(character).wf(),
        final(character).player == tick_player(
            old(character).player,
            probe_hit,
            inputs.jump_triggered,
            inputs.dash_triggered,
            now_ms,
        ),
        final(character).player.is_grounded == probe_hit,
        final(character).velocity.y == (if jump_honored(
            ground_probe_step(old(character).player, probe_hit),
            inputs.jump_triggered,
        ) {
            JUMP_SPEED as int
        } else {
            old(character).velocity.y as int
        }),
        !final(character).player.is_dashing ==> final(character).velocity.x == move_component(
            inputs.player_movement,
            camera.right.x,
            camera.forward.x,
        ) && final(character).velocity.z == move_component(
            inputs.player_movement,
            camera.right.z,
            camera.forward.z,
        ),
        final(character).player.is_dashing ==> final(character).velocity.x == old(character).velocity.x && final(character).velocity.z == old(character).velocity.z,
        dash_accepted(old(character).player, inputs.dash_triggered) ==> final(character).impulse.x == milli_mul(back.x as int, DASH_IMPULSE as int) && final(character).impulse.y
            == milli_mul(back.y as int, DASH_IMPULSE as int) && final(character).impulse.z
            == milli_mul(back.z as int, DASH_IMPULSE as int),
        !dash_accepted(old(character).player, inputs.dash_triggered) && dash_window_expired(
            old(character).player,
            now_ms,
        ) ==> final(character).impulse == Vec3::zero_spec(),
        !dash_accepted(old(character).player, inputs.dash_triggered) && !dash_window_expired(
            old(character).player,
            now_ms,
        ) ==> final(character).impulse == old(character).impulse,
        old(character).position.y <= FALL_THRESHOLD ==> final(character).position == (Vec3 {
            x: 0,
            y: RESPAWN_HEIGHT,
            z: 0,
        }),
        old(character).position.y > FALL_THRESHOLD ==> final(character).position == old(character).position,
        out.target.x == old(character).position.x + target_offset(
            inputs.player_movement,
            camera.right.x,
            camera.forward.x,
        ),
        out.target.y == old(character).position.y,
        out.target.z == old(character).position.z + target_offset(
            inputs.player_movement,
            camera.right.z,
            camera.forward.z,
        ),
        (!final(character).player.is_dashing && !inputs.player_movement.is_zero())
            == out.look_target.is_some(),
        out.look_target matches Some(look) ==> look.x == old(character).position.x - target_offset(
            inputs.player_movement,
            camera.right.x,
            camera.forward.x,
        ) && look.y == old(character).position.y && look.z == old(character).position.z
            - target_offset(inputs.player_movement, camera.right.z, camera.forward.z),
        out.animation == animation_for(final(character).player, final(character).velocity),
{
    ground_probe_update(&mut character.player, probe_hit);
    jump_update(&mut character.player, &mut character.velocity, inputs.jump_triggered);
    dash_update(
        &mut character.player,
        &mut character.impulse,
        back,
        inputs.dash_triggered,
        now_ms,
    );
    let moved = movement_update(
        &character.player,
        &mut character.position,
        &mut character.velocity,
        inputs.player_movement,
        camera,
    );
    let animation = select_animation(&character.player, &character.velocity);
    TickOutput { target: moved.target, look_target: moved.look_target, animation }
}

} // verus!

