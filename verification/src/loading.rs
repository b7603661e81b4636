//! The loading phase: when the level and the player are spawned, and what is
//! spawned.

use vstd::prelude::*;
use crate::control::{TargetAngVel, Vect, Velocity};
use crate::units::{
    BALL_FRICTION, BALL_LAYER, BALL_RADIUS, BALL_RESTITUTION, BALL_SPRITE_SIZE,
    BALL_START_HEIGHT,
};

verus! {

/// The phase of the game.
#[derive(Clone, Copy, Debug, PartialEq, Eq, Hash, Structural)]
pub enum GameState {
    /// No level has come out of the collision mask yet; nothing has been
    /// spawned.
    Loading,
    /// The level and the player exist. There is no way back.
    Playing,
}

impl Default for GameState {
    /// The game starts out loading.
    fn default() -> (state: GameState)
        ensures
            state == GameState::Loading,
    {
        GameState::Loading
    }
}

/// What the caller is to do after a tick of loading.
#[derive(Clone, Copy, Debug, PartialEq, Eq, Structural)]
pub enum LoadAction {
    /// Nothing; ask again on the next tick.
    Wait,
    /// Spawn what [`spawn_plan`] lists for the outlines that were traced.
    SpawnLevel,
}

/// Whether a tick brought a level: the collision mask was in and tracing it
/// gave at least one outline. `None` stands for a mask that is not in,
/// `Some(n)` for one traced into `n` outlines.
pub open spec fn yields_level(outlines: Option<usize>) -> bool {
    outlines matches Some(n) && n >= 1
}

/// One tick: while loading, a tick that brings a level asks for the spawn
/// and moves to playing. Every other tick changes nothing; a mask that is
/// not in, or one with no outline in it, leaves the game loading.
pub open spec fn load_step(state: GameState, outlines: Option<usize>) -> (GameState, LoadAction) {
    if state == GameState::Loading && yields_level(outlines) {
        (GameState::Playing, LoadAction::SpawnLevel)
    } else {
        (state, LoadAction::Wait)
    }
}

/// Whether some tick of `ticks` brought a level.
pub open spec fn level_arrives(ticks: Seq<Option<usize>>) -> bool {
    exists|i: int| 0 <= i < ticks.len() && yields_level(#[trigger] ticks[i])
}

/// The state after the ticks of `ticks`, each giving what the mask yielded.
pub open spec fn state_after(state: GameState, ticks: Seq<Option<usize>>) -> GameState
    decreases ticks.len(),
{
    if ticks.len() == 0 {
        state
    } else {
        load_step(state_after(state, ticks.drop_last()), ticks.last()).0
    }
}

/// How many of the ticks of `ticks` asked for the spawn.
pub open spec fn spawns_during(state: GameState, ticks: Seq<Option<usize>>) -> nat
    decreases ticks.len(),
{
    if ticks.len() == 0 {
        0
    } else {
        let before = spawns_during(state, ticks.drop_last());
        if load_step(state_after(state, ticks.drop_last()), ticks.last()).1
            == LoadAction::SpawnLevel {
            before + 1
        } else {
            before
        }
    }
}

/// Runs one tick of loading. `outlines` is `None` while the collision mask
/// has not finished loading, else the number of outlines traced from it.
pub fn generate_map_collider(state: GameState, outlines: Option<usize>) -> (out: (
    GameState,
    LoadAction,
))
    ensures
        out == load_step(state, outlines),
{
    match (state, outlines) {
        (GameState::Loading, Some(n)) => {
            if n >= 1 {
                (GameState::Playing, LoadAction::SpawnLevel)
            } else {
                (GameState::Loading, LoadAction::Wait)
            }
        },
        (GameState::Loading, None) => (GameState::Loading, LoadAction::Wait),
        (GameState::Playing, _) => (GameState::Playing, LoadAction::Wait),
    }
}

/// What the ball is made of when it is spawned.
#[derive(Clone, Copy, Debug, PartialEq, Eq, Structural)]
pub struct PlayerSpec {
    /// Radius of the circular collider.
    pub radius: i64,
    /// Side of the square sprite.
    pub sprite_size: i64,
    /// Bounciness.
    pub restitution: i64,
    /// Friction.
    pub friction: i64,
    /// Whether collisions are detected along the whole path of a step.
    pub ccd: bool,
    /// Where the ball starts.
    pub position: Vect,
    /// The drawing layer.
    pub layer: i64,
    /// The velocity the ball starts with.
    pub velocity: Velocity,
    /// The stored steering target the ball starts with.
    pub target: TargetAngVel,
}

/// The ball as it is spawned: at rest above the origin, with no steering
/// target, continuous collision detection, and a sprite as wide as the
/// collider.
pub open spec fn player_spec() -> PlayerSpec {
    PlayerSpec {
        radius: BALL_RADIUS,
        sprite_size: BALL_SPRITE_SIZE,
        restitution: BALL_RESTITUTION,
        friction: BALL_FRICTION,
        ccd: true,
        position: Vect { x: 0, y: BALL_START_HEIGHT },
        layer: BALL_LAYER,
        velocity: Velocity { linvel: Vect { x: 0, y: 0 }, angvel: 0 },
        target: TargetAngVel(None),
    }
}

/// A body to spawn.
#[derive(Clone, Copy, Debug, PartialEq, Eq, Structural)]
pub enum Body {
    /// A piece of the level that does not move: the outline with this index
    /// among those traced from the collision mask, placed at the origin.
    Fixed { polyline: usize },
    /// The ball that the player steers.
    Dynamic(PlayerSpec),
}

/// The bodies to spawn for a mask with `polylines` outlines: one fixed body
/// for each outline, in order, and after them the one player.
pub open spec fn spawn_plan_spec(polylines: nat) -> Seq<Body> {
    Seq::new(
        polylines + 1,
        |i: int|
            if i < polylines {
                Body::Fixed { polyline: i as usize }
            } else {
                Body::Dynamic(player_spec())
            },
    )
}

impl PlayerSpec {
    /// Builds the ball's description.
    pub fn new() -> (spec: PlayerSpec)
        ensures
            spec == player_spec(),
            spec.sprite_size == 2 * spec.radius,
    {
        PlayerSpec {
            radius: BALL_RADIUS,
            sprite_size: BALL_SPRITE_SIZE,
            restitution: BALL_RESTITUTION,
            friction: BALL_FRICTION,
            ccd: true,
            position: Vect { x: 0, y: BALL_START_HEIGHT },
            layer: BALL_LAYER,
            velocity: Velocity::zero(),
            target: TargetAngVel(None),
        }
    }
}

/// Lists the bodies to spawn once the collision mask has been traced into
/// `polylines` outlines. There is a plan only for a mask with an outline in
/// it, and the list, one longer than the outlines, has to fit a `Vec`.
pub fn spawn_plan(polylines: usize) -> (plan: Vec<Body>)
    requires
        1 <= polylines < usize::MAX,
    ensures
        plan@ == spawn_plan_spec(polylines as nat),
{
    let mut plan: Vec<Body> = Vec::new();
    let mut i: usize = 0;
    while i < polylines
        invariant
            i <= polylines,
            plan@.len() == i,
            forall|j: int| 0 <= j < i ==> plan@[j] == (Body::Fixed { polyline: j as usize }),
        decreases polylines - i,
    {
        plan.push(Body::Fixed { polyline: i });
        i = i + 1;
    }
    plan.push(Body::Dynamic(PlayerSpec::new()));
    assert(plan@ =~= spawn_plan_spec(polylines as nat));
    plan
}

/// Once playing, always playing, and nothing more is spawned.
pub proof fn lemma_playing_is_terminal(ticks: Seq<Option<usize>>)
    ensures
        state_after(GameState::Playing, ticks) == GameState::Playing,
        spawns_during(GameState::Playing, ticks) == 0,
    decreases ticks.len(),
{
    if ticks.len() > 0 {
        lemma_playing_is_terminal(ticks.drop_last());
    }
}

/// From loading, however many ticks pass, the spawn is asked for exactly
/// once if some tick brought a level, and never if none did; and the game
/// is playing exactly when the spawn has been asked for.
pub proof fn lemma_spawn_exactly_once(ticks: Seq<Option<usize>>)
    ensures
        level_arrives(ticks) ==> spawns_during(GameState::Loading, ticks) == 1,
        !level_arrives(ticks) ==> spawns_during(GameState::Loading, ticks) == 0,
        state_after(GameState::Loading, ticks) == GameState::Playing <==> level_arrives(ticks),
    decreases ticks.len(),
{
    if ticks.len() > 0 {
        let head = ticks.drop_last();
        lemma_spawn_exactly_once(head);
        if level_arrives(head) {
            let i = choose|i: int| 0 <= i < head.len() && yields_level(#[trigger] head[i]);
            assert(yields_level(ticks[i]));
        } else if yields_level(ticks.last()) {
            assert(yields_level(ticks[ticks.len() - 1]));
        } else {
            assert forall|i: int| 0 <= i < ticks.len() implies !yields_level(
                #[trigger] ticks[i],
            ) by {
                if i < head.len() {
                    assert(head[i] == ticks[i]);
                }
            }
        }
    }
}

/// A mask that is not in, or that has no outline in it, stalls: while every
/// tick brings one or the other, the game stays loading and nothing is
/// spawned.
pub proof fn lemma_empty_tracing_stalls(ticks: Seq<Option<usize>>)
    requires
        forall|i: int|
            0 <= i < ticks.len() ==> #[trigger] ticks[i] == None::<usize> || ticks[i] == Some(
                0usize,
            ),
    ensures
        state_after(GameState::Loading, ticks) == GameState::Loading,
        spawns_during(GameState::Loading, ticks) == 0,
{
    lemma_spawn_exactly_once(ticks);
}

/// A plan holds exactly one player, in its last place; all before it are
/// fixed bodies, one for each outline.
pub proof fn lemma_plan_has_one_player(polylines: nat)
    ensures
        spawn_plan_spec(polylines).len() == polylines + 1,
        forall|i: int|
            0 <= i <= polylines ==> (#[trigger] spawn_plan_spec(polylines)[i] is Dynamic <==> i
                == polylines),
{
}

} // verus!
