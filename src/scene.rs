//! Scene bookkeeping: what each state sets up on entry, which entities a
//! teardown removes, and the restart after a game over.
use vstd::prelude::*;

use crate::snake::{start_snake, Snake};
use crate::states::AppState;

verus! {

/// Work done when a state is entered.
#[derive(Clone, Copy, Debug, PartialEq, Eq, Structural)]
pub enum SceneSetup {
    MainMenu,
    PauseMenu,
    OnePlayerGame,
    SpawnSnake,
    TwoPlayerGame,
}

/// A removal of entities: on leaving a state, or on a game over.
#[derive(Clone, Copy, Debug, PartialEq, Eq, Structural)]
pub enum Teardown {
    /// Everything of the main menu's screen.
    MainMenu,
    /// Everything of the pause screen.
    PauseMenu,
    /// Everything of a game's scene, its camera included.
    Game,
    /// All food and every segment of the snake.
    GameOver,
}

/// The markers an entity carries.
#[derive(Clone, Copy, Debug, PartialEq, Eq, Structural)]
pub struct EntityTags {
    pub on_main_menu: bool,
    pub on_pause_menu: bool,
    pub on_game_screen: bool,
    pub food: bool,
    pub snake_segment: bool,
}

/// An entity, by its id, with its markers.
#[derive(Clone, Copy, Debug, PartialEq, Eq, Structural)]
pub struct TaggedEntity {
    pub id: u64,
    pub tags: EntityTags,
}

pub open spec fn setups_of(s: AppState) -> Seq<SceneSetup> {
    match s {
        AppState::MainMenu => seq![SceneSetup::MainMenu],
        AppState::PauseMenu => seq![SceneSetup::PauseMenu],
        AppState::InOnePlayerGame => seq![SceneSetup::OnePlayerGame, SceneSetup::SpawnSnake],
        AppState::InTwoPlayerGame => seq![SceneSetup::TwoPlayerGame],
    }
}

pub open spec fn teardown_of(s: AppState) -> Teardown {
    match s {
        AppState::MainMenu => Teardown::MainMenu,
        AppState::PauseMenu => Teardown::PauseMenu,
        AppState::InOnePlayerGame => Teardown::Game,
        AppState::InTwoPlayerGame => Teardown::Game,
    }
}

/// Whether teardown `t` removes an entity with markers `tags`.
pub open spec fn removes(t: Teardown, tags: EntityTags) -> bool {
    match t {
        Teardown::MainMenu => tags.on_main_menu,
        Teardown::PauseMenu => tags.on_pause_menu,
        Teardown::Game => tags.on_game_screen,
        Teardown::GameOver => tags.food || tags.snake_segment,
    }
}

/// The ids of the entities of `es` that teardown `t` removes, in order.
pub open spec fn removed_ids(es: Seq<TaggedEntity>, t: Teardown) -> Seq<u64>
    decreases es.len(),
{
    if es.len() == 0 {
        Seq::empty()
    } else {
        let rest = removed_ids(es.drop_last(), t);
        if removes(t, es.last().tags) {
            rest.push(es.last().id)
        } else {
            rest
        }
    }
}

/// Whether teardown `t` stops the music: leaving the main menu or a game
/// does; closing the pause screen and a game over do not.
pub open spec fn music_stops(t: Teardown) -> bool {
    t == Teardown::MainMenu || t == Teardown::Game
}

/// Whether one of the teardowns `ts` removes an entity with markers `tags`.
pub open spec fn removed_by_any(ts: Seq<Teardown>, tags: EntityTags) -> bool {
    exists|k: int| 0 <= k < ts.len() && removes(#[trigger] ts[k], tags)
}

/// The ids of the entities of `es` that one of the teardowns `ts` removes,
/// each once, in order.
pub open spec fn removed_ids_any(es: Seq<TaggedEntity>, ts: Seq<Teardown>) -> Seq<u64>
    decreases es.len(),
{
    if es.len() == 0 {
        Seq::empty()
    } else {
        let rest = removed_ids_any(es.drop_last(), ts);
        if removed_by_any(ts, es.last().tags) {
            rest.push(es.last().id)
        } else {
            rest
        }
    }
}

/// Whether teardown `t` stops the music.
pub fn stops_music(t: Teardown) -> (r: bool)
    ensures
        r == music_stops(t),
{
    match t {
        Teardown::MainMenu => true,
        Teardown::PauseMenu => false,
        Teardown::Game => true,
        Teardown::GameOver => false,
    }
}

/// Whether teardown `t` removes an entity with markers `tags`.
pub fn teardown_removes(t: Teardown, tags: EntityTags) -> (r: bool)
    ensures
        r == removes(t, tags),
{
    match t {
        Teardown::MainMenu => tags.on_main_menu,
        Teardown::PauseMenu => tags.on_pause_menu,
        Teardown::Game => tags.on_game_screen,
        Teardown::GameOver => tags.food || tags.snake_segment,
    }
}

/// The ids of the entities that one of several teardowns, done together,
/// removes: each id once, in the order given.
pub fn entities_to_despawn_all(entities: &Vec<TaggedEntity>, ts: &Vec<Teardown>) -> (r: Vec<u64>)
    ensures
        r@ == removed_ids_any(entities@, ts@),
{
    let mut r: Vec<u64> = Vec::new();
    let mut i: usize = 0;
    while i < entities.len()
        invariant
            i <= entities@.len(),
            r@ == removed_ids_any(entities@.subrange(0, i as int), ts@),
        decreases entities.len() - i,
    {
        let e = entities[i];
        let mut remove = false;
        let mut k: usize = 0;
        while k < ts.len()
            invariant
                k <= ts@.len(),
                remove == exists|j: int| 0 <= j < k && removes(#[trigger] ts@[j], e.tags),
            decreases ts.len() - k,
        {
            if teardown_removes(ts[k], e.tags) {
                remove = true;
            }
            k = k + 1;
        }
        if remove {
            r.push(e.id);
        }
        assert(entities@.subrange(0, i + 1).drop_last() =~= entities@.subrange(0, i as int));
        i = i + 1;
    }
    assert(entities@.subrange(0, i as int) =~= entities@);
    r
}

/// The setup work of entering state `s`, in order.
pub fn setups_on_enter(s: AppState) -> (r: Vec<SceneSetup>)
    ensures
        r@ == setups_of(s),
{
    let r = match s {
        AppState::MainMenu => vec![SceneSetup::MainMenu],
        AppState::PauseMenu => vec![SceneSetup::PauseMenu],
        AppState::InOnePlayerGame => vec![SceneSetup::OnePlayerGame, SceneSetup::SpawnSnake],
        AppState::InTwoPlayerGame => vec![SceneSetup::TwoPlayerGame],
    };
    assert(r@ =~= setups_of(s));
    r
}

/// The teardown of leaving state `s`.
pub fn teardown_on_exit(s: AppState) -> (r: Teardown)
    ensures
        r == teardown_of(s),
{
    match s {
        AppState::MainMenu => Teardown::MainMenu,
        AppState::PauseMenu => Teardown::PauseMenu,
        AppState::InOnePlayerGame => Teardown::Game,
        AppState::InTwoPlayerGame => Teardown::Game,
    }
}

/// The ids of the entities that teardown `t` removes, in the order given.
pub fn entities_to_despawn(entities: &Vec<TaggedEntity>, t: Teardown) -> (r: Vec<u64>)
    ensures
        r@ == removed_ids(entities@, t),
{
    let mut r: Vec<u64> = Vec::new();
    let mut i: usize = 0;
    while i < entities.len()
        invariant
            i <= entities@.len(),
            r@ == removed_ids(entities@.subrange(0, i as int), t),
        decreases entities.len() - i,
    {
        let e = entities[i];
        let remove = teardown_removes(t, e.tags);
        if remove {
            r.push(e.id);
        }
        assert(entities@.subrange(0, i + 1).drop_last() =~= entities@.subrange(0, i as int));
        i = i + 1;
    }
    assert(entities@.subrange(0, i as int) =~= entities@);
    r
}

/// Handles a game over: every food and snake segment is to be despawned, and
/// the snake starts again from its starting layout.
pub fn game_over(snake: &mut Snake, entities: &Vec<TaggedEntity>) -> (r: Vec<u64>)
    ensures
        r@ == removed_ids(entities@, Teardown::GameOver),
        start_snake(old(snake).policy, *final(snake)),
        final(snake).wf(),
{
    let r = entities_to_despawn(entities, Teardown::GameOver);
    *snake = Snake::spawn_snake(snake.policy);
    r
}

/// An entity is among those a teardown removes exactly when the teardown
/// applies to its markers.
pub proof fn lemma_removed_ids_members(es: Seq<TaggedEntity>, t: Teardown)
    ensures
        forall|i: int|
            0 <= i < es.len() && removes(t, #[trigger] es[i].tags) ==> removed_ids(es, t).contains(
                es[i].id,
            ),
        forall|id: u64|
            #[trigger] removed_ids(es, t).contains(id) ==> exists|i: int|
                0 <= i < es.len() && es[i].id == id && removes(t, es[i].tags),
    decreases es.len(),
{
    if es.len() > 0 {
        let init = es.drop_last();
        lemma_removed_ids_members(init, t);
        let rest = removed_ids(init, t);
        assert forall|i: int|
            0 <= i < es.len() && removes(t, #[trigger] es[i].tags) implies removed_ids(
            es,
            t,
        ).contains(es[i].id) by {
            if i < es.len() - 1 {
                assert(init[i] == es[i]);
                let k = choose|k: int| 0 <= k < rest.len() && rest[k] == es[i].id;
                if removes(t, es.last().tags) {
                    assert(removed_ids(es, t)[k] == es[i].id);
                }
            } else {
                assert(removed_ids(es, t).last() == es[i].id);
            }
        }
        assert forall|id: u64| #[trigger] removed_ids(es, t).contains(id) implies exists|i: int|
            0 <= i < es.len() && es[i].id == id && removes(t, es[i].tags) by {
            let k = choose|k: int| 0 <= k < removed_ids(es, t).len() && removed_ids(es, t)[k] == id;
            if k < rest.len() {
                assert(rest.contains(id));
                let i = choose|i: int| 0 <= i < init.len() && init[i].id == id && removes(t, init[i].tags);
                assert(es[i] == init[i]);
            }
        }
    }
}

} // verus!
