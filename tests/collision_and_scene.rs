use unfair_advantage_lib::collision::{is_slayer, is_snake_head, slayer_death, slayer_victim, CollisionEvent, CollisionLayers};
use unfair_advantage_lib::grid::{Direction, Position};
use unfair_advantage_lib::scene::{
    entities_to_despawn, entities_to_despawn_all, game_over, setups_on_enter, stops_music, teardown_on_exit, EntityTags, SceneSetup, TaggedEntity, Teardown,
};
use unfair_advantage_lib::slayer::{slayer_animator, slayer_controls, Facing, SlayerKeys, SwordDirection};
use unfair_advantage_lib::snake::{BoundsPolicy, Snake};
use unfair_advantage_lib::states::AppState;

const SLAYER: CollisionLayers = CollisionLayers { slayer: true, snake_head: false };
const HEAD: CollisionLayers = CollisionLayers { slayer: false, snake_head: true };
const NONE: CollisionLayers = CollisionLayers { slayer: false, snake_head: false };
const BOTH: CollisionLayers = CollisionLayers { slayer: true, snake_head: true };

fn event(started: bool, l1: CollisionLayers, l2: CollisionLayers) -> CollisionEvent {
    CollisionEvent { started, entity_1: 11, entity_2: 22, layers_1: l1, layers_2: l2 }
}

#[test]
fn slayer_touching_head_dies_either_order() {
    assert_eq!(slayer_victim(&event(true, SLAYER, HEAD)), Some(11));
    assert_eq!(slayer_victim(&event(true, HEAD, SLAYER)), Some(22));
}

#[test]
fn other_tag_pairs_do_not_classify() {
    assert_eq!(slayer_victim(&event(true, SLAYER, SLAYER)), None);
    assert_eq!(slayer_victim(&event(true, HEAD, HEAD)), None);
    assert_eq!(slayer_victim(&event(true, SLAYER, NONE)), None);
    assert_eq!(slayer_victim(&event(true, BOTH, HEAD)), None);
    assert_eq!(slayer_victim(&event(false, SLAYER, HEAD)), None);
}

#[test]
fn layer_predicates() {
    assert!(is_slayer(SLAYER) && !is_slayer(BOTH) && !is_slayer(HEAD));
    assert!(is_snake_head(HEAD) && !is_snake_head(BOTH) && !is_snake_head(SLAYER));
}

#[test]
fn slayer_death_collects_victims_in_order() {
    let events = vec![
        event(true, HEAD, SLAYER),
        event(true, SLAYER, SLAYER),
        event(false, SLAYER, HEAD),
        CollisionEvent { started: true, entity_1: 5, entity_2: 6, layers_1: SLAYER, layers_2: HEAD },
    ];
    assert_eq!(slayer_death(&events), vec![22, 5]);
    assert!(slayer_death(&vec![]).is_empty());
}

fn tags() -> EntityTags {
    EntityTags { on_main_menu: false, on_pause_menu: false, on_game_screen: false, food: false, snake_segment: false }
}

fn scene() -> Vec<TaggedEntity> {
    vec![
        // the game's camera
        TaggedEntity { id: 1, tags: EntityTags { on_game_screen: true, ..tags() } },
        TaggedEntity { id: 2, tags: EntityTags { snake_segment: true, on_game_screen: true, ..tags() } },
        TaggedEntity { id: 3, tags: EntityTags { food: true, on_game_screen: true, ..tags() } },
        // owned by no scene
        TaggedEntity { id: 4, tags: tags() },
        TaggedEntity { id: 5, tags: EntityTags { on_pause_menu: true, ..tags() } },
        // the main menu's camera
        TaggedEntity { id: 6, tags: EntityTags { on_main_menu: true, ..tags() } },
        TaggedEntity { id: 7, tags: EntityTags { snake_segment: true, on_game_screen: true, ..tags() } },
    ]
}

#[test]
fn game_over_despawns_food_and_segments_and_respawns() {
    let mut s = Snake {
        segments: vec![Position { x: 1, y: 1 }, Position { x: 1, y: 2 }],
        direction: Direction::Down,
        last_tail_position: Some(Position { x: 1, y: 3 }),
        policy: BoundsPolicy::GameOver,
    };
    let gone = game_over(&mut s, &scene());
    assert_eq!(gone, vec![2, 3, 7]);
    let fresh = Snake::spawn_snake(BoundsPolicy::GameOver);
    assert_eq!(s.segments, fresh.segments);
    assert_eq!(s.segments.len(), 7);
    assert_eq!(s.segments[0], Position { x: 8, y: 9 });
    assert_eq!(s.direction, Direction::Right);
    assert_eq!(s.last_tail_position, None);
    assert_eq!(s.policy, BoundsPolicy::GameOver);
}

#[test]
fn teardowns_select_their_entities() {
    assert_eq!(entities_to_despawn(&scene(), Teardown::MainMenu), vec![6]);
    assert_eq!(entities_to_despawn(&scene(), Teardown::PauseMenu), vec![5]);
    assert_eq!(entities_to_despawn(&scene(), Teardown::Game), vec![1, 2, 3, 7]);
    assert!(entities_to_despawn(&vec![], Teardown::Game).is_empty());
}

#[test]
fn states_map_to_setups_and_teardowns() {
    assert_eq!(setups_on_enter(AppState::InOnePlayerGame), vec![SceneSetup::OnePlayerGame, SceneSetup::SpawnSnake]);
    assert_eq!(setups_on_enter(AppState::MainMenu), vec![SceneSetup::MainMenu]);
    assert_eq!(setups_on_enter(AppState::PauseMenu), vec![SceneSetup::PauseMenu]);
    assert_eq!(setups_on_enter(AppState::InTwoPlayerGame), vec![SceneSetup::TwoPlayerGame]);
    assert_eq!(teardown_on_exit(AppState::PauseMenu), Teardown::PauseMenu);
    assert_eq!(teardown_on_exit(AppState::InTwoPlayerGame), Teardown::Game);
    assert_eq!(teardown_on_exit(AppState::MainMenu), Teardown::MainMenu);
}

fn keys() -> SlayerKeys {
    SlayerKeys { a: false, d: false, s: false, w: false, b_just_pressed: false }
}

#[test]
fn slayer_movement_intent() {
    let c = slayer_controls(SlayerKeys { a: true, d: true, w: true, ..keys() }, Facing::Right, false);
    assert_eq!((c.x, c.y), (-1, 1));
    assert_eq!(c.sword, None);
    let c = slayer_controls(SlayerKeys { d: true, s: true, ..keys() }, Facing::Right, false);
    assert_eq!((c.x, c.y), (1, -1));
}

#[test]
fn slayer_attack_directions() {
    let attack = |k: SlayerKeys, f: Facing| slayer_controls(SlayerKeys { b_just_pressed: true, ..k }, f, true).sword;
    assert_eq!(attack(SlayerKeys { d: true, w: true, ..keys() }, Facing::Left), Some(SwordDirection::Right));
    assert_eq!(attack(SlayerKeys { a: true, ..keys() }, Facing::Right), Some(SwordDirection::Left));
    assert_eq!(attack(SlayerKeys { w: true, ..keys() }, Facing::Left), Some(SwordDirection::Up));
    assert_eq!(attack(SlayerKeys { s: true, ..keys() }, Facing::Left), Some(SwordDirection::Down));
    assert_eq!(attack(keys(), Facing::Left), Some(SwordDirection::Left));
    assert_eq!(attack(keys(), Facing::Right), Some(SwordDirection::Right));
}

#[test]
fn slayer_sword_rests_when_ready_and_waits_on_cooldown() {
    assert_eq!(slayer_controls(keys(), Facing::Left, true).sword, Some(SwordDirection::NotAttacking));
    let c = slayer_controls(SlayerKeys { b_just_pressed: true, ..keys() }, Facing::Left, false);
    assert_eq!(c.sword, None);
}

#[test]
fn animation_frames_cycle() {
    assert_eq!(slayer_animator(0, 8), 1);
    assert_eq!(slayer_animator(6, 8), 7);
    assert_eq!(slayer_animator(7, 8), 0);
    assert_eq!(slayer_animator(9, 8), 2);
    assert_eq!(slayer_animator(0, 1), 0);
    assert_eq!(slayer_animator(usize::MAX, 8), 0);
}

#[test]
fn quitting_from_pause_despawns_each_entity_once() {
    let gone = entities_to_despawn_all(&scene(), &vec![Teardown::PauseMenu, Teardown::Game]);
    assert_eq!(gone, vec![1, 2, 3, 5, 7]);
    assert!(entities_to_despawn_all(&scene(), &vec![]).is_empty());
}

#[test]
fn music_stops_when_leaving_menu_or_game() {
    assert!(stops_music(Teardown::MainMenu));
    assert!(stops_music(Teardown::Game));
    assert!(!stops_music(Teardown::PauseMenu));
    assert!(!stops_music(Teardown::GameOver));
}
