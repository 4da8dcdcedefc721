use std::time::Instant;

use endless_jumper::context::Context;
use endless_jumper::engine::{frame_pause, Engine, Phase};
use endless_jumper::event::{Event, Key};
use endless_jumper::registry::{Registry, RegistryItem};
use endless_jumper::signal::Loop;
use endless_jumper::stage::{MissingScene, Part, Scene, Stage};

/// The platform of these tests: the calls made, in order.
type Log = Vec<String>;

fn context() -> Context<Log> {
    Context {
        platform: Vec::new(),
        timer: Instant::now(),
        thread_rng: rand::thread_rng(),
        registry: Registry::new(),
    }
}

/// A scene that records its calls and answers as it was told to.
struct Script {
    name: &'static str,
    on_load: Vec<Loop>,
    on_event: Vec<Loop>,
    on_tick: Vec<Loop>,
    on_unload: Vec<Loop>,
}

fn next(answers: &mut Vec<Loop>) -> Loop {
    if answers.is_empty() {
        Loop::Continue
    } else {
        answers.remove(0)
    }
}

fn script(name: &'static str) -> Script {
    Script { name, on_load: vec![], on_event: vec![], on_tick: vec![], on_unload: vec![] }
}

impl Scene<Log> for Script {
    fn new() -> Self {
        script("unnamed")
    }

    fn on_load(&mut self, ctx: &mut Context<Log>) -> Loop {
        ctx.platform.push(format!("{}.load", self.name));
        next(&mut self.on_load)
    }

    fn on_unload(&mut self, ctx: &mut Context<Log>) -> Loop {
        ctx.platform.push(format!("{}.unload", self.name));
        next(&mut self.on_unload)
    }

    fn on_event(&mut self, event: Event, ctx: &mut Context<Log>) -> Loop {
        ctx.platform.push(format!("{}.event {:?}", self.name, event));
        next(&mut self.on_event)
    }

    fn on_tick(&mut self, ctx: &mut Context<Log>) -> Loop {
        ctx.platform.push(format!("{}.tick", self.name));
        next(&mut self.on_tick)
    }
}

/// A scene that writes none of the callbacks.
struct Idle;

impl Scene<Log> for Idle {
    fn new() -> Self {
        Idle
    }
}

fn go(name: &str) -> Loop {
    Loop::GoToScene(name.to_string())
}

/// Runs frames as a host does, each with the events given for it, until
/// the run stops or the frames are used up. Says whether the run stopped.
fn run_frames(engine: &mut Engine<Log>, frames: &[Vec<Event>]) -> bool {
    for events in frames {
        assert_eq!(engine.phase(), Phase::Ready);
        if !engine.begin_frame().unwrap() {
            return true;
        }
        for event in events {
            if !engine.dispatch(*event) {
                return true;
            }
        }
        if !engine.end_frame() {
            return true;
        }
    }
    false
}

fn log(engine: &Engine<Log>) -> Vec<String> {
    engine.context().platform.clone()
}

#[test]
fn first_frame_loads_only_the_initial_scene() {
    let mut stage: Stage<Log> = Stage::new();
    stage.register("menu".to_string(), Box::new(script("menu")));
    stage.register("game".to_string(), Box::new(script("game")));
    let mut engine = Engine::new("menu".to_string(), stage, context());
    assert!(engine.should_load());
    assert!(!engine.should_unload());
    assert!(!run_frames(&mut engine, &[vec![]]));
    assert_eq!(log(&engine), vec!["menu.load", "menu.tick"]);
    let loads_of_menu = log(&engine).iter().filter(|c| **c == "menu.load").count();
    let loads_of_game = log(&engine).iter().filter(|c| **c == "game.load").count();
    assert_eq!(loads_of_menu, 1);
    assert_eq!(loads_of_game, 0);
    assert_eq!(engine.scene_name(), "menu");
    assert!(!engine.should_load());
    assert!(!engine.should_unload());
}

#[test]
fn continue_never_loads_or_unloads_again() {
    let mut stage: Stage<Log> = Stage::new();
    stage.register("menu".to_string(), Box::new(script("menu")));
    stage.register("game".to_string(), Box::new(script("game")));
    let mut engine = Engine::new("menu".to_string(), stage, context());
    let motion = Event::MouseMotion { x: 1, y: 2 };
    let frames = vec![vec![], vec![motion, Event::Other], vec![], vec![motion]];
    assert!(!run_frames(&mut engine, &frames));
    assert_eq!(
        log(&engine),
        vec![
            "menu.load",
            "menu.tick",
            "menu.event MouseMotion { x: 1, y: 2 }",
            "menu.event Other",
            "menu.tick",
            "menu.tick",
            "menu.event MouseMotion { x: 1, y: 2 }",
            "menu.tick",
        ]
    );
    assert_eq!(engine.scene_name(), "menu");
    assert_eq!(engine.phase(), Phase::Ready);
}

#[test]
fn go_to_scene_unloads_the_source_before_it_loads_the_target() {
    let mut menu = script("menu");
    menu.on_tick = vec![Loop::Continue, go("game")];
    let mut stage: Stage<Log> = Stage::new();
    stage.register("menu".to_string(), Box::new(menu));
    stage.register("game".to_string(), Box::new(script("game")));
    let mut engine = Engine::new("menu".to_string(), stage, context());
    assert!(!run_frames(&mut engine, &[vec![], vec![]]));
    assert_eq!(engine.scene_name(), "game");
    assert!(engine.should_load());
    assert!(!engine.should_unload());
    assert!(!run_frames(&mut engine, &[vec![Event::Other], vec![]]));
    assert_eq!(
        log(&engine),
        vec![
            "menu.load",
            "menu.tick",
            "menu.tick",
            "menu.unload",
            "game.load",
            "game.event Other",
            "game.tick",
            "game.tick",
        ]
    );
}

#[test]
fn events_of_the_frame_still_go_to_the_old_scene() {
    let mut menu = script("menu");
    menu.on_event = vec![go("game")];
    let mut stage: Stage<Log> = Stage::new();
    stage.register("menu".to_string(), Box::new(menu));
    stage.register("game".to_string(), Box::new(script("game")));
    let mut engine = Engine::new("menu".to_string(), stage, context());
    let up = Event::MouseButtonUp { x: 400, y: 330 };
    let key = Event::KeyDown { key: Key::Space };
    assert!(!run_frames(&mut engine, &[vec![up, key, Event::Quit]]));
    assert_eq!(
        log(&engine),
        vec![
            "menu.load",
            "menu.event MouseButtonUp { x: 400, y: 330 }",
            "menu.event KeyDown { key: Space }",
            "menu.event Quit",
            "menu.tick",
            "menu.unload",
        ]
    );
    assert_eq!(engine.scene_name(), "game");
    assert!(engine.should_load());
    assert!(!run_frames(&mut engine, &[vec![key]]));
    assert_eq!(
        log(&engine)[6..],
        ["game.load", "game.event KeyDown { key: Space }", "game.tick"]
    );
}

#[test]
fn a_later_signal_overrides_an_earlier_one() {
    let mut menu = script("menu");
    menu.on_event = vec![go("game"), go("game_over")];
    let mut stage: Stage<Log> = Stage::new();
    stage.register("menu".to_string(), Box::new(menu));
    stage.register("game".to_string(), Box::new(script("game")));
    stage.register("game_over".to_string(), Box::new(script("game_over")));
    let mut engine = Engine::new("menu".to_string(), stage, context());
    assert!(!run_frames(&mut engine, &[vec![Event::Other, Event::Other], vec![]]));
    assert_eq!(
        log(&engine),
        vec![
            "menu.load",
            "menu.event Other",
            "menu.event Other",
            "menu.tick",
            "menu.unload",
            "game_over.load",
            "game_over.tick",
        ]
    );
}

#[test]
fn break_on_tick_unloads_once_and_ends_the_run() {
    let mut menu = script("menu");
    menu.on_event = vec![go("game")];
    let mut game = script("game");
    game.on_tick = vec![Loop::Continue, Loop::Break];
    let mut stage: Stage<Log> = Stage::new();
    stage.register("menu".to_string(), Box::new(menu));
    stage.register("game".to_string(), Box::new(game));
    let mut engine = Engine::new("menu".to_string(), stage, context());
    let frames = vec![vec![Event::Other], vec![], vec![], vec![], vec![]];
    assert!(run_frames(&mut engine, &frames));
    assert_eq!(engine.phase(), Phase::Stopped);
    assert!(engine.should_unload());
    engine.shutdown();
    assert_eq!(engine.phase(), Phase::Finished);
    assert_eq!(
        log(&engine),
        vec![
            "menu.load",
            "menu.event Other",
            "menu.tick",
            "menu.unload",
            "game.load",
            "game.tick",
            "game.tick",
            "game.unload",
        ]
    );
    let unloads_of_game = log(&engine).iter().filter(|c| **c == "game.unload").count();
    assert_eq!(unloads_of_game, 1);
}

#[test]
fn break_on_load_skips_events_and_tick() {
    let mut menu = script("menu");
    menu.on_load = vec![Loop::Break];
    let mut stage: Stage<Log> = Stage::new();
    stage.register("menu".to_string(), Box::new(menu));
    let mut engine = Engine::new("menu".to_string(), stage, context());
    assert_eq!(engine.begin_frame(), Ok(false));
    assert_eq!(engine.phase(), Phase::Stopped);
    engine.shutdown();
    assert_eq!(log(&engine), vec!["menu.load", "menu.unload"]);
}

#[test]
fn break_on_event_leaves_the_rest_undelivered() {
    let mut menu = script("menu");
    menu.on_event = vec![Loop::Continue, Loop::Break];
    let mut stage: Stage<Log> = Stage::new();
    stage.register("menu".to_string(), Box::new(menu));
    let mut engine = Engine::new("menu".to_string(), stage, context());
    assert!(run_frames(&mut engine, &[vec![Event::Other, Event::Quit, Event::Other]]));
    engine.shutdown();
    assert_eq!(
        log(&engine),
        vec!["menu.load", "menu.event Other", "menu.event Quit", "menu.unload"]
    );
}

#[test]
fn unload_can_redirect_the_next_load() {
    let mut menu = script("menu");
    menu.on_tick = vec![go("game")];
    menu.on_unload = vec![go("game_over")];
    let mut stage: Stage<Log> = Stage::new();
    stage.register("menu".to_string(), Box::new(menu));
    stage.register("game".to_string(), Box::new(script("game")));
    stage.register("game_over".to_string(), Box::new(script("game_over")));
    let mut engine = Engine::new("menu".to_string(), stage, context());
    assert!(!run_frames(&mut engine, &[vec![], vec![]]));
    assert_eq!(
        log(&engine),
        vec!["menu.load", "menu.tick", "menu.unload", "game_over.load", "game_over.tick"]
    );
}

#[test]
fn break_on_unload_unloads_once_more_at_shutdown() {
    let mut menu = script("menu");
    menu.on_tick = vec![go("game")];
    menu.on_unload = vec![Loop::Break];
    let mut stage: Stage<Log> = Stage::new();
    stage.register("menu".to_string(), Box::new(menu));
    stage.register("game".to_string(), Box::new(script("game")));
    let mut engine = Engine::new("menu".to_string(), stage, context());
    assert!(run_frames(&mut engine, &[vec![]]));
    engine.shutdown();
    assert_eq!(log(&engine), vec!["menu.load", "menu.tick", "menu.unload", "menu.unload"]);
}

#[test]
fn break_after_go_to_scene_unloads_the_scene_of_the_frame() {
    let mut menu = script("menu");
    menu.on_event = vec![go("game")];
    menu.on_tick = vec![Loop::Break];
    let mut stage: Stage<Log> = Stage::new();
    stage.register("menu".to_string(), Box::new(menu));
    stage.register("game".to_string(), Box::new(script("game")));
    let mut engine = Engine::new("menu".to_string(), stage, context());
    assert!(run_frames(&mut engine, &[vec![Event::Other]]));
    assert_eq!(engine.scene_name(), "game");
    engine.shutdown();
    assert_eq!(engine.phase(), Phase::Finished);
    assert_eq!(
        log(&engine),
        vec!["menu.load", "menu.event Other", "menu.tick", "menu.unload"]
    );
}

#[test]
fn go_to_scene_on_load_then_break_unloads_the_loaded_scene() {
    let mut menu = script("menu");
    menu.on_load = vec![go("game")];
    menu.on_event = vec![Loop::Break];
    let mut stage: Stage<Log> = Stage::new();
    stage.register("menu".to_string(), Box::new(menu));
    stage.register("game".to_string(), Box::new(script("game")));
    let mut engine = Engine::new("menu".to_string(), stage, context());
    assert!(run_frames(&mut engine, &[vec![Event::Quit]]));
    engine.shutdown();
    assert_eq!(log(&engine), vec!["menu.load", "menu.event Quit", "menu.unload"]);
}

#[test]
fn missing_initial_scene_is_reported() {
    let mut stage: Stage<Log> = Stage::new();
    stage.register("menu".to_string(), Box::new(script("menu")));
    let mut engine = Engine::new("intro".to_string(), stage, context());
    assert_eq!(engine.begin_frame(), Err(MissingScene { name: "intro".to_string() }));
    assert_eq!(engine.phase(), Phase::Ready);
    assert!(engine.context().platform.is_empty());
}

#[test]
fn missing_target_scene_is_reported_in_the_next_frame() {
    let mut menu = script("menu");
    menu.on_tick = vec![go("Game")];
    let mut stage: Stage<Log> = Stage::new();
    stage.register("menu".to_string(), Box::new(menu));
    stage.register("game".to_string(), Box::new(script("game")));
    let mut engine = Engine::new("menu".to_string(), stage, context());
    assert!(!run_frames(&mut engine, &[vec![]]));
    assert_eq!(engine.begin_frame(), Err(MissingScene { name: "Game".to_string() }));
    assert_eq!(log(&engine), vec!["menu.load", "menu.tick", "menu.unload"]);
}

#[test]
fn shutdown_needs_no_scene_but_the_one_of_the_frame() {
    let mut menu = script("menu");
    menu.on_event = vec![go("nowhere")];
    menu.on_tick = vec![Loop::Break];
    let mut stage: Stage<Log> = Stage::new();
    stage.register("menu".to_string(), Box::new(menu));
    let mut engine = Engine::new("menu".to_string(), stage, context());
    assert!(run_frames(&mut engine, &[vec![Event::Other]]));
    assert_eq!(engine.phase(), Phase::Stopped);
    assert_eq!(engine.scene_name(), "nowhere");
    engine.shutdown();
    assert_eq!(engine.phase(), Phase::Finished);
    assert_eq!(
        log(&engine),
        vec!["menu.load", "menu.event Other", "menu.tick", "menu.unload"]
    );
}

#[test]
fn registry_value_survives_the_move_to_another_scene() {
    struct Game;
    impl Scene<Log> for Game {
        fn new() -> Self {
            Game
        }
        fn on_tick(&mut self, ctx: &mut Context<Log>) -> Loop {
            ctx.registry.insert("points".to_string(), RegistryItem::Number(42));
            Loop::GoToScene("game_over".to_string())
        }
    }
    struct GameOver;
    impl Scene<Log> for GameOver {
        fn new() -> Self {
            GameOver
        }
        fn on_load(&mut self, ctx: &mut Context<Log>) -> Loop {
            let points = ctx.registry.get("points").unwrap();
            ctx.platform.push(format!("points {}", points.to_string()));
            Loop::Continue
        }
    }
    let mut stage: Stage<Log> = Stage::new();
    stage.add_scene::<Game>("game".to_string());
    stage.add_scene::<GameOver>("game_over".to_string());
    let mut engine = Engine::new("game".to_string(), stage, context());
    assert!(!run_frames(&mut engine, &[vec![], vec![]]));
    assert_eq!(log(&engine), vec!["points 42"]);
    assert_eq!(engine.context().registry.get("points"), Some(RegistryItem::Number(42)));
    assert_eq!(engine.scene_name(), "game_over");
}

#[test]
fn unwritten_callbacks_continue() {
    let mut stage: Stage<Log> = Stage::new();
    stage.add_scene::<Idle>("idle".to_string());
    let mut engine = Engine::new("idle".to_string(), stage, context());
    assert!(!run_frames(&mut engine, &[vec![Event::Quit], vec![]]));
    assert_eq!(engine.phase(), Phase::Ready);
    assert_eq!(engine.scene_name(), "idle");
    assert!(!engine.should_load());
    assert!(!engine.should_unload());
}

#[test]
fn last_registration_wins() {
    let mut stage: Stage<Log> = Stage::new();
    stage.register("menu".to_string(), Box::new(script("first")));
    stage.register("game".to_string(), Box::new(script("game")));
    stage.register("menu".to_string(), Box::new(script("second")));
    assert_eq!(stage.len(), 2);
    assert_eq!(stage.position("menu"), Ok(0));
    assert_eq!(stage.position("game"), Ok(1));
    assert_eq!(stage.position("Menu"), Err(MissingScene { name: "Menu".to_string() }));
    assert!(stage.get_mut("game").is_ok());
    assert!(stage.get_mut("gone").is_err());
    let mut engine = Engine::new("menu".to_string(), stage, context());
    assert!(!run_frames(&mut engine, &[vec![]]));
    assert_eq!(log(&engine), vec!["second.load", "second.tick"]);
}

#[test]
fn register_part_puts_the_part_under_the_name() {
    let mut stage: Stage<Log> = Stage::new();
    stage.register_part("menu".to_string(), Part { scene: Box::new(script("first")) });
    stage.register_part("game".to_string(), Part { scene: Box::new(script("game")) });
    stage.register_part("menu".to_string(), Part { scene: Box::new(script("second")) });
    assert_eq!(stage.len(), 2);
    assert_eq!(stage.position("menu"), Ok(0));
    assert_eq!(stage.position("game"), Ok(1));
    let mut ctx = context();
    stage.scene_mut(0).on_tick(&mut ctx);
    stage.scene_mut(1).on_tick(&mut ctx);
    stage.get_mut("menu").unwrap().on_load(&mut ctx);
    assert_eq!(ctx.platform, vec!["second.tick", "game.tick", "second.load"]);
}

#[test]
fn new_engine_keeps_the_context_it_is_given() {
    let mut stage: Stage<Log> = Stage::new();
    stage.register("menu".to_string(), Box::new(script("menu")));
    let mut ctx = context();
    ctx.platform.push("before".to_string());
    ctx.registry.insert("points".to_string(), RegistryItem::Number(42));
    let engine = Engine::new("menu".to_string(), stage, ctx);
    assert_eq!(engine.context().platform, vec!["before"]);
    assert_eq!(engine.context().registry.get("points"), Some(RegistryItem::Number(42)));
    assert_eq!(engine.context().registry.len(), 1);
}

#[test]
fn frame_pause_fills_the_budget() {
    assert_eq!(frame_pause(0), Some(15));
    assert_eq!(frame_pause(1), Some(14));
    assert_eq!(frame_pause(14), Some(1));
    assert_eq!(frame_pause(15), None);
    assert_eq!(frame_pause(16), None);
    assert_eq!(frame_pause(u64::MAX), None);
}
