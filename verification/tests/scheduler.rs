use arcaders::phi::data::{GeometryError, UNIT};
use arcaders::phi::events::{Events, KeyState};
use arcaders::phi::gfx::{Renderer, Sprite};
use arcaders::phi::{
    FrameClock, LoopState, MainLoop, Outcome, Phi, Tick, ViewError, FRAME_RATE, INTERVAL,
};
use arcaders::views::game::GameAssets;
use arcaders::views::main_menu::MainMenuView;
use arcaders::views::shared::BgSet;
use arcaders::views::ActiveView;

fn assets() -> GameAssets {
    let ship = Sprite::new(0, 129, 117);
    let asteroid = Sprite::new(1, 2016, 672);
    let layer = Sprite::new(2, 800, 600);
    GameAssets {
        spaceship: ship,
        asteroid,
        background: BgSet { back: layer, middle: layer, front: layer },
    }
}

fn menu() -> ActiveView {
    let label = Sprite::new(3, 120, 40);
    ActiveView::MainMenu(MainMenuView::new(label, label, label, label, assets()))
}

fn context() -> Phi {
    Phi::new(Events::new(), Renderer::new(800, 600))
}

#[test]
fn the_interval_is_a_sixtieth_of_a_second() {
    assert_eq!(FRAME_RATE, 60);
    assert_eq!(INTERVAL, 17);
    assert!(FRAME_RATE * (INTERVAL - 1) < 1_000);
    assert!(FRAME_RATE * INTERVAL >= 1_000);
}

#[test]
fn too_early_a_tick_waits_for_the_rest_of_the_interval() {
    let mut clock = FrameClock::new(1_000);
    assert_eq!(clock.tick(1_000), Tick::Wait(17));
    assert_eq!(clock.tick(1_001), Tick::Wait(16));
    assert_eq!(clock.tick(1_015), Tick::Wait(2));
    assert_eq!(clock.tick(1_016), Tick::Wait(1));
    assert_eq!(clock, FrameClock::new(1_000));
    assert_eq!(clock.before(), 1_000);
}

#[test]
fn a_tick_after_the_interval_is_a_frame() {
    let mut clock = FrameClock::new(1_000);
    assert_eq!(clock.tick(1_017), Tick::Frame { elapsed: 17_000, fps: None });
    assert_eq!(clock.before(), 1_017);
    assert_eq!(clock.tick(1_020), Tick::Wait(14));
    assert_eq!(clock.tick(1_033), Tick::Wait(1));
    assert_eq!(clock.before(), 1_017);
    assert_eq!(clock.tick(1_050), Tick::Frame { elapsed: 33_000, fps: None });
}

#[test]
fn sixteen_milliseconds_are_less_than_a_sixtieth_of_a_second() {
    let mut clock = FrameClock::new(0);
    assert_eq!(clock.tick(16), Tick::Wait(1));
    assert_eq!(clock, FrameClock::new(0));
    assert_eq!(clock.tick(17), Tick::Frame { elapsed: 17_000, fps: None });
}

#[test]
fn elapsed_is_measured_from_the_last_frame_not_the_last_tick() {
    let mut clock = FrameClock::new(0);
    assert_eq!(clock.tick(10), Tick::Wait(7));
    assert_eq!(clock.tick(15), Tick::Wait(2));
    assert_eq!(clock.tick(18), Tick::Frame { elapsed: 18_000, fps: None });
}

#[test]
fn no_second_holds_more_than_sixty_frames() {
    let mut clock = FrameClock::new(0);
    let mut now = 0;
    let mut frames = 0;
    while now < 1_000 {
        now += 1;
        if let Tick::Frame { elapsed, fps } = clock.tick(now) {
            assert_eq!((elapsed, fps), (17_000, None));
            frames += 1;
        }
    }
    assert_eq!(frames, 58);
    assert_eq!(clock.tick(1_003), Tick::Frame { elapsed: 17_000, fps: Some(59) });
}

#[test]
fn the_frames_of_a_second_are_reported_once_it_is_over() {
    let mut clock = FrameClock::new(0);
    let mut now = 0;
    for _ in 0..50 {
        now += 20;
        assert_eq!(clock.tick(now), Tick::Frame { elapsed: 20_000, fps: None });
    }
    assert_eq!(now, 1_000);
    assert_eq!(clock.tick(1_020), Tick::Frame { elapsed: 20_000, fps: Some(51) });
    assert_eq!(clock.tick(1_040), Tick::Frame { elapsed: 20_000, fps: None });
    assert_eq!(clock.tick(2_021), Tick::Frame { elapsed: 981_000, fps: Some(2) });
}

#[test]
fn a_long_pause_is_one_long_frame() {
    let mut clock = FrameClock::new(0);
    assert_eq!(
        clock.tick(u32::MAX),
        Tick::Frame { elapsed: 4_294_967_295_000, fps: Some(1) }
    );
    assert_eq!(clock.tick(u32::MAX), Tick::Wait(17));
}

#[test]
fn the_loop_starts_running() {
    let main_loop = MainLoop::new(menu(), 500);
    assert_eq!(main_loop.state(), LoopState::Running);
    assert!(matches!(main_loop.view(), ActiveView::MainMenu(_)));
}

#[test]
fn the_loop_ticks_as_its_clock_does() {
    let mut main_loop = MainLoop::new(menu(), 500);
    assert_eq!(main_loop.tick(510), Tick::Wait(7));
    assert_eq!(main_loop.clock().before(), 500);
    assert_eq!(main_loop.tick(520), Tick::Frame { elapsed: 20_000, fps: None });
    assert_eq!(main_loop.state(), LoopState::Running);
}

#[test]
fn a_view_that_continues_has_its_frame_presented() {
    let mut main_loop = MainLoop::new(menu(), 0);
    let mut phi = context();
    assert_eq!(main_loop.frame(&mut phi, 16_000), Ok(Outcome::Present));
    assert_eq!(main_loop.state(), LoopState::Running);
    assert!(matches!(main_loop.view(), ActiveView::MainMenu(_)));
    assert!(!phi.renderer.take_commands().is_empty());
}

#[test]
fn a_view_that_quits_ends_the_loop() {
    let mut main_loop = MainLoop::new(menu(), 0);
    let mut phi = context();
    phi.events.pump(KeyState { quit: true, ..KeyState::new() });
    assert_eq!(main_loop.frame(&mut phi, 16_000), Ok(Outcome::Stop));
    assert_eq!(main_loop.state(), LoopState::Terminated);
    assert!(phi.renderer.take_commands().is_empty());
}

#[test]
fn a_change_of_view_swaps_the_view_and_presents_nothing() {
    let mut main_loop = MainLoop::new(menu(), 0);
    let mut phi = context();
    phi.events.pump(KeyState { key_space: true, ..KeyState::new() });
    assert_eq!(main_loop.frame(&mut phi, 16_000), Ok(Outcome::Skip));
    assert_eq!(main_loop.state(), LoopState::Running);
    assert!(matches!(main_loop.view(), ActiveView::Game(_)));
    assert!(phi.renderer.take_commands().is_empty());
    phi.events.pump(KeyState { key_space: true, ..KeyState::new() });
    assert_eq!(main_loop.frame(&mut phi, 16_000), Ok(Outcome::Present));
    match main_loop.view() {
        ActiveView::Game(game) => {
            assert_eq!(game.player().rect().x, 64 * UNIT);
            assert!(game.bullets().is_empty());
        }
        ActiveView::MainMenu(_) => panic!("the game has taken over"),
    }
}

#[test]
fn an_error_of_the_view_ends_the_loop() {
    let mut main_loop = MainLoop::new(menu(), 0);
    let mut phi = Phi::new(Events::new(), Renderer::new(40, 600));
    phi.events.pump(KeyState { key_space: true, ..KeyState::new() });
    assert_eq!(main_loop.frame(&mut phi, 16_000), Ok(Outcome::Skip));
    phi.events.pump(KeyState::new());
    assert_eq!(
        main_loop.frame(&mut phi, 16_000),
        Err(ViewError::Geometry(GeometryError::LargerThanBounds))
    );
    assert_eq!(main_loop.state(), LoopState::Terminated);
}
