use epaper_session::plan::{step, ANIMATION_FRAMES, MOVING_START, PLAN_LEN, SPINNER_START};
use epaper_session::session::{Command, Session};
use epaper_session::{
    Action, BusSettings, Caption, FontSize, Glyph, PinRequest, PinRole, RefreshMode, Rotation,
};

fn all_steps() -> Vec<Action> {
    (0..PLAN_LEN).map(|k| step(k).unwrap()).collect()
}

#[test]
fn bus_is_configured_first() {
    let steps = all_steps();
    assert_eq!(
        steps[0],
        Action::ConfigureBus(BusSettings { bits_per_word: 8, max_speed_hz: 4_000_000, mode: 0 })
    );
    let first_panel = steps.iter().position(|a| *a == Action::InitPanel).unwrap();
    assert_eq!(first_panel, 5);
    assert_eq!(steps.iter().filter(|a| matches!(a, Action::ConfigureBus(_))).count(), 1);
}

#[test]
fn pins_are_requested_with_their_roles() {
    assert_eq!(
        step(1),
        Some(Action::RequestPin(PinRequest { line: 8, role: PinRole::ChipSelect, output: true, initial_level: 1 }))
    );
    assert_eq!(
        step(2),
        Some(Action::RequestPin(PinRequest { line: 24, role: PinRole::Busy, output: false, initial_level: 0 }))
    );
    assert_eq!(
        step(3),
        Some(Action::RequestPin(PinRequest { line: 25, role: PinRole::DataCommand, output: true, initial_level: 1 }))
    );
    assert_eq!(
        step(4),
        Some(Action::RequestPin(PinRequest { line: 17, role: PinRole::Reset, output: true, initial_level: 1 }))
    );
}

#[test]
fn rotations_in_order_before_full_push() {
    let steps = all_steps();
    let rotations: Vec<(usize, Rotation)> = steps
        .iter()
        .enumerate()
        .filter_map(|(k, a)| match a {
            Action::SetRotation(r) => Some((k, *r)),
            _ => None,
        })
        .collect();
    assert_eq!(
        rotations.iter().map(|p| p.1).collect::<Vec<_>>(),
        vec![Rotation::Rotate0, Rotation::Rotate90, Rotation::Rotate180, Rotation::Rotate270]
    );
    let push = steps.iter().position(|a| *a == Action::UpdateFrame).unwrap();
    assert!(rotations.iter().all(|p| p.0 < push));
    // no clear between the rotated captions
    assert!(steps[6..push].iter().all(|a| *a != Action::ClearBuffer));
    assert_eq!(step(7), Some(Action::DrawText { caption: Caption::Rotation(Rotation::Rotate0), x: 5, y: 50 }));
    assert_eq!(step(13), Some(Action::DrawText { caption: Caption::Rotation(Rotation::Rotate270), x: 5, y: 50 }));
}

#[test]
fn full_refresh_once_then_pause() {
    let steps = all_steps();
    assert_eq!(steps.iter().filter(|a| **a == Action::UpdateFrame).count(), 1);
    assert_eq!(steps.iter().filter(|a| **a == Action::DisplayFrame).count(), 1);
    assert_eq!(steps[14], Action::UpdateFrame);
    assert_eq!(steps[15], Action::DisplayFrame);
    assert_eq!(steps[16], Action::Delay(5000));
}

#[test]
fn clock_frame_is_composed_and_not_pushed() {
    assert_eq!(step(17), Some(Action::ClearBuffer));
    assert_eq!(step(18), Some(Action::DrawCircle { cx: 64, cy: 64, radius: 40, stroke: 1 }));
    assert_eq!(step(19), Some(Action::DrawLine { x0: 64, y0: 64, x1: 30, y1: 40, stroke: 4 }));
    assert_eq!(step(20), Some(Action::DrawLine { x0: 64, y0: 64, x1: 80, y1: 40, stroke: 1 }));
    assert_eq!(
        step(21),
        Some(Action::DrawInvertedText { caption: Caption::Working, font: FontSize::Small, x: 90, y: 10 })
    );
    assert_eq!(
        step(22),
        Some(Action::DrawInvertedText { caption: Caption::Working, font: FontSize::Large, x: 90, y: 40 })
    );
    assert_eq!(step(23), Some(Action::SetRefresh(RefreshMode::Quick)));
}

#[test]
fn quick_mode_and_clear_before_moving_text() {
    assert_eq!(step(MOVING_START - 2), Some(Action::SetRefresh(RefreshMode::Quick)));
    assert_eq!(step(MOVING_START - 1), Some(Action::ClearFrame));
    let steps = all_steps();
    assert_eq!(steps.iter().filter(|a| matches!(a, Action::SetRefresh(_))).count(), 1);
}

#[test]
fn moving_text_offsets() {
    let xs: Vec<i32> = (0..ANIMATION_FRAMES)
        .map(|i| match step(MOVING_START + 3 * i) {
            Some(Action::DrawText { caption: Caption::HelloWorld, x, y: 50 }) => x,
            other => panic!("unexpected {:?}", other),
        })
        .collect();
    assert_eq!(xs, vec![5, 17, 29, 41, 53, 65, 77, 89, 101, 113]);
    for i in 0..ANIMATION_FRAMES {
        assert_eq!(step(MOVING_START + 3 * i + 1), Some(Action::UpdateAndDisplayFrame));
        assert_eq!(step(MOVING_START + 3 * i + 2), Some(Action::Delay(1000)));
    }
    let steps = all_steps();
    let pushes = steps[MOVING_START..MOVING_START + 3 * ANIMATION_FRAMES]
        .iter()
        .filter(|a| **a == Action::UpdateAndDisplayFrame)
        .count();
    assert_eq!(pushes, 10);
}

#[test]
fn spinner_cycles_without_delay() {
    assert_eq!(step(SPINNER_START - 2), Some(Action::ClearBuffer));
    assert_eq!(step(SPINNER_START - 1), Some(Action::UpdateAndDisplayFrame));
    let symbols: Vec<&str> = (0..ANIMATION_FRAMES)
        .map(|i| match step(SPINNER_START + 3 * i + 1) {
            Some(Action::DrawText { caption, x: 10, y: 100 }) => caption.text(),
            other => panic!("unexpected {:?}", other),
        })
        .collect();
    assert_eq!(symbols, vec!["|", "/", "-", "\\", "|", "/", "-", "\\", "|", "/"]);
    let steps = all_steps();
    let section = &steps[SPINNER_START..SPINNER_START + 3 * ANIMATION_FRAMES];
    assert_eq!(section.iter().filter(|a| **a == Action::UpdateAndDisplayFrame).count(), 10);
    assert_eq!(section.iter().filter(|a| **a == Action::ClearBuffer).count(), 10);
    assert!(section.iter().all(|a| !matches!(a, Action::Delay(_))));
}

#[test]
fn sleep_is_last() {
    let steps = all_steps();
    assert_eq!(steps[PLAN_LEN - 1], Action::Sleep);
    assert_eq!(steps[PLAN_LEN - 2], Action::Announce);
    assert_eq!(steps.iter().filter(|a| **a == Action::Sleep).count(), 1);
    assert_eq!(step(PLAN_LEN), None);
}

#[test]
fn glyphs_and_captions() {
    assert_eq!(Glyph::at(0), Glyph::Bar);
    assert_eq!(Glyph::at(5), Glyph::Slash);
    assert_eq!(Glyph::at(6), Glyph::Dash);
    assert_eq!(Glyph::at(11), Glyph::Backslash);
    assert_eq!(Glyph::Backslash.symbol(), '\\');
    assert_eq!(Caption::Rotation(Rotation::Rotate180).text(), "Rotate 180!");
    assert_eq!(Caption::HelloWorld.text(), "  Hello World! ");
    assert_eq!(Caption::Working.text(), "It's working-WoB!");
}

#[test]
fn session_runs_the_whole_plan() {
    let mut s = Session::new();
    let mut seen = Vec::new();
    while let Command::Perform(a) = s.command() {
        seen.push(a);
        s.record(true);
    }
    assert_eq!(s.command(), Command::Finished);
    assert_eq!(seen, all_steps());
    assert_eq!(s.completed(), PLAN_LEN);
    assert!(!s.is_halted());
}

#[test]
fn failure_halts_everything_after() {
    let mut s = Session::new();
    for _ in 0..5 {
        assert!(matches!(s.command(), Command::Perform(_)));
        s.record(true);
    }
    assert_eq!(s.command(), Command::Perform(Action::InitPanel));
    s.record(false);
    assert_eq!(s.command(), Command::Halted { step: 5 });
    s.record(true);
    assert_eq!(s.command(), Command::Halted { step: 5 });
    assert_eq!(s.completed(), 5);
    assert!(s.is_halted());
}

#[test]
fn failure_of_first_step() {
    let mut s = Session::new();
    s.record(false);
    assert_eq!(s.command(), Command::Halted { step: 0 });
    assert_eq!(s.completed(), 0);
}

#[test]
fn failure_of_sleep() {
    let mut s = Session::new();
    for _ in 0..PLAN_LEN - 1 {
        s.record(true);
    }
    assert_eq!(s.command(), Command::Perform(Action::Sleep));
    s.record(false);
    assert_eq!(s.command(), Command::Halted { step: PLAN_LEN - 1 });
}
