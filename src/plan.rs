use vstd::prelude::*;

use crate::action::{
    glyph_at, Action, BusSettings, Caption, FontSize, Glyph, PinRequest, PinRole, RefreshMode,
    Rotation,
};

verus! {

/// Number of operations in a session.
pub const PLAN_LEN: usize = 89;

/// First operation of the moving-text animation.
pub const MOVING_START: usize = 25;

/// First operation of the spinner animation, after its blank baseline.
pub const SPINNER_START: usize = 57;

/// Frames in each of the two animations.
pub const ANIMATION_FRAMES: usize = 10;

/// The SPI bus settings: 8 bits per word, 4 MHz, mode 0.
pub open spec fn bus_settings() -> BusSettings {
    BusSettings { bits_per_word: 8, max_speed_hz: 4_000_000, mode: 0 }
}

/// The GPIO lines, in the order they are requested.
pub open spec fn pin_request(i: int) -> PinRequest {
    if i == 0 {
        PinRequest { line: 8, role: PinRole::ChipSelect, output: true, initial_level: 1 }
    } else if i == 1 {
        PinRequest { line: 24, role: PinRole::Busy, output: false, initial_level: 0 }
    } else if i == 2 {
        PinRequest { line: 25, role: PinRole::DataCommand, output: true, initial_level: 1 }
    } else {
        PinRequest { line: 17, role: PinRole::Reset, output: true, initial_level: 1 }
    }
}

/// The rotations, in the order they are shown.
pub open spec fn rotation_at(i: int) -> Rotation {
    if i == 0 {
        Rotation::Rotate0
    } else if i == 1 {
        Rotation::Rotate90
    } else if i == 2 {
        Rotation::Rotate180
    } else {
        Rotation::Rotate270
    }
}

/// Horizontal offset of the moving text in frame `i`.
pub open spec fn moving_x(i: int) -> int {
    5 + 12 * i
}

/// The operation at position `k` of a session.
pub open spec fn action_at(k: int) -> Action {
    if k == 0 {
        Action::ConfigureBus(bus_settings())
    } else if 1 <= k <= 4 {
        Action::RequestPin(pin_request(k - 1))
    } else if k == 5 {
        Action::InitPanel
    } else if 6 <= k < 14 {
        let r = rotation_at((k - 6) / 2);
        if (k - 6) % 2 == 0 {
            Action::SetRotation(r)
        } else {
            Action::DrawText { caption: Caption::Rotation(r), x: 5, y: 50 }
        }
    } else if k == 14 {
        Action::UpdateFrame
    } else if k == 15 {
        Action::DisplayFrame
    } else if k == 16 {
        Action::Delay(5000)
    } else if k == 17 {
        Action::ClearBuffer
    } else if k == 18 {
        Action::DrawCircle { cx: 64, cy: 64, radius: 40, stroke: 1 }
    } else if k == 19 {
        Action::DrawLine { x0: 64, y0: 64, x1: 30, y1: 40, stroke: 4 }
    } else if k == 20 {
        Action::DrawLine { x0: 64, y0: 64, x1: 80, y1: 40, stroke: 1 }
    } else if k == 21 {
        Action::DrawInvertedText { caption: Caption::Working, font: FontSize::Small, x: 90, y: 10 }
    } else if k == 22 {
        Action::DrawInvertedText { caption: Caption::Working, font: FontSize::Large, x: 90, y: 40 }
    } else if k == 23 {
        Action::SetRefresh(RefreshMode::Quick)
    } else if k == 24 {
        Action::ClearFrame
    } else if 25 <= k < 55 {
        let i = (k - 25) / 3;
        if (k - 25) % 3 == 0 {
            Action::DrawText { caption: Caption::HelloWorld, x: moving_x(i) as i32, y: 50 }
        } else if (k - 25) % 3 == 1 {
            Action::UpdateAndDisplayFrame
        } else {
            Action::Delay(1000)
        }
    } else if k == 55 {
        Action::ClearBuffer
    } else if k == 56 {
        Action::UpdateAndDisplayFrame
    } else if 57 <= k < 87 {
        let i = (k - 57) / 3;
        if (k - 57) % 3 == 0 {
            Action::ClearBuffer
        } else if (k - 57) % 3 == 1 {
            Action::DrawText { caption: Caption::Spinner(glyph_at(i)), x: 10, y: 100 }
        } else {
            Action::UpdateAndDisplayFrame
        }
    } else if k == 87 {
        Action::Announce
    } else {
        Action::Sleep
    }
}

/// Every operation of a session, in order.
pub open spec fn plan() -> Seq<Action> {
    Seq::new(PLAN_LEN as nat, |k: int| action_at(k))
}

/// True of the operations that talk to the panel controller.
pub open spec fn touches_panel(a: Action) -> bool {
    match a {
        Action::InitPanel | Action::UpdateFrame | Action::DisplayFrame
        | Action::UpdateAndDisplayFrame | Action::SetRefresh(_) | Action::ClearFrame
        | Action::Sleep => true,
        _ => false,
    }
}

proof fn lemma_rotation_section(k: int)
    requires
        6 <= k < 14,
    ensures
        (k - 6) % 2 == 0 ==> action_at(k) == Action::SetRotation(rotation_at((k - 6) / 2)),
        (k - 6) % 2 == 1 ==> action_at(k) is DrawText,
        k == 6 || k == 8 || k == 10 || k == 12 ==> (k - 6) % 2 == 0,
        k == 6 ==> (k - 6) / 2 == 0,
        k == 8 ==> (k - 6) / 2 == 1,
        k == 10 ==> (k - 6) / 2 == 2,
        k == 12 ==> (k - 6) / 2 == 3,
        k == 7 || k == 9 || k == 11 || k == 13 ==> (k - 6) % 2 == 1,
{
}

/// The bus is configured, with 8 bits per word, 4 MHz and mode 0, by the very
/// first operation, and only there; every operation on the panel comes after it.
pub proof fn bus_configured_first()
    ensures
        plan()[0] == Action::ConfigureBus(bus_settings()),
        bus_settings().bits_per_word == 8,
        bus_settings().max_speed_hz == 4_000_000,
        bus_settings().mode == 0,
        forall|k: int| 0 <= k < PLAN_LEN && plan()[k] is ConfigureBus ==> k == 0,
        forall|k: int| 0 <= k < PLAN_LEN && touches_panel(#[trigger] plan()[k]) ==> k > 0,
{
}

/// Each of the four rotations is set exactly once, in the order 0, 90, 180 and
/// 270 degrees, and all of them before the full-refresh push at position 14
/// (the only one, by `full_refresh_once`).
pub proof fn rotations_once_in_order()
    ensures
        plan()[6] == Action::SetRotation(Rotation::Rotate0),
        plan()[8] == Action::SetRotation(Rotation::Rotate90),
        plan()[10] == Action::SetRotation(Rotation::Rotate180),
        plan()[12] == Action::SetRotation(Rotation::Rotate270),
        forall|k: int|
            0 <= k < PLAN_LEN ==> (#[trigger] plan()[k] is SetRotation <==> k == 6 || k == 8 || k
                == 10 || k == 12),
        plan()[14] == Action::UpdateFrame,
{
    assert forall|k: int|
        0 <= k < PLAN_LEN implies (#[trigger] plan()[k] is SetRotation <==> k == 6 || k == 8 || k
        == 10 || k == 12) by {
        if 6 <= k < 14 {
            lemma_rotation_section(k);
        }
    }
    lemma_rotation_section(6);
    lemma_rotation_section(8);
    lemma_rotation_section(10);
    lemma_rotation_section(12);
}

/// The full-refresh path (send, then show) runs exactly once, for the rotation
/// demonstration, and is followed by a pause of 5000 ms.
pub proof fn full_refresh_once()
    ensures
        forall|k: int| 0 <= k < PLAN_LEN ==> (plan()[k] == Action::UpdateFrame <==> k == 14),
        forall|k: int| 0 <= k < PLAN_LEN ==> (plan()[k] == Action::DisplayFrame <==> k == 15),
        plan()[16] == Action::Delay(5000),
        forall|k: int| 0 <= k < 14 ==> !(plan()[k] is UpdateAndDisplayFrame),
{
}

/// Quick refresh is chosen, and the panel's own frame cleared, right before the
/// moving text starts; the refresh mode is set nowhere else.
pub proof fn quick_mode_before_animation()
    ensures
        plan()[MOVING_START - 2] == Action::SetRefresh(RefreshMode::Quick),
        plan()[MOVING_START - 1] == Action::ClearFrame,
        forall|k: int| 0 <= k < PLAN_LEN && plan()[k] is SetRefresh ==> k == MOVING_START - 2,
        forall|k: int|
            0 <= k < PLAN_LEN && (#[trigger] plan()[k] is DrawText) && plan()[k]->DrawText_caption
                == Caption::HelloWorld ==> k >= MOVING_START,
{
}

proof fn lemma_frame_index(i: int, base: int, phase: int)
    requires
        0 <= i < 10,
        0 <= phase < 3,
    ensures
        (base + 3 * i + phase - base) / 3 == i,
        (base + 3 * i + phase - base) % 3 == phase,
{
    assert(i == 0 || i == 1 || i == 2 || i == 3 || i == 4 || i == 5 || i == 6 || i == 7 || i
        == 8 || i == 9);
}

/// The moving text takes ten frames: in frame `i` the text is drawn at
/// x = 5 + 12 i (5, 17, ..., 113) and y = 50, pushed with the quick path, and
/// followed by a pause of 1000 ms. Those thirty operations make up the whole
/// animation.
pub proof fn moving_text_frames()
    ensures
        forall|i: int|
            0 <= i < ANIMATION_FRAMES ==> #[trigger] plan()[MOVING_START + 3 * i] == (
            Action::DrawText { caption: Caption::HelloWorld, x: moving_x(i) as i32, y: 50 }),
        forall|i: int|
            0 <= i < ANIMATION_FRAMES ==> #[trigger] plan()[MOVING_START + 3 * i + 1]
                == Action::UpdateAndDisplayFrame,
        forall|i: int|
            0 <= i < ANIMATION_FRAMES ==> #[trigger] plan()[MOVING_START + 3 * i + 2]
                == Action::Delay(1000),
        moving_x(0) == 5,
        moving_x(9) == 113,
        forall|i: int| 0 <= i < 9 ==> #[trigger] moving_x(i + 1) == moving_x(i) + 12,
        plan()[MOVING_START + 3 * ANIMATION_FRAMES] == Action::ClearBuffer,
{
    assert forall|i: int| 0 <= i < ANIMATION_FRAMES implies #[trigger] plan()[MOVING_START + 3
        * i] == (Action::DrawText { caption: Caption::HelloWorld, x: moving_x(i) as i32, y: 50 })
        && plan()[MOVING_START + 3 * i + 1] == Action::UpdateAndDisplayFrame && plan()[MOVING_START
        + 3 * i + 2] == Action::Delay(1000) by {
        lemma_frame_index(i, MOVING_START as int, 0);
        lemma_frame_index(i, MOVING_START as int, 1);
        lemma_frame_index(i, MOVING_START as int, 2);
    }
}

/// After a blank baseline push, the spinner takes ten frames: in frame `i` the
/// buffer is cleared, the symbol `| / - \` at `i` modulo 4 is drawn, and the
/// buffer is pushed at once. No pause falls anywhere in the spinner.
pub proof fn spinner_frames()
    ensures
        plan()[SPINNER_START - 2] == Action::ClearBuffer,
        plan()[SPINNER_START - 1] == Action::UpdateAndDisplayFrame,
        forall|i: int|
            0 <= i < ANIMATION_FRAMES ==> #[trigger] plan()[SPINNER_START + 3 * i]
                == Action::ClearBuffer,
        forall|i: int|
            0 <= i < ANIMATION_FRAMES ==> #[trigger] plan()[SPINNER_START + 3 * i + 1] == (
            Action::DrawText { caption: Caption::Spinner(glyph_at(i)), x: 10, y: 100 }),
        forall|i: int|
            0 <= i < ANIMATION_FRAMES ==> #[trigger] plan()[SPINNER_START + 3 * i + 2]
                == Action::UpdateAndDisplayFrame,
        forall|k: int|
            SPINNER_START - 2 <= k < SPINNER_START + 3 * ANIMATION_FRAMES ==> !(
            #[trigger] plan()[k] is Delay),
{
    assert forall|i: int| 0 <= i < ANIMATION_FRAMES implies #[trigger] plan()[SPINNER_START + 3
        * i] == Action::ClearBuffer && plan()[SPINNER_START + 3 * i + 1] == (Action::DrawText {
        caption: Caption::Spinner(glyph_at(i)),
        x: 10,
        y: 100,
    }) && plan()[SPINNER_START + 3 * i + 2] == Action::UpdateAndDisplayFrame by {
        lemma_frame_index(i, SPINNER_START as int, 0);
        lemma_frame_index(i, SPINNER_START as int, 1);
        lemma_frame_index(i, SPINNER_START as int, 2);
    }
}

/// Sleep comes exactly once, as the last operation.
pub proof fn sleep_last()
    ensures
        plan().len() == PLAN_LEN,
        plan()[PLAN_LEN - 1] == Action::Sleep,
        forall|k: int| 0 <= k < PLAN_LEN && plan()[k] == Action::Sleep ==> k == PLAN_LEN - 1,
{
}

fn rotation(i: usize) -> (r: Rotation)
    ensures
        r == rotation_at(i as int),
{
    if i == 0 {
        Rotation::Rotate0
    } else if i == 1 {
        Rotation::Rotate90
    } else if i == 2 {
        Rotation::Rotate180
    } else {
        Rotation::Rotate270
    }
}

fn pin(i: usize) -> (r: PinRequest)
    ensures
        r == pin_request(i as int),
{
    if i == 0 {
        PinRequest { line: 8, role: PinRole::ChipSelect, output: true, initial_level: 1 }
    } else if i == 1 {
        PinRequest { line: 24, role: PinRole::Busy, output: false, initial_level: 0 }
    } else if i == 2 {
        PinRequest { line: 25, role: PinRole::DataCommand, output: true, initial_level: 1 }
    } else {
        PinRequest { line: 17, role: PinRole::Reset, output: true, initial_level: 1 }
    }
}

/// The operation at position `k`, or `None` past the last one.
pub fn step(k: usize) -> (r: Option<Action>)
    ensures
        k < PLAN_LEN ==> r == Some(action_at(k as int)),
        k >= PLAN_LEN ==> r.is_none(),
{
    if k >= PLAN_LEN {
        None
    } else if k == 0 {
        Some(Action::ConfigureBus(BusSettings { bits_per_word: 8, max_speed_hz: 4_000_000, mode: 0 }))
    } else if k <= 4 {
        Some(Action::RequestPin(pin(k - 1)))
    } else if k == 5 {
        Some(Action::InitPanel)
    } else if k < 14 {
        let r = rotation((k - 6) / 2);
        if (k - 6) % 2 == 0 {
            Some(Action::SetRotation(r))
        } else {
            Some(Action::DrawText { caption: Caption::Rotation(r), x: 5, y: 50 })
        }
    } else if k == 14 {
        Some(Action::UpdateFrame)
    } else if k == 15 {
        Some(Action::DisplayFrame)
    } else if k == 16 {
        Some(Action::Delay(5000))
    } else if k == 17 {
        Some(Action::ClearBuffer)
    } else if k == 18 {
        Some(Action::DrawCircle { cx: 64, cy: 64, radius: 40, stroke: 1 })
    } else if k == 19 {
        Some(Action::DrawLine { x0: 64, y0: 64, x1: 30, y1: 40, stroke: 4 })
    } else if k == 20 {
        Some(Action::DrawLine { x0: 64, y0: 64, x1: 80, y1: 40, stroke: 1 })
    } else if k == 21 {
        Some(Action::DrawInvertedText { caption: Caption::Working, font: FontSize::Small, x: 90, y: 10 })
    } else if k == 22 {
        Some(Action::DrawInvertedText { caption: Caption::Working, font: FontSize::Large, x: 90, y: 40 })
    } else if k == 23 {
        Some(Action::SetRefresh(RefreshMode::Quick))
    } else if k == 24 {
        Some(Action::ClearFrame)
    } else if k < 55 {
        let i = (k - MOVING_START) / 3;
        let phase = (k - MOVING_START) % 3;
        if phase == 0 {
            let x: i32 = 5 + 12 * (i as i32);
            Some(Action::DrawText { caption: Caption::HelloWorld, x, y: 50 })
        } else if phase == 1 {
            Some(Action::UpdateAndDisplayFrame)
        } else {
            Some(Action::Delay(1000))
        }
    } else if k == 55 {
        Some(Action::ClearBuffer)
    } else if k == 56 {
        Some(Action::UpdateAndDisplayFrame)
    } else if k < 87 {
        let i = (k - SPINNER_START) / 3;
        let phase = (k - SPINNER_START) % 3;
        if phase == 0 {
            Some(Action::ClearBuffer)
        } else if phase == 1 {
            Some(Action::DrawText { caption: Caption::Spinner(Glyph::at(i)), x: 10, y: 100 })
        } else {
            Some(Action::UpdateAndDisplayFrame)
        }
    } else if k == 87 {
        Some(Action::Announce)
    } else {
        Some(Action::Sleep)
    }
}

} // verus!
