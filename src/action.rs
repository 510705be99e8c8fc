use vstd::prelude::*;

verus! {

/// Orientation of the frame buffer's coordinate system.
#[derive(Clone, Copy, Debug, PartialEq, Eq, Structural)]
pub enum Rotation {
    Rotate0,
    Rotate90,
    Rotate180,
    Rotate270,
}

/// How the panel redraws itself.
#[derive(Clone, Copy, Debug, PartialEq, Eq, Structural)]
pub enum RefreshMode {
    /// Complete redraw: slow, free of ghosting.
    Full,
    /// Partial redraw: fast, meant for animation.
    Quick,
}

/// What a control line does for the panel.
#[derive(Clone, Copy, Debug, PartialEq, Eq, Structural)]
pub enum PinRole {
    ChipSelect,
    Busy,
    DataCommand,
    Reset,
}

/// One symbol of the spinner.
#[derive(Clone, Copy, Debug, PartialEq, Eq, Structural)]
pub enum Glyph {
    Bar,
    Slash,
    Dash,
    Backslash,
}

/// The two fonts used for text.
#[derive(Clone, Copy, Debug, PartialEq, Eq, Structural)]
pub enum FontSize {
    /// 6 by 9 pixels.
    Small,
    /// 10 by 20 pixels.
    Large,
}

/// A pixel colour of the monochrome frame buffer. Text is drawn in one colour
/// on a background of the other.
#[derive(Clone, Copy, Debug, PartialEq, Eq, Structural)]
pub enum Ink {
    Dark,
    Light,
}

/// A piece of text that the session draws.
#[derive(Clone, Copy, Debug, PartialEq, Eq, Structural)]
pub enum Caption {
    /// The label of one orientation.
    Rotation(Rotation),
    /// The line that moves across the panel.
    HelloWorld,
    /// The caption drawn light on dark.
    Working,
    /// One symbol of the spinner.
    Spinner(Glyph),
}

/// Parameters of the SPI bus.
#[derive(Clone, Copy, Debug, PartialEq, Eq, Structural)]
pub struct BusSettings {
    pub bits_per_word: u8,
    pub max_speed_hz: u32,
    /// SPI mode, 0 to 3.
    pub mode: u8,
}

/// A request for one GPIO line of the controller chip.
#[derive(Clone, Copy, Debug, PartialEq, Eq, Structural)]
pub struct PinRequest {
    pub line: u32,
    pub role: PinRole,
    /// Output if true, input if false.
    pub output: bool,
    /// Level the line starts at.
    pub initial_level: u8,
}

/// One operation of the session, to be carried out by the caller.
#[derive(Clone, Copy, Debug, PartialEq, Eq, Structural)]
pub enum Action {
    /// Open and configure the SPI bus.
    ConfigureBus(BusSettings),
    /// Request one GPIO line.
    RequestPin(PinRequest),
    /// Bring up the panel controller over the bus and lines.
    InitPanel,
    /// Set the rotation of the local frame buffer.
    SetRotation(Rotation),
    /// Draw a caption in the small font, dark on light, at (x, y).
    DrawText { caption: Caption, x: i32, y: i32 },
    /// Draw a caption light on dark, in the given font, at (x, y).
    DrawInvertedText { caption: Caption, font: FontSize, x: i32, y: i32 },
    /// Stroke a circle of the given radius around (cx, cy).
    DrawCircle { cx: i32, cy: i32, radius: u32, stroke: u32 },
    /// Stroke a line from (x0, y0) to (x1, y1).
    DrawLine { x0: i32, y0: i32, x1: i32, y1: i32, stroke: u32 },
    /// Blank the local frame buffer.
    ClearBuffer,
    /// Send the local frame buffer to the panel (full refresh path).
    UpdateFrame,
    /// Show what the panel holds (full refresh path).
    DisplayFrame,
    /// Send the local frame buffer and show it in one step.
    UpdateAndDisplayFrame,
    /// Choose the panel's refresh mode.
    SetRefresh(RefreshMode),
    /// Blank the panel's own frame memory.
    ClearFrame,
    /// Wait this many milliseconds.
    Delay(u32),
    /// Print the closing status line.
    Announce,
    /// Put the panel into low-power sleep.
    Sleep,
}

/// The spinner's symbols, in the order they turn.
pub open spec fn glyph_at(i: int) -> Glyph {
    let j = i % 4;
    if j == 0 {
        Glyph::Bar
    } else if j == 1 {
        Glyph::Slash
    } else if j == 2 {
        Glyph::Dash
    } else {
        Glyph::Backslash
    }
}

pub open spec fn glyph_char(g: Glyph) -> char {
    match g {
        Glyph::Bar => '|',
        Glyph::Slash => '/',
        Glyph::Dash => '-',
        Glyph::Backslash => '\\',
    }
}

/// The characters of each caption.
pub open spec fn caption_text(c: Caption) -> Seq<char> {
    match c {
        Caption::Rotation(Rotation::Rotate0) => "Rotate 0!"@,
        Caption::Rotation(Rotation::Rotate90) => "Rotate 90!"@,
        Caption::Rotation(Rotation::Rotate180) => "Rotate 180!"@,
        Caption::Rotation(Rotation::Rotate270) => "Rotate 270!"@,
        Caption::HelloWorld => "  Hello World! "@,
        Caption::Working => "It's working-WoB!"@,
        Caption::Spinner(g) => seq![glyph_char(g)],
    }
}

impl Glyph {
    /// The spinner symbol at position `i` of its turn: `| / - \` by `i` modulo 4.
    pub fn at(i: usize) -> (r: Glyph)
        ensures
            r == glyph_at(i as int),
    {
        let j = i % 4;
        if j == 0 {
            Glyph::Bar
        } else if j == 1 {
            Glyph::Slash
        } else if j == 2 {
            Glyph::Dash
        } else {
            Glyph::Backslash
        }
    }

    pub fn symbol(&self) -> (r: char)
        ensures
            r == glyph_char(*self),
    {
        match self {
            Glyph::Bar => '|',
            Glyph::Slash => '/',
            Glyph::Dash => '-',
            Glyph::Backslash => '\\',
        }
    }
}

impl Caption {
    /// The text of the caption.
    pub fn text(&self) -> (r: &'static str)
        ensures
            r@ == caption_text(*self),
    {
        proof {
            reveal_strlit("|");
            reveal_strlit("/");
            reveal_strlit("-");
            reveal_strlit("\\");
        }
        match *self {
            Caption::Rotation(Rotation::Rotate0) => "Rotate 0!",
            Caption::Rotation(Rotation::Rotate90) => "Rotate 90!",
            Caption::Rotation(Rotation::Rotate180) => "Rotate 180!",
            Caption::Rotation(Rotation::Rotate270) => "Rotate 270!",
            Caption::HelloWorld => "  Hello World! ",
            Caption::Working => "It's working-WoB!",
            Caption::Spinner(Glyph::Bar) => "|",
            Caption::Spinner(Glyph::Slash) => "/",
            Caption::Spinner(Glyph::Dash) => "-",
            Caption::Spinner(Glyph::Backslash) => "\\",
        }
    }
}

} // verus!
