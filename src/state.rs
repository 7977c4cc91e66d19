use vstd::prelude::*;
use crate::color::{next_color_spec, ClearColor};
use crate::frame::FrameCounter;
use crate::input::Modifiers;

verus! {

/// Size of the window's client area, in physical pixels.
#[derive(Clone, Copy, Debug, PartialEq, Eq, Structural)]
pub struct PhysicalSize {
    pub width: u32,
    pub height: u32,
}

/// Position of the pointer in the window, in physical pixels.
#[derive(Clone, Copy, Debug, PartialEq, Eq, Structural)]
pub struct CursorPosition {
    pub x: i32,
    pub y: i32,
}

/// How many frames may be queued ahead of the display.
pub const MAX_FRAME_LATENCY: u32 = 2;

/// The configuration applied to the presentation surface. Besides these
/// values it always asks for a render-target surface in the first format the
/// surface offers, with automatic alpha and automatic vertical sync.
#[derive(Clone, Copy, Debug, PartialEq, Eq, Structural)]
pub struct SurfaceConfig {
    pub width: u32,
    pub height: u32,
    pub max_frame_latency: u32,
}

/// The configuration for a window of the given size.
pub open spec fn config_for(size: PhysicalSize) -> SurfaceConfig {
    SurfaceConfig { width: size.width, height: size.height, max_frame_latency: MAX_FRAME_LATENCY }
}

/// The configuration in force after applying, in turn, a resize to each of
/// `sizes`, starting from `initial`.
pub open spec fn config_after_resizes(initial: SurfaceConfig, sizes: Seq<PhysicalSize>) -> SurfaceConfig
    decreases sizes.len(),
{
    if sizes.len() == 0 {
        initial
    } else {
        config_after_resizes(config_for(sizes[0]), sizes.drop_first())
    }
}

/// Whatever sequence of resizes arrives, the configuration in force at the
/// end matches the size carried by the latest one: none from an earlier
/// resize survives.
pub proof fn lemma_last_resize_wins(initial: SurfaceConfig, sizes: Seq<PhysicalSize>)
    requires
        sizes.len() > 0,
    ensures
        config_after_resizes(initial, sizes) == config_for(sizes.last()),
        config_after_resizes(initial, sizes).width == sizes.last().width,
        config_after_resizes(initial, sizes).height == sizes.last().height,
    decreases sizes.len(),
{
    let rest = sizes.drop_first();
    if sizes.len() > 1 {
        lemma_last_resize_wins(config_for(sizes[0]), rest);
        assert(rest.last() == sizes.last());
    } else {
        assert(config_after_resizes(config_for(sizes[0]), rest) == config_for(sizes[0]));
    }
}

/// The surface format to use: the first that the surface offers, or `None`
/// when it offers none, in which case the surface cannot be set up.
pub fn first_format<F: Copy>(formats: &[F]) -> (r: Option<F>)
    ensures
        formats@.len() == 0 ==> r is None,
        formats@.len() > 0 ==> r == Some(formats@[0]),
{
    if formats.len() == 0 {
        None
    } else {
        Some(formats[0])
    }
}

/// One frame to present: the configuration the surface was last given, and
/// the colour to clear it to.
#[derive(Clone, Copy, Debug, PartialEq, Eq, Structural)]
pub struct Frame {
    pub config: SurfaceConfig,
    pub color: ClearColor,
}

/// What the application tracks once its window and surface exist.
#[derive(Debug)]
pub struct State {
    pub size: PhysicalSize,
    pub config: SurfaceConfig,
    pub modifiers: Modifiers,
    pub cursor_position: Option<CursorPosition>,
    pub frame_counter: FrameCounter,
    pub color: ClearColor,
}

impl State {
    /// The surface configuration matches the last observed window size.
    pub open spec fn wf(&self) -> bool {
        self.config == config_for(self.size)
    }

    /// The state of a window of `size`, its surface configured for that size,
    /// no pointer position known yet, no modifier held, and black as colour.
    pub fn new(size: PhysicalSize) -> (r: State)
        ensures
            r.wf(),
            r.size == size,
            r.config == config_for(size),
            r.modifiers == Modifiers::none(),
            r.cursor_position == None::<CursorPosition>,
            r.frame_counter.frame_count == 0,
            r.color == ClearColor::Black,
    {
        let mut state = State {
            size,
            config: SurfaceConfig { width: 0, height: 0, max_frame_latency: MAX_FRAME_LATENCY },
            modifiers: Modifiers::empty(),
            cursor_position: None,
            frame_counter: FrameCounter::new(),
            color: ClearColor::Black,
        };
        state.configure_surface();
        state
    }

    /// Derives the surface configuration from the current size.
    fn configure_surface(&mut self) -> (r: SurfaceConfig)
        ensures
            r == config_for(old(self).size),
            *final(self) == (State { config: r, ..*old(self) }),
    {
        let config = SurfaceConfig {
            width: self.size.width,
            height: self.size.height,
            max_frame_latency: MAX_FRAME_LATENCY,
        };
        self.config = config;
        config
    }

    /// Records the new window size and returns the configuration that the
    /// surface must be given before the next present.
    pub fn resize(&mut self, new_size: PhysicalSize) -> (r: SurfaceConfig)
        ensures
            r == config_for(new_size),
            final(self).wf(),
            *final(self) == (State { size: new_size, config: r, ..*old(self) }),
            final(self).config == config_after_resizes(old(self).config, seq![new_size]),
    {
        self.size = new_size;
        proof {
            let one = seq![new_size];
            assert(config_after_resizes(config_for(one[0]), one.drop_first()) == config_for(new_size));
        }
        self.configure_surface()
    }

    /// Records where the pointer is.
    pub fn update_cursor_position(&mut self, position: CursorPosition)
        ensures
            *final(self) == (State { cursor_position: Some(position), ..*old(self) }),
    {
        self.cursor_position = Some(position);
    }

    /// Where the pointer was last seen, if anywhere.
    pub fn get_cursor_position(&self) -> (r: Option<CursorPosition>)
        ensures
            r == self.cursor_position,
    {
        self.cursor_position
    }

    /// Records which modifier keys are held.
    pub fn update_modifiers(&mut self, modifiers: Modifiers)
        ensures
            *final(self) == (State { modifiers, ..*old(self) }),
    {
        self.modifiers = modifiers;
    }

    /// Moves to the next colour of the cycle and returns the frame to present
    /// with it, on the surface as last configured.
    pub fn render(&mut self) -> (r: Frame)
        ensures
            r == (Frame { config: old(self).config, color: next_color_spec(old(self).color) }),
            *final(self) == (State { color: r.color, ..*old(self) }),
    {
        let color = self.color.next();
        self.color = color;
        Frame { config: self.config, color }
    }
}

} // verus!
