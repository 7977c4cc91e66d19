//! An interactive application shell: a verified state machine that turns
//! platform window events into commands for a windowing layer and a GPU
//! surface, with a binding table, an action dispatcher, a handler registry,
//! a placeholder clear-colour cycle and a frame pacer.
pub mod application;
pub mod color;
pub mod frame;
pub mod input;
pub mod registry;
pub mod state;

pub use application::{setup_keybindings, App, Command, DispatchError, Phase, WindowEvent};
pub use color::ClearColor;
pub use frame::{FrameCounter, FrameRate, SAMPLE_MICROS};
pub use input::{
    get_keybindings, make_key_action, make_mouse_action, resolve_key, Action, Binding,
    ElementState, KeyCode, Modifiers, MouseButton, KEY_ESCAPE, KEY_W,
};
pub use registry::HandlerRegistry;
pub use state::{
    first_format, CursorPosition, Frame, PhysicalSize, State, SurfaceConfig, MAX_FRAME_LATENCY,
};
