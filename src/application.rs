use vstd::prelude::*;
use crate::color::{next_color_spec, ClearColor};
use crate::frame::{next_count, FrameRate, SAMPLE_MICROS};
use crate::input::{
    default_bindings, escape_binding, first_key_match, get_keybindings, key_action_spec, make_key_action,
    make_mouse_action, resolve_key_spec, Action, Binding, ElementState, KeyCode, Modifiers,
    MouseButton, KEY_ESCAPE,
};
use crate::registry::{handler_of, HandlerRegistry};
use crate::state::{config_for, CursorPosition, Frame, PhysicalSize, State, SurfaceConfig};

verus! {

/// Where the application stands in its life.
#[derive(Clone, Copy, Debug, PartialEq, Eq, Structural)]
pub enum Phase {
    /// No window yet: waiting for the platform to resume the application.
    Uninitialized,
    /// The window and its surface exist; events are handled.
    Running,
    /// The event loop was asked to stop; nothing more is done.
    Terminated,
}

/// An event the platform delivers for the application's window.
#[derive(Clone, Copy, Debug, PartialEq, Eq, Structural)]
pub enum WindowEvent {
    CloseRequested,
    Resized(PhysicalSize),
    RedrawRequested,
    /// A key went down or up; `key` is `None` for a key the platform could
    /// not identify.
    KeyboardInput { key: Option<KeyCode>, state: ElementState, is_synthetic: bool },
    MouseInput { button: MouseButton, state: ElementState },
    CursorMoved(CursorPosition),
    ModifiersChanged(Modifiers),
    /// Any other event, which the application ignores.
    Other,
}

/// Work the application asks of the windowing and graphics layers, in order.
#[derive(Clone, Copy, Debug, PartialEq, Eq)]
pub enum Command<H> {
    /// Stop the event loop.
    Exit,
    /// Apply this configuration to the surface.
    ConfigureSurface(SurfaceConfig),
    /// Acquire the next texture, clear it, submit, notify the window, present.
    Present(Frame),
    /// Ask the window for another redraw.
    RequestRedraw,
    /// A frame-rate sample to report.
    ReportFrameRate(FrameRate),
    /// Run the handler installed for the key, with the key's state.
    RunHandler(KeyCode, ElementState, H),
    /// A pointer button changed state where the pointer was last seen.
    ButtonPressed(MouseButton, ElementState, Option<CursorPosition>),
    /// A key reached no binding and no handler.
    KeyNotHandled(KeyCode),
    /// A key the platform could not identify was pressed.
    UnidentifiedKey,
}

/// Why an action could not be carried out.
#[derive(Clone, Copy, Debug, PartialEq, Eq, Structural)]
pub enum DispatchError {
    /// No handler is installed for the key.
    NoHandler(KeyCode),
}

/// The application: its window state once resumed, its bindings in priority
/// order, and its key handlers.
#[derive(Debug)]
pub struct App<H> {
    pub state: Option<State>,
    pub keybindings: Vec<Binding>,
    pub handlers: HandlerRegistry<H>,
    pub phase: Phase,
}

/// Where the pointer was last seen, if the window exists.
pub open spec fn cursor_of(state: Option<State>) -> Option<CursorPosition> {
    match state {
        Some(s) => s.cursor_position,
        None => None,
    }
}

/// What dispatching `action` yields: the commands to carry out, or why the
/// action was not handled.
pub open spec fn dispatch_spec<H>(app: App<H>, action: Action) -> Result<Seq<Command<H>>, DispatchError> {
    match action {
        Action::CloseWindow => if app.phase == Phase::Terminated {
            Ok(Seq::empty())
        } else {
            Ok(seq![Command::Exit])
        },
        Action::ButtonPress(b, s) => Ok(seq![Command::ButtonPressed(b, s, cursor_of(app.state))]),
        Action::Keyboard(k, s) => match handler_of(app.handlers@, k) {
            Some(h) => Ok(seq![Command::RunHandler(k, s, h)]),
            None => Err(DispatchError::NoHandler(k)),
        },
    }
}

/// The phase after dispatching `action`: closing ends the application.
pub open spec fn phase_after(phase: Phase, action: Action) -> Phase {
    match action {
        Action::CloseWindow => Phase::Terminated,
        _ => phase,
    }
}

/// The commands of a dispatch result, a refusal reported as a command.
pub open spec fn reported<H>(r: Result<Seq<Command<H>>, DispatchError>) -> Seq<Command<H>> {
    match r {
        Ok(c) => c,
        Err(DispatchError::NoHandler(k)) => seq![Command::KeyNotHandled(k)],
    }
}

pub open spec fn result_view<H>(r: Result<Vec<Command<H>>, DispatchError>) -> Result<Seq<Command<H>>, DispatchError> {
    match r {
        Ok(c) => Ok(c@),
        Err(e) => Err(e),
    }
}

/// The bindings after `setup_keybindings`: the defaults, then Escape to close.
pub open spec fn setup_bindings() -> Seq<Binding> {
    default_bindings().push(escape_binding())
}

/// Closing the window needs no handler: with the bindings that setup
/// installs, Escape with no modifier becomes `CloseWindow` whatever handlers
/// exist, and dispatching it ends the application.
pub proof fn lemma_escape_closes<H>(app: App<H>, state: ElementState)
    requires
        app.keybindings@ == setup_bindings(),
    ensures
        key_action_spec(app.keybindings@, KeyCode(KEY_ESCAPE), state, Modifiers::none())
            == Action::CloseWindow,
        dispatch_spec(app, Action::CloseWindow) is Ok,
        phase_after(app.phase, Action::CloseWindow) == Phase::Terminated,
{
    let (k, m) = (KeyCode(KEY_ESCAPE), Modifiers::none());
    let s = setup_bindings();
    let d = default_bindings();
    assert(s.drop_last() =~= d);
    assert(d.drop_last().drop_last() =~= Seq::<Binding>::empty());
    assert(first_key_match(d.drop_last().drop_last(), k, m) == None::<int>);
    assert(first_key_match(d.drop_last(), k, m) == None::<int>);
    assert(first_key_match(d, k, m) == None::<int>);
    assert(first_key_match(s, k, m) == Some(2int));
}

/// Closing twice is harmless: the first dispatch of `CloseWindow` asks the
/// loop to stop; a second one succeeds, asks nothing and changes nothing.
pub proof fn lemma_close_twice<H>(app: App<H>)
    ensures
        dispatch_spec(app, Action::CloseWindow) is Ok,
        ({
            let closed = App { phase: phase_after(app.phase, Action::CloseWindow), ..app };
            &&& dispatch_spec(closed, Action::CloseWindow) == Ok::<Seq<Command<H>>, DispatchError>(Seq::empty())
            &&& phase_after(closed.phase, Action::CloseWindow) == closed.phase
        }),
{
}

/// A key with no installed handler is refused with `NoHandler`, and the
/// application is left exactly as it was.
pub proof fn lemma_unhandled_key_changes_nothing<H>(app: App<H>, key: KeyCode, state: ElementState)
    requires
        !app.handlers@.contains_key(key.0),
    ensures
        dispatch_spec(app, Action::Keyboard(key, state)) == Err::<Seq<Command<H>>, DispatchError>(
            DispatchError::NoHandler(key),
        ),
        (App { phase: phase_after(app.phase, Action::Keyboard(key, state)), ..app }) == app,
{
}

/// A key event that no binding claims reaches the handler installed for its
/// key: the only command is one run of that handler, and nothing else changes.
pub proof fn lemma_handler_runs_once<H>(app: App<H>, key: KeyCode, state: ElementState)
    requires
        handles_events(app),
        app.handlers@.contains_key(key.0),
        resolve_key_spec(app.keybindings@, key, app.state->0.modifiers) is None,
    ensures
        event_spec(app, WindowEvent::KeyboardInput { key: Some(key), state, is_synthetic: false })
            == (seq![Command::RunHandler(key, state, app.handlers@[key.0])], app),
{
    let a = Action::Keyboard(key, state);
    assert(App { phase: phase_after(app.phase, a), ..app } == app);
}

impl<H: Copy> App<H> {
    /// An application not yet resumed, with the default bindings and no
    /// handler.
    pub fn new() -> (r: App<H>)
        ensures
            r.state == None::<State>,
            r.keybindings@ == default_bindings(),
            r.handlers@ == Map::<u32, H>::empty(),
            r.phase == Phase::Uninitialized,
    {
        App {
            state: None,
            keybindings: get_keybindings(),
            handlers: HandlerRegistry::new(),
            phase: Phase::Uninitialized,
        }
    }

    /// Adds a binding after all present ones, so it has the lowest priority.
    pub fn add_keybinding(&mut self, binding: Binding)
        ensures
            final(self).keybindings@ == old(self).keybindings@.push(binding),
            final(self).state == old(self).state,
            final(self).handlers == old(self).handlers,
            final(self).phase == old(self).phase,
    {
        self.keybindings.push(binding);
    }

    /// Installs `handler` for `key`, replacing the one it had.
    pub fn register_handler(&mut self, key: KeyCode, handler: H)
        ensures
            final(self).handlers@ == old(self).handlers@.insert(key.0, handler),
            final(self).state == old(self).state,
            final(self).keybindings == old(self).keybindings,
            final(self).phase == old(self).phase,
    {
        self.handlers.insert(key, handler);
    }

    /// The same application with `handler` installed for `key`.
    pub fn with_handler(self, key: KeyCode, handler: H) -> (r: App<H>)
        ensures
            r.handlers@ == self.handlers@.insert(key.0, handler),
            r.state == self.state,
            r.keybindings == self.keybindings,
            r.phase == self.phase,
    {
        let mut app = self;
        app.register_handler(key, handler);
        app
    }

    /// The window state; the application must have been resumed.
    pub fn get_state(&self) -> (r: &State)
        requires
            self.state is Some,
        ensures
            *r == self.state->0,
    {
        self.state.as_ref().unwrap()
    }

    /// Carries out `action`: closing asks the loop to stop (once: when it is
    /// already stopping, nothing more is asked); a button press is reported
    /// with the pointer position; a key goes to its installed handler, and is
    /// refused with `NoHandler` when there is none, leaving everything as it
    /// was.
    pub fn handle_action(&mut self, action: Action) -> (r: Result<Vec<Command<H>>, DispatchError>)
        ensures
            result_view(r) == dispatch_spec(*old(self), action),
            *final(self) == (App { phase: phase_after(old(self).phase, action), ..*old(self) }),
    {
        match action {
            Action::CloseWindow => {
                if self.phase == Phase::Terminated {
                    let r = Vec::new();
                    assert(r@ =~= Seq::<Command<H>>::empty());
                    Ok(r)
                } else {
                    self.phase = Phase::Terminated;
                    let r = vec![Command::Exit];
                    assert(r@ =~= seq![Command::<H>::Exit]);
                    Ok(r)
                }
            },
            Action::ButtonPress(button, state) => {
                let cursor = match &self.state {
                    Some(s) => s.get_cursor_position(),
                    None => None,
                };
                assert(cursor == cursor_of(self.state));
                let r = vec![Command::ButtonPressed(button, state, cursor)];
                assert(r@ == seq![Command::<H>::ButtonPressed(button, state, cursor)]);
                Ok(r)
            },
            Action::Keyboard(key, state) => match self.handlers.get(key) {
                Some(h) => {
                    let r = vec![Command::RunHandler(key, state, h)];
                    assert(r@ =~= seq![Command::RunHandler(key, state, h)]);
                    Ok(r)
                },
                None => Err(DispatchError::NoHandler(key)),
            },
        }
    }
}


/// The state after a redraw: the next colour, the frame counter moved on.
pub open spec fn redrawn(old: State, new: State) -> bool {
    new == (State { color: next_color_spec(old.color), frame_counter: new.frame_counter, ..old })
}

/// The commands of a redraw: present the next frame and ask for another
/// redraw, followed by a frame-rate sample when a sampling window closed.
pub open spec fn redraw_commands<H>(old: State, new: State, r: Seq<Command<H>>) -> bool {
    let first = seq![
        Command::<H>::Present(Frame { config: old.config, color: next_color_spec(old.color) }),
        Command::RequestRedraw,
    ];
    ||| r == first && new.frame_counter.frame_count == next_count(old.frame_counter.frame_count)
    ||| {
        &&& r.len() == 3
        &&& r.take(2) == first
        &&& new.frame_counter.frame_count == 0
        &&& r[2] matches Command::ReportFrameRate(rate) && rate.frames == next_count(
            old.frame_counter.frame_count,
        ) && rate.elapsed_micros > SAMPLE_MICROS
    }
}

/// Whether the application handles events now.
pub open spec fn handles_events<H>(app: App<H>) -> bool {
    app.phase == Phase::Running && app.state is Some
}

/// How `window_event` answers an event other than a redraw: the commands it
/// returns and the application it leaves.
pub open spec fn event_spec<H>(app: App<H>, event: WindowEvent) -> (Seq<Command<H>>, App<H>) {
    let st = app.state->0;
    match event {
        WindowEvent::CloseRequested => (seq![Command::Exit], App { phase: Phase::Terminated, ..app }),
        WindowEvent::Resized(size) => (
            seq![Command::ConfigureSurface(config_for(size))],
            App { state: Some(State { size, config: config_for(size), ..st }), ..app },
        ),
        WindowEvent::KeyboardInput { key, state, is_synthetic } => if is_synthetic {
            (Seq::empty(), app)
        } else {
            match key {
                None => (seq![Command::UnidentifiedKey], app),
                Some(k) => {
                    let a = key_action_spec(app.keybindings@, k, state, st.modifiers);
                    (reported(dispatch_spec(app, a)), App { phase: phase_after(app.phase, a), ..app })
                },
            }
        },
        WindowEvent::MouseInput { button, state } => {
            let a = Action::ButtonPress(button, state);
            (reported(dispatch_spec(app, a)), app)
        },
        WindowEvent::CursorMoved(p) => (
            Seq::empty(),
            App { state: Some(State { cursor_position: Some(p), ..st }), ..app },
        ),
        WindowEvent::ModifiersChanged(m) => (
            Seq::empty(),
            App { state: Some(State { modifiers: m, ..st }), ..app },
        ),
        _ => (Seq::empty(), app),
    }
}

/// Installs the built-in bindings: Escape, with no modifier, closes the
/// window. They come after the bindings already present.
pub fn setup_keybindings<H: Copy>(app: &mut App<H>)
    ensures
        final(app).keybindings@ == old(app).keybindings@.push(escape_binding()),
        final(app).state == old(app).state,
        final(app).handlers == old(app).handlers,
        final(app).phase == old(app).phase,
{
    app.add_keybinding(
        Binding {
            key: Some(KeyCode(KEY_ESCAPE)),
            button: None,
            modifiers: Modifiers::empty(),
            action: Action::CloseWindow,
        },
    );
}

impl<H: Copy> App<H> {
    /// The platform resumed the application and its window of `size` exists:
    /// unless the application has stopped, it starts running with a fresh
    /// state, configures the surface for that size and asks for a first
    /// redraw.
    pub fn resumed(&mut self, size: PhysicalSize) -> (r: Vec<Command<H>>)
        ensures
            old(self).phase == Phase::Terminated ==> r@ == Seq::<Command<H>>::empty() && *final(self)
                == *old(self),
            old(self).phase != Phase::Terminated ==> {
                &&& r@ == seq![Command::<H>::ConfigureSurface(config_for(size)), Command::RequestRedraw]
                &&& final(self).phase == Phase::Running
                &&& final(self).state matches Some(st) && st.wf() && st.size == size
                    && st.cursor_position == None::<CursorPosition> && st.color == ClearColor::Black
                    && st.modifiers == Modifiers::none() && st.frame_counter.frame_count == 0
                &&& final(self).keybindings == old(self).keybindings
                &&& final(self).handlers == old(self).handlers
            },
    {
        if self.phase == Phase::Terminated {
            let r = Vec::new();
            assert(r@ =~= Seq::<Command<H>>::empty());
            return r;
        }
        let state = State::new(size);
        let config = state.config;
        self.state = Some(state);
        self.phase = Phase::Running;
        let r = vec![Command::ConfigureSurface(config), Command::RequestRedraw];
        assert(r@ =~= seq![Command::ConfigureSurface(config_for(size)), Command::RequestRedraw]);
        r
    }

    /// Answers one window event. Before the application runs, and after it
    /// stopped, events are ignored. A close request stops it; a resize
    /// reconfigures the surface without drawing; a redraw presents the next
    /// colour, counts the frame and asks for another redraw; a key that is not
    /// synthetic is resolved through the bindings and dispatched; a button is
    /// dispatched; pointer moves and modifier changes are recorded.
    pub fn window_event(&mut self, event: WindowEvent) -> (r: Vec<Command<H>>)
        ensures
            !handles_events(*old(self)) ==> r@ == Seq::<Command<H>>::empty() && *final(self)
                == *old(self),
            handles_events(*old(self)) && event != WindowEvent::RedrawRequested ==> (r@, *final(self))
                == event_spec(*old(self), event),
            handles_events(*old(self)) && event == WindowEvent::RedrawRequested ==> {
                &&& final(self).state matches Some(st) && redrawn(old(self).state->0, st)
                    && redraw_commands(old(self).state->0, st, r@)
                &&& final(self).keybindings == old(self).keybindings
                &&& final(self).handlers == old(self).handlers
                &&& final(self).phase == old(self).phase
            },
    {
        if self.phase != Phase::Running || self.state.is_none() {
            let r = Vec::new();
            assert(r@ =~= Seq::<Command<H>>::empty());
            return r;
        }
        let ghost app0 = *self;
        match event {
            WindowEvent::CloseRequested => {
                self.phase = Phase::Terminated;
                let r = vec![Command::Exit];
                assert(r@ =~= seq![Command::<H>::Exit]);
                r
            },
            WindowEvent::Resized(size) => {
                let mut st = self.state.take().unwrap();
                let config = st.resize(size);
                self.state = Some(st);
                let r = vec![Command::ConfigureSurface(config)];
                assert(r@ =~= seq![Command::<H>::ConfigureSurface(config)]);
                r
            },
            WindowEvent::RedrawRequested => {
                let mut st = self.state.take().unwrap();
                let frame = st.render();
                let rate = st.frame_counter.update();
                self.state = Some(st);
                let mut r = vec![Command::Present(frame), Command::RequestRedraw];
                match rate {
                    Some(rate) => r.push(Command::ReportFrameRate(rate)),
                    None => {},
                }
                assert(r@.take(2) =~= seq![Command::<H>::Present(frame), Command::RequestRedraw]);
                r
            },
            WindowEvent::KeyboardInput { key, state, is_synthetic } => {
                if is_synthetic {
                    let r = Vec::new();
                    assert(r@ =~= Seq::<Command<H>>::empty());
                    return r;
                }
                match key {
                    None => {
                        let r = vec![Command::UnidentifiedKey];
                        assert(r@ =~= seq![Command::<H>::UnidentifiedKey]);
                        r
                    },
                    Some(k) => {
                        let modifiers = self.get_state().modifiers;
                        let action = make_key_action(k, state, modifiers, self.keybindings.as_slice());
                        self.dispatch_reported(action)
                    },
                }
            },
            WindowEvent::MouseInput { button, state } => {
                let action = make_mouse_action(button, state);
                self.dispatch_reported(action)
            },
            WindowEvent::CursorMoved(p) => {
                let mut st = self.state.take().unwrap();
                st.update_cursor_position(p);
                self.state = Some(st);
                let r = Vec::new();
                assert(r@ =~= Seq::<Command<H>>::empty());
                r
            },
            WindowEvent::ModifiersChanged(m) => {
                let mut st = self.state.take().unwrap();
                st.update_modifiers(m);
                self.state = Some(st);
                let r = Vec::new();
                assert(r@ =~= Seq::<Command<H>>::empty());
                r
            },
            WindowEvent::Other => {
                let r = Vec::new();
                assert(r@ =~= Seq::<Command<H>>::empty());
                r
            },
        }
    }

    /// Dispatches `action`, reporting a refusal as a command.
    fn dispatch_reported(&mut self, action: Action) -> (r: Vec<Command<H>>)
        ensures
            r@ == reported(dispatch_spec(*old(self), action)),
            *final(self) == (App { phase: phase_after(old(self).phase, action), ..*old(self) }),
    {
        match self.handle_action(action) {
            Ok(c) => c,
            Err(DispatchError::NoHandler(k)) => {
                let r = vec![Command::KeyNotHandled(k)];
                assert(r@ =~= seq![Command::<H>::KeyNotHandled(k)]);
                r
            },
        }
    }
}

} // verus!
