//! The viewer's reaction to window and keyboard events: which command each
//! event gives, and how the fullscreen state and the key latch move.

use vstd::prelude::*;

verus! {

/// The keys that the viewer tells apart.
#[derive(Debug, Clone, Copy, PartialEq, Eq, Structural)]
pub enum Key {
    /// Leaves the viewer.
    Escape,
    /// Switches fullscreen on and off.
    FullscreenToggle,
    /// Every other key.
    Other,
}

/// Whether a key went down or came up.
#[derive(Debug, Clone, Copy, PartialEq, Eq, Structural)]
pub enum KeyState {
    Pressed,
    Released,
}

/// What the window reports.
#[derive(Debug, Clone, Copy, PartialEq, Eq, Structural)]
pub enum Event {
    /// The user asked to close the window.
    CloseRequested,
    /// A key changed its state.
    KeyboardInput { key: Key, state: KeyState },
    /// The window now has this size.
    Resized { width: u32, height: u32 },
    /// The surface's scale factor changed, and with it the size.
    ScaleFactorChanged { width: u32, height: u32 },
    /// The window wants its content drawn again.
    RedrawRequested,
    /// Anything else.
    Other,
}

/// What the display loop is to do in answer to one event.
#[derive(Debug, Clone, Copy, PartialEq, Eq, Structural)]
pub enum Command {
    /// Stop consuming events.
    Exit,
    /// Put the window into fullscreen (`true`) or back (`false`).
    ToggleFullscreen(bool),
    /// Replace the presentation buffer by one of this width and height.
    ResizeBuffer(u32, u32),
    /// Present the buffer.
    Redraw,
    /// Nothing.
    NoOp,
}

/// Whether the window is fullscreen, and whether the toggle key is held:
/// while the latch is set, further presses of the key are ignored.
#[derive(Debug, Clone, Copy, PartialEq, Eq, Structural)]
pub struct InteractionState {
    pub is_fullscreen: bool,
    pub fullscreen_key_latched: bool,
}

/// A press of the fullscreen key.
pub open spec fn toggle_pressed() -> Event {
    Event::KeyboardInput { key: Key::FullscreenToggle, state: KeyState::Pressed }
}

/// A release of the fullscreen key.
pub open spec fn toggle_released() -> Event {
    Event::KeyboardInput { key: Key::FullscreenToggle, state: KeyState::Released }
}

/// The command that an event gives in a state.
pub open spec fn command_for(state: InteractionState, event: Event) -> Command {
    match event {
        Event::CloseRequested => Command::Exit,
        Event::KeyboardInput { key: Key::Escape, state: KeyState::Pressed } => Command::Exit,
        Event::KeyboardInput { key: Key::FullscreenToggle, state: KeyState::Pressed } => {
            if state.fullscreen_key_latched {
                Command::NoOp
            } else {
                Command::ToggleFullscreen(!state.is_fullscreen)
            }
        },
        Event::Resized { width, height } => Command::ResizeBuffer(width, height),
        Event::ScaleFactorChanged { width, height } => Command::ResizeBuffer(width, height),
        Event::RedrawRequested => Command::Redraw,
        _ => Command::NoOp,
    }
}

/// The state that follows an event. Only the fullscreen key moves it: its
/// first press flips fullscreen and sets the latch, its release clears the
/// latch.
pub open spec fn next_state(state: InteractionState, event: Event) -> InteractionState {
    if event == toggle_pressed() && !state.fullscreen_key_latched {
        InteractionState { is_fullscreen: !state.is_fullscreen, fullscreen_key_latched: true }
    } else if event == toggle_released() {
        InteractionState { is_fullscreen: state.is_fullscreen, fullscreen_key_latched: false }
    } else {
        state
    }
}

/// The state after a sequence of events, taken in order.
pub open spec fn state_after(state: InteractionState, events: Seq<Event>) -> InteractionState
    decreases events.len(),
{
    if events.len() == 0 {
        state
    } else {
        next_state(state_after(state, events.drop_last()), events.last())
    }
}

/// The commands that a sequence of events gives, one for each event.
pub open spec fn commands_for(state: InteractionState, events: Seq<Event>) -> Seq<Command>
    decreases events.len(),
{
    if events.len() == 0 {
        Seq::empty()
    } else {
        commands_for(state, events.drop_last()).push(
            command_for(state_after(state, events.drop_last()), events.last()),
        )
    }
}

/// How many of the commands are a `ToggleFullscreen`.
pub open spec fn toggle_count(commands: Seq<Command>) -> nat
    decreases commands.len(),
{
    if commands.len() == 0 {
        0
    } else if commands.last() is ToggleFullscreen {
        toggle_count(commands.drop_last()) + 1
    } else {
        toggle_count(commands.drop_last())
    }
}

/// `count` presses of the fullscreen key, as a held key repeats them.
pub open spec fn presses(count: nat) -> Seq<Event> {
    Seq::new(count, |i: int| toggle_pressed())
}

impl InteractionState {
    /// The state at startup: windowed, the key not held.
    pub fn new() -> (state: InteractionState)
        ensures
            state == (InteractionState { is_fullscreen: false, fullscreen_key_latched: false }),
    {
        InteractionState { is_fullscreen: false, fullscreen_key_latched: false }
    }

    /// The state that follows `event`, and the command that the event gives.
    pub fn step(self, event: Event) -> (result: (InteractionState, Command))
        ensures
            result.0 == next_state(self, event),
            result.1 == command_for(self, event),
    {
        match event {
            Event::CloseRequested => (self, Command::Exit),
            Event::KeyboardInput { key, state } => match (key, state) {
                (Key::Escape, KeyState::Pressed) => (self, Command::Exit),
                (Key::FullscreenToggle, KeyState::Pressed) => {
                    if self.fullscreen_key_latched {
                        (self, Command::NoOp)
                    } else {
                        let is_fullscreen = !self.is_fullscreen;
                        (
                            InteractionState { is_fullscreen, fullscreen_key_latched: true },
                            Command::ToggleFullscreen(is_fullscreen),
                        )
                    }
                },
                (Key::FullscreenToggle, KeyState::Released) => (
                    InteractionState {
                        is_fullscreen: self.is_fullscreen,
                        fullscreen_key_latched: false,
                    },
                    Command::NoOp,
                ),
                _ => (self, Command::NoOp),
            },
            Event::Resized { width, height } => (self, Command::ResizeBuffer(width, height)),
            Event::ScaleFactorChanged { width, height } => (
                self,
                Command::ResizeBuffer(width, height),
            ),
            Event::RedrawRequested => (self, Command::Redraw),
            Event::Other => (self, Command::NoOp),
        }
    }
}

/// Takes one event: moves `state` on and says what is to be done.
pub fn process_window_event(event: Event, state: &mut InteractionState) -> (command: Command)
    ensures
        command == command_for(*old(state), event),
        *final(state) == next_state(*old(state), event),
{
    let (next, command) = state.step(event);
    *state = next;
    command
}

/// Takes events in the order given, up to and with the first that gives
/// `Exit`, and returns the command of each event taken.
pub fn process_events(state: &mut InteractionState, events: &Vec<Event>) -> (commands: Vec<
    Command,
>)
    ensures
        commands@.len() <= events@.len(),
        commands@ == commands_for(*old(state), events@.take(commands@.len() as int)),
        *final(state) == state_after(*old(state), events@.take(commands@.len() as int)),
        forall|i: int| 0 <= i < commands@.len() - 1 ==> commands@[i] != Command::Exit,
        commands@.len() < events@.len() ==> commands@.len() > 0 && commands@.last()
            == Command::Exit,
{
    let mut commands: Vec<Command> = Vec::new();
    let mut i: usize = 0;
    let mut running = true;
    while running && i < events.len()
        invariant
            i <= events@.len(),
            commands@.len() == i,
            commands@ == commands_for(*old(state), events@.take(i as int)),
            *state == state_after(*old(state), events@.take(i as int)),
            running ==> forall|j: int| 0 <= j < i ==> commands@[j] != Command::Exit,
            !running ==> i > 0 && commands@.last() == Command::Exit && forall|j: int|
                0 <= j < i - 1 ==> commands@[j] != Command::Exit,
        decreases events@.len() - i + (if running { 1nat } else { 0nat }),
    {
        let command = process_window_event(events[i], state);
        proof {
            let taken = events@.take(i + 1);
            assert(taken.drop_last() =~= events@.take(i as int));
            assert(taken.last() == events@[i as int]);
        }
        commands.push(command);
        i += 1;
        match command {
            Command::Exit => {
                running = false;
            },
            _ => {},
        }
    }
    commands
}

/// The first press of the fullscreen key in a state whose latch is clear
/// toggles; every further press while the key is held gives `NoOp`.
pub proof fn lemma_held_key_toggles_once(state: InteractionState, count: nat)
    requires
        !state.fullscreen_key_latched,
        count >= 1,
    ensures
        state_after(state, presses(count)) == (InteractionState {
            is_fullscreen: !state.is_fullscreen,
            fullscreen_key_latched: true,
        }),
        commands_for(state, presses(count)).len() == count,
        commands_for(state, presses(count))[0] == Command::ToggleFullscreen(!state.is_fullscreen),
        forall|i: int|
            1 <= i < count ==> commands_for(state, presses(count))[i] == Command::NoOp,
        toggle_count(commands_for(state, presses(count))) == 1,
    decreases count,
{
    let events = presses(count);
    assert(events.drop_last() =~= presses((count - 1) as nat));
    assert(events.last() == toggle_pressed());
    if count == 1 {
        assert(state_after(state, presses(0)) == state);
        assert(commands_for(state, presses(0)) =~= Seq::<Command>::empty());
        let commands = commands_for(state, events);
        assert(commands.drop_last() =~= Seq::<Command>::empty());
        assert(toggle_count(commands.drop_last()) == 0);
    } else {
        lemma_held_key_toggles_once(state, (count - 1) as nat);
        let commands = commands_for(state, events);
        assert(commands.drop_last() =~= commands_for(state, presses((count - 1) as nat)));
    }
}

/// Any number of presses of the fullscreen key, then its release, give
/// exactly one `ToggleFullscreen`, however often the held key repeats: the
/// first press toggles, every later event gives `NoOp`, and the cycle ends
/// with fullscreen flipped once and the latch clear.
pub proof fn lemma_press_release_toggles_once(state: InteractionState, count: nat)
    requires
        !state.fullscreen_key_latched,
        count >= 1,
    ensures
        ({
            let events = presses(count).push(toggle_released());
            let commands = commands_for(state, events);
            &&& commands.len() == count + 1
            &&& toggle_count(commands) == 1
            &&& commands[0] == Command::ToggleFullscreen(!state.is_fullscreen)
            &&& forall|i: int| 1 <= i <= count ==> commands[i] == Command::NoOp
            &&& state_after(state, events) == (InteractionState {
                is_fullscreen: !state.is_fullscreen,
                fullscreen_key_latched: false,
            })
        }),
{
    let events = presses(count).push(toggle_released());
    lemma_held_key_toggles_once(state, count);
    assert(events.drop_last() =~= presses(count));
    assert(events.last() == toggle_released());
    let commands = commands_for(state, events);
    assert(commands.drop_last() =~= commands_for(state, presses(count)));
}

} // verus!
