//! The display loop's own state: the picture, the buffer that the surface
//! presents, and the interaction state, moved on one event at a time.

use vstd::prelude::*;
use crate::interaction::{command_for, next_state, Command, Event, InteractionState};
use crate::pixels::{buffer_fits, buffer_len, clipped, PresentationBuffer};

verus! {

/// What the loop owns between two events.
#[derive(Debug)]
pub struct DisplayLoop {
    state: InteractionState,
    image: PresentationBuffer,
    buffer: PresentationBuffer,
}

/// The size that an event asks the buffer to take, if it asks for one.
pub open spec fn requested_size(event: Event) -> Option<(u32, u32)> {
    match event {
        Event::Resized { width, height } => Some((width, height)),
        Event::ScaleFactorChanged { width, height } => Some((width, height)),
        _ => None,
    }
}

/// Whether the buffer that an event asks for has a length that the machine
/// can index. Other events ask for none.
pub open spec fn buffer_in_reach(event: Event) -> bool {
    match requested_size(event) {
        Some((width, height)) => buffer_len(width as nat, height as nat) <= usize::MAX,
        None => true,
    }
}

/// Whether `handle_event` can take the event: whether the buffer that it
/// asks for, if it asks for one, is in the machine's reach.
pub fn can_handle(event: Event) -> (in_reach: bool)
    ensures
        in_reach == buffer_in_reach(event),
{
    match event {
        Event::Resized { width, height } => buffer_fits(width, height),
        Event::ScaleFactorChanged { width, height } => buffer_fits(width, height),
        _ => true,
    }
}

/// The shape of the buffer after an event: an event that asks for a size
/// gives a buffer of that size, clipped from the picture, whatever the
/// buffer was before; every other event leaves the buffer's shape alone.
pub open spec fn shape_after(
    image: PresentationBuffer,
    shape: (nat, nat, Seq<u8>),
    event: Event,
) -> (nat, nat, Seq<u8>) {
    match requested_size(event) {
        Some((width, height)) => (
            width as nat,
            height as nat,
            clipped(image, width as nat, height as nat),
        ),
        None => shape,
    }
}

impl DisplayLoop {
    /// The interaction state.
    pub closed spec fn state(&self) -> InteractionState {
        self.state
    }

    /// The converted picture, which no event changes.
    pub closed spec fn image(&self) -> PresentationBuffer {
        self.image
    }

    /// The buffer that the surface presents.
    pub closed spec fn buffer(&self) -> PresentationBuffer {
        self.buffer
    }

    /// Picture and buffer each hold four bytes for each of their pixels.
    pub open spec fn wf(&self) -> bool {
        self.image().wf() && self.buffer().wf()
    }

    /// The loop at startup: windowed, the key not held, the buffer filled
    /// with the picture at the picture's own size.
    pub fn new(image: PresentationBuffer) -> (display: DisplayLoop)
        requires
            image.wf(),
        ensures
            display.wf(),
            display.image() == image,
            display.buffer().width() == image.width(),
            display.buffer().height() == image.height(),
            display.buffer()@ == image@,
            display.state() == (InteractionState {
                is_fullscreen: false,
                fullscreen_key_latched: false,
            }),
    {
        let buffer = image.duplicate();
        DisplayLoop { state: InteractionState::new(), image, buffer }
    }

    /// Takes one event. The interaction state moves as the event says and
    /// the event's command is returned for the caller to carry out. A
    /// command to resize has by then replaced the buffer with a new one of
    /// the size asked for, which shows the picture unscaled from the top left
    /// corner; every other command leaves the buffer as it is.
    pub fn handle_event(&mut self, event: Event) -> (command: Command)
        requires
            old(self).wf(),
            buffer_in_reach(event),
        ensures
            final(self).wf(),
            command == command_for(old(self).state(), event),
            final(self).state() == next_state(old(self).state(), event),
            final(self).image() == old(self).image(),
            final(self).buffer().shape() == shape_after(
                old(self).image(),
                old(self).buffer().shape(),
                event,
            ),
            match requested_size(event) {
                Some((width, height)) => {
                    &&& command == Command::ResizeBuffer(width, height)
                    &&& final(self).buffer().width() == width
                    &&& final(self).buffer().height() == height
                    &&& final(self).buffer()@.len() == buffer_len(width as nat, height as nat)
                    &&& final(self).buffer()@ == clipped(
                        old(self).image(),
                        width as nat,
                        height as nat,
                    )
                },
                None => final(self).buffer() == old(self).buffer(),
            },
    {
        let (next, command) = self.state.step(event);
        self.state = next;
        match command {
            Command::ResizeBuffer(width, height) => {
                self.buffer = self.image.resized(width, height);
            },
            _ => {},
        }
        command
    }

    /// Whether the window is fullscreen.
    pub fn is_fullscreen(&self) -> (fullscreen: bool)
        ensures
            fullscreen == self.state().is_fullscreen,
    {
        self.state.is_fullscreen
    }

    /// The interaction state as it stands.
    pub fn interaction_state(&self) -> (state: InteractionState)
        ensures
            state == self.state(),
    {
        self.state
    }

    /// The buffer to present on a redraw.
    pub fn presentation(&self) -> (buffer: &PresentationBuffer)
        ensures
            *buffer == self.buffer(),
    {
        &self.buffer
    }
}

/// A resize replaces the buffer and keeps nothing of the one before: after
/// two events that each ask for a size, the buffer is the one that the
/// second alone would have given, with the second's width and height and
/// exactly four bytes for each pixel of that size.
pub proof fn lemma_resize_replaces(
    image: PresentationBuffer,
    shape: (nat, nat, Seq<u8>),
    first: Event,
    second: Event,
)
    requires
        requested_size(first).is_some(),
        requested_size(second).is_some(),
    ensures
        ({
            let (width, height) = requested_size(second).unwrap();
            let after = shape_after(image, shape_after(image, shape, first), second);
            &&& after == shape_after(image, shape, second)
            &&& after.0 == width
            &&& after.1 == height
            &&& after.2.len() == width * height * 4
        }),
{
}

} // verus!
