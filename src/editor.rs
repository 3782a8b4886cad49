//! The editor's control loop: one iteration reads an event, hands it to the
//! active mode, applies the mode's transition and draws a frame.

use vstd::prelude::*;

verus! {

/// Input and output failures are carried through unchanged.
#[verifier::external_type_specification]
#[verifier::external_body]
pub struct ExIoError(std::io::Error);

/// Drawing failures are carried through unchanged.
#[verifier::external_type_specification]
#[verifier::external_body]
pub struct ExAnyhowError(anyhow::Error);

/// A key press, passed unchanged from the event source to the active mode.
#[derive(Debug, Clone, Copy, PartialEq, Eq)]
pub enum Key {
    Char(char),
    Ctrl(char),
    Alt(char),
    F(u8),
    Backspace,
    Delete,
    Enter,
    Tab,
    Esc,
    Left,
    Right,
    Up,
    Down,
    Home,
    End,
    PageUp,
    PageDown,
}

/// What the event source delivers.
#[derive(Debug)]
pub enum Event {
    Input(Key),
    Tick,
    Error(std::io::Error),
}

/// What the active mode asks of the control loop after an input.
#[derive(Debug, Clone, Copy, PartialEq, Eq)]
pub enum Transition {
    NoOp,
}

/// Something that consumes key input and asks for a transition.
pub trait Mode {
    /// Updates the mode's own state from one key.
    fn receive_input(&mut self, key: Key);

    /// The transition the most recent input calls for.
    fn next_transition(&self) -> Transition;
}

/// The placeholder mode: it ignores every key and never asks for anything.
#[derive(Debug, Clone, Copy, PartialEq, Eq)]
pub struct NormalMode {}

impl Mode for NormalMode {
    fn receive_input(&mut self, key: Key) {
    }

    fn next_transition(&self) -> (r: Transition)
        ensures
            r == Transition::NoOp,
    {
        Transition::NoOp
    }
}

/// A blocking source of events.
pub trait EventLoop {
    /// Waits for the next event.
    fn read_event(&mut self) -> Result<Event, std::io::Error>;
}

/// A surface the editor draws its frames on.
pub trait Canvas {
    /// The handle a frame is composed through.
    type Frame;

    /// Acquires a frame, hands it to `compose` once, and presents it; fails
    /// if acquiring, composing or presenting fails.
    fn draw<F: FnOnce(&mut Self::Frame) -> Result<(), anyhow::Error>>(&mut self, compose: F) -> Result<(), anyhow::Error>;
}

/// Composes the editor's frame; nothing is drawn on it yet.
pub fn compose_frame<T>(frame: &mut T) -> (r: Result<(), anyhow::Error>)
    ensures
        r is Ok,
        *final(frame) == *old(frame),
{
    Ok(())
}

/// The two ways a run of the editor fails.
#[derive(Debug)]
pub enum EditorError {
    /// The event source failed or delivered an error event.
    Io(std::io::Error),
    /// Drawing a frame failed.
    Render(anyhow::Error),
}

/// The outcome of handing one read to the editor: an error read or an error
/// event ends the run as an input/output failure, anything else goes on to
/// drawing.
pub open spec fn event_outcome(read: Result<Event, std::io::Error>) -> Result<(), EditorError> {
    match read {
        Err(e) => Err(EditorError::Io(e)),
        Ok(Event::Error(e)) => Err(EditorError::Io(e)),
        Ok(_) => Ok(()),
    }
}

/// The outcome of one draw: a failure ends the run as a render failure.
pub open spec fn render_outcome(drawn: Result<(), anyhow::Error>) -> Result<(), EditorError> {
    match drawn {
        Err(e) => Err(EditorError::Render(e)),
        Ok(()) => Ok(()),
    }
}

/// One call the editor made to its event source, its mode or its canvas,
/// with what was handed over or came back.
pub enum Call {
    /// `read_event` was called and returned this.
    Read(Result<Event, std::io::Error>),
    /// `receive_input` was called with this key.
    Input(Key),
    /// `next_transition` was called.
    NextTransition,
    /// `draw` was called and returned this.
    Draw(Result<(), anyhow::Error>),
}

/// The calls made while handling one read: a key goes to the mode and the
/// mode is asked for its transition; a tick only asks for the transition; a
/// failed read or an error event calls nothing.
pub open spec fn event_calls(read: Result<Event, std::io::Error>) -> Seq<Call> {
    match read {
        Ok(Event::Input(k)) => seq![Call::Input(k), Call::NextTransition],
        Ok(Event::Tick) => seq![Call::NextTransition],
        _ => Seq::empty(),
    }
}

/// `calls` are the calls of one iteration of the control loop and `r` its
/// result: exactly one read comes first, then the calls that handling it
/// makes; if the read ends the run, nothing follows and `r` is its error;
/// otherwise exactly one draw comes last and `r` is what that draw decides.
pub open spec fn iteration(calls: Seq<Call>, r: Result<(), EditorError>) -> bool {
    &&& calls.len() > 0
    &&& match calls[0] {
        Call::Read(read) => {
            let handled = seq![Call::Read(read)] + event_calls(read);
            if event_outcome(read) is Err {
                calls == handled && r == event_outcome(read)
            } else {
                &&& calls.len() == handled.len() + 1
                &&& calls.take(handled.len() as int) == handled
                &&& match calls.last() {
                    Call::Draw(drawn) => r == render_outcome(drawn),
                    _ => false,
                }
            }
        },
        _ => false,
    }
}

/// The state of a running editor.
pub struct Editor<E, C, M: Mode> {
    event_loop: E,
    canvas: C,
    mode: M,
    should_quit: bool,
    log: Ghost<Seq<Call>>,
}

impl<E, C> Editor<E, C, NormalMode> {
    /// An editor in normal mode that owns the given event source and canvas
    /// and has not been asked to quit.
    pub fn new(event_loop: E, canvas: C) -> (r: Self)
        ensures
            r.event_source() == event_loop,
            r.surface() == canvas,
            r.active_mode() == (NormalMode {  }),
            !r.quitting(),
            r.calls() == Seq::<Call>::empty(),
    {
        Editor {
            event_loop,
            canvas,
            mode: NormalMode {  },
            should_quit: false,
            log: Ghost(Seq::empty()),
        }
    }
}

impl<E, C, M: Mode> Editor<E, C, M> {
    /// Whether the editor has been asked to quit.
    pub closed spec fn quitting(&self) -> bool {
        self.should_quit
    }

    /// The event source the editor reads from.
    pub closed spec fn event_source(&self) -> E {
        self.event_loop
    }

    /// The surface the editor draws on.
    pub closed spec fn surface(&self) -> C {
        self.canvas
    }

    /// The calls made so far to the event source, the mode and the canvas,
    /// oldest first.
    pub closed spec fn calls(&self) -> Seq<Call> {
        self.log@
    }

    /// The active mode.
    pub closed spec fn active_mode(&self) -> M {
        self.mode
    }

    /// Whether the editor has been asked to quit.
    pub fn should_quit(&self) -> (r: bool)
        ensures
            r == self.quitting(),
    {
        self.should_quit
    }

    /// Applies a transition the active mode asked for.
    pub fn apply_transition(&mut self, transition: Transition)
        ensures
            final(self).quitting() == old(self).quitting(),
            final(self).active_mode() == old(self).active_mode(),
            final(self).event_source() == old(self).event_source(),
            final(self).surface() == old(self).surface(),
            final(self).calls() == old(self).calls(),
    {
        match transition {
            Transition::NoOp => {},
        }
    }

    /// Handles one read from the event source: a key goes to the active mode,
    /// a tick changes nothing, an error ends the run; then the mode's
    /// transition is applied.
    pub fn handle_event(&mut self, read: Result<Event, std::io::Error>) -> (r: Result<(), EditorError>)
        ensures
            r == event_outcome(read),
            final(self).quitting() == old(self).quitting(),
            !(read matches Ok(Event::Input(_))) ==> final(self).active_mode() == old(self).active_mode(),
            final(self).event_source() == old(self).event_source(),
            final(self).surface() == old(self).surface(),
            final(self).calls() == old(self).calls() + event_calls(read),
    {
        let ghost before = self.log@;
        match read {
            Err(e) => {
                return Err(EditorError::Io(e));
            },
            Ok(Event::Error(e)) => {
                return Err(EditorError::Io(e));
            },
            Ok(Event::Input(key)) => {
                self.log = Ghost(self.log@.push(Call::Input(key)));
                self.mode.receive_input(key);
            },
            Ok(Event::Tick) => {},
        }
        self.log = Ghost(self.log@.push(Call::NextTransition));
        let transition = self.mode.next_transition();
        self.apply_transition(transition);
        proof {
            assert(self.log@ =~= before + event_calls(read));
        }
        Ok(())
    }

    /// Handles the result of one draw: a failure ends the run.
    pub fn handle_render(&self, drawn: Result<(), anyhow::Error>) -> (r: Result<(), EditorError>)
        ensures
            r == render_outcome(drawn),
    {
        match drawn {
            Err(e) => Err(EditorError::Render(e)),
            Ok(()) => Ok(()),
        }
    }
}

impl<E: EventLoop, C: Canvas, M: Mode> Editor<E, C, M> {
    /// Runs one iteration of the control loop: reads one event and handles
    /// it; unless that ends the run, draws one frame, whatever the event was.
    pub fn step(&mut self) -> (r: Result<(), EditorError>)
        ensures
            final(self).quitting() == old(self).quitting(),
            final(self).calls().len() > old(self).calls().len(),
            final(self).calls().take(old(self).calls().len() as int) == old(self).calls(),
            iteration(final(self).calls().skip(old(self).calls().len() as int), r),
    {
        let ghost before = self.log@;
        let read = self.event_loop.read_event();
        self.log = Ghost(self.log@.push(Call::Read(read)));
        let ghost handled = seq![Call::Read(read)] + event_calls(read);
        let outcome = self.handle_event(read);
        proof {
            assert(self.log@ =~= before + handled);
            assert(self.log@.skip(before.len() as int) =~= handled);
            assert(self.log@.take(before.len() as int) =~= before);
        }
        if outcome.is_err() {
            return outcome;
        }
        let drawn = self.canvas.draw(compose_frame);
        self.log = Ghost(self.log@.push(Call::Draw(drawn)));
        proof {
            let here = self.log@.skip(before.len() as int);
            assert(here =~= handled.push(Call::Draw(drawn)));
            assert(here.take(handled.len() as int) =~= handled);
            assert(self.log@.take(before.len() as int) =~= before);
        }
        self.handle_render(drawn)
    }
}

/// Within one iteration the event source is read exactly once, first; a key
/// reaches the mode unchanged before the mode is asked for its transition,
/// once; and a frame is drawn exactly once, last, unless the read ended the
/// run, in which case nothing follows the read.
pub proof fn law_iteration_order(calls: Seq<Call>, r: Result<(), EditorError>)
    requires
        iteration(calls, r),
    ensures
        calls[0] is Read,
        forall|i: int| 0 < i < calls.len() ==> !(#[trigger] calls[i] is Read),
        calls[0] matches Call::Read(Ok(Event::Input(k))) ==> calls[1] == Call::Input(k) && calls[2]
            == Call::NextTransition && calls[3] is Draw && calls.len() == 4,
        calls[0] matches Call::Read(Ok(Event::Tick)) ==> calls[1] == Call::NextTransition
            && calls[2] is Draw && calls.len() == 3,
        event_outcome(calls[0]->Read_0) is Err ==> calls.len() == 1 && r == event_outcome(
            calls[0]->Read_0,
        ),
{
    let read = calls[0]->Read_0;
    let handled = seq![Call::Read(read)] + event_calls(read);
    assert forall|i: int| 0 < i < calls.len() implies !(#[trigger] calls[i] is Read) by {
        if i < handled.len() {
            assert(calls[i] == handled[i]);
        } else {
            assert(calls[i] == calls.last());
        }
    }
    if event_outcome(read) is Ok {
        assert(calls[1] == handled[1]);
        if handled.len() > 2 {
            assert(calls[2] == handled[2]);
        }
    }
}

/// Two ticks whose frames were drawn without failure, then an error event:
/// the run ends with that event's input/output failure, after exactly two
/// draws, both made before the error event was read, and nothing is called
/// after it.
pub proof fn law_ticks_then_error_event(
    first: Seq<Call>,
    second: Seq<Call>,
    third: Seq<Call>,
    r1: Result<(), EditorError>,
    r2: Result<(), EditorError>,
    r3: Result<(), EditorError>,
    e: std::io::Error,
)
    requires
        iteration(first, r1),
        iteration(second, r2),
        iteration(third, r3),
        first[0] == Call::Read(Ok(Event::Tick)),
        second[0] == Call::Read(Ok(Event::Tick)),
        third[0] == Call::Read(Ok(Event::Error(e))),
        r1 is Ok,
        r2 is Ok,
    ensures
        r3 == Err::<(), EditorError>(EditorError::Io(e)),
        first.len() == 3 && first[1] == Call::NextTransition && first[2] == Call::Draw(Ok(())),
        second.len() == 3 && second[1] == Call::NextTransition && second[2] == Call::Draw(Ok(())),
        third == seq![Call::Read(Ok(Event::Error(e)))],
{
    law_iteration_order(first, r1);
    law_iteration_order(second, r2);
    law_iteration_order(third, r3);
    assert(first.last() == first[2]);
    assert(second.last() == second[2]);
    let d1 = first[2]->Draw_0;
    let d2 = second[2]->Draw_0;
    assert(r1 == render_outcome(d1));
    assert(r2 == render_outcome(d2));
    assert(d1 is Ok && d2 is Ok);
    assert(d1 == Ok::<(), anyhow::Error>(d1->Ok_0));
    assert(d2 == Ok::<(), anyhow::Error>(d2->Ok_0));
    assert(third =~= seq![Call::Read(Ok(Event::Error(e)))]);
}

/// A read that does not end the run followed by a failing draw ends the run
/// with a render failure in that same iteration, after exactly one read.
pub proof fn law_failed_draw_ends_iteration(
    calls: Seq<Call>,
    r: Result<(), EditorError>,
    d: anyhow::Error,
)
    requires
        iteration(calls, r),
        event_outcome(calls[0]->Read_0) is Ok,
        calls.last() == Call::Draw(Err(d)),
    ensures
        r == Err::<(), EditorError>(EditorError::Render(d)),
        forall|i: int| 0 < i < calls.len() ==> !(#[trigger] calls[i] is Read),
{
    law_iteration_order(calls, r);
}

} // verus!
