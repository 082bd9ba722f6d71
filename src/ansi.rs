//! ANSI terminal stream parsing.
//!
//! Bytes are first run through vte's parser, whose callbacks are recorded as
//! [`VteEvent`]s; the recorded events are then mapped to [`Action`]s by
//! verified code, and the actions are handed to a [`TermAction`] sink.
use vstd::prelude::*;
use crate::util::copy_prefix;

verus! {

/// Column movement
#[derive(Clone, Copy, Debug, PartialEq, Eq, Structural)]
pub enum Col {
    /// Absolute movement
    Abs(u16),
    /// Relative movement
    Rel(i16),
}

/// Row movement
#[derive(Clone, Copy, Debug, PartialEq, Eq, Structural)]
pub enum Row {
    /// Absolute movement
    Abs(u16),
    /// Relative movement
    Rel(i16),
}

/// Cursor movement
#[derive(Clone, Copy, Debug, PartialEq, Eq, Structural)]
pub struct Movement(pub Col, pub Row);

/// Possible screen clear modes
#[derive(Clone, Copy, Debug, PartialEq, Eq, Structural)]
pub enum Clear {
    /// Current line from cursor to the left side
    Left,
    /// Current line from cursor to the right side
    Right,
    /// Entire current line
    Line,
    /// All lines above the cursor to the top
    Above,
    /// All lines bellow the cursor to the bottom
    Bellow,
    /// Entire screen
    All,
    /// History
    Scrollback,
}

/// One action on a terminal, as decoded from its input stream.
#[derive(Clone, Copy, Debug, PartialEq, Eq, Structural)]
pub enum Action {
    /// Print a character at the cursor and advance the cursor.
    Print(char),
    /// Move the cursor.
    MoveCursor(Movement),
    /// Clear a part of the terminal.
    Clear(Clear),
}

/// Actions one can perform on a terminal through ansi escapes.
///
/// An implementer states, through `received`, which actions it has been
/// handed; a sink that ignores some of them keeps that record in a ghost
/// field.
pub trait TermAction {
    /// Every action the sink has received, in order.
    spec fn received(&self) -> Seq<Action>;

    /// Prints a character and move the cursor.
    fn print(&mut self, c: char)
        ensures
            final(self).received() == old(self).received().push(Action::Print(c)),
    ;

    /// Moves the cursor.
    fn move_cursor(&mut self, movement: Movement)
        ensures
            final(self).received() == old(self).received().push(Action::MoveCursor(movement)),
    ;

    /// Clears a part of the terminal
    fn clear(&mut self, clear: Clear)
        ensures
            final(self).received() == old(self).received().push(Action::Clear(clear)),
    ;
}

/// A sink that keeps every action it receives, in order.
pub struct ActionLog {
    pub actions: Vec<Action>,
}

impl ActionLog {
    pub fn new() -> (r: ActionLog)
        ensures
            r.received() == Seq::<Action>::empty(),
    {
        ActionLog { actions: Vec::new() }
    }
}

impl TermAction for ActionLog {
    open spec fn received(&self) -> Seq<Action> {
        self.actions@
    }

    fn print(&mut self, c: char) {
        self.actions.push(Action::Print(c));
    }

    fn move_cursor(&mut self, movement: Movement) {
        self.actions.push(Action::MoveCursor(movement));
    }

    fn clear(&mut self, clear: Clear) {
        self.actions.push(Action::Clear(clear));
    }
}

/// One callback of vte's parser, as recorded.
#[derive(Debug)]
pub enum VteEvent {
    /// A character to draw.
    Print(char),
    /// A C0 or C1 control function.
    Execute(u8),
    /// The start of a device control string, with its final character.
    Hook(char),
    /// A byte of a device control string.
    Put(u8),
    /// The end of a device control string.
    Unhook,
    /// A complete operating system command.
    OscDispatch,
    /// A complete control sequence: its parameters (each with its
    /// subparameters), its intermediate bytes, whether vte ignored part of
    /// it, and its final character.
    CsiDispatch { params: Vec<Vec<u16>>, intermediates: Vec<u8>, ignore: bool, action: char },
    /// A complete escape sequence, with its final byte.
    EscDispatch(u8),
}

/// The largest relative movement that a single action can carry.
pub const MAX_REL: u16 = 32767;

/// First subparameter of parameter `i`, where it is present and not zero.
pub open spec fn param_spec(params: Seq<Vec<u16>>, i: int) -> Option<u16> {
    if 0 <= i < params.len() && params[i]@.len() > 0 && params[i]@[0] != 0 {
        Some(params[i]@[0])
    } else {
        None
    }
}

/// Parameter `i`, or 1 where it is absent or zero (the ANSI default of
/// counts and coordinates).
pub open spec fn count_spec(params: Seq<Vec<u16>>, i: int) -> u16 {
    match param_spec(params, i) {
        Some(v) => v,
        None => 1,
    }
}

/// Parameter `i`, or 0 where it is absent (the ANSI default of selectors).
pub open spec fn selector_spec(params: Seq<Vec<u16>>, i: int) -> u16 {
    match param_spec(params, i) {
        Some(v) => v,
        None => 0,
    }
}

/// A count as a signed offset, clamped to what an `i16` holds.
pub open spec fn offset_spec(n: u16) -> i16 {
    if n > MAX_REL {
        MAX_REL as i16
    } else {
        n as i16
    }
}

/// What a control sequence means, where it is one that this interpreter
/// recognises: cursor position (`H`), cursor up, down, forward, back
/// (`A` to `D`), erase in display (`J`) and erase in line (`K`). A sequence
/// with intermediate bytes, or one that vte marked as ignored, means nothing.
pub open spec fn csi_meaning(
    params: Seq<Vec<u16>>,
    intermediates: Seq<u8>,
    ignore: bool,
    action: char,
) -> Option<Action> {
    if ignore || intermediates.len() != 0 {
        None
    } else if action == 'H' {
        Some(
            Action::MoveCursor(
                Movement(Col::Abs(count_spec(params, 1)), Row::Abs(count_spec(params, 0))),
            ),
        )
    } else if action == 'A' {
        Some(
            Action::MoveCursor(
                Movement(Col::Rel(0), Row::Rel((-offset_spec(count_spec(params, 0))) as i16)),
            ),
        )
    } else if action == 'B' {
        Some(Action::MoveCursor(Movement(Col::Rel(0), Row::Rel(offset_spec(count_spec(params, 0))))))
    } else if action == 'C' {
        Some(Action::MoveCursor(Movement(Col::Rel(offset_spec(count_spec(params, 0))), Row::Rel(0))))
    } else if action == 'D' {
        Some(
            Action::MoveCursor(
                Movement(Col::Rel((-offset_spec(count_spec(params, 0))) as i16), Row::Rel(0)),
            ),
        )
    } else if action == 'J' {
        let s = selector_spec(params, 0);
        if s == 0 {
            Some(Action::Clear(Clear::Bellow))
        } else if s == 1 {
            Some(Action::Clear(Clear::Above))
        } else if s == 2 {
            Some(Action::Clear(Clear::All))
        } else if s == 3 {
            Some(Action::Clear(Clear::Scrollback))
        } else {
            None
        }
    } else if action == 'K' {
        let s = selector_spec(params, 0);
        if s == 0 {
            Some(Action::Clear(Clear::Right))
        } else if s == 1 {
            Some(Action::Clear(Clear::Left))
        } else if s == 2 {
            Some(Action::Clear(Clear::Line))
        } else {
            None
        }
    } else {
        None
    }
}

/// The action that one recorded callback stands for, if any. Control
/// functions, escape sequences, operating system commands and device control
/// strings are consumed without an action.
pub open spec fn event_meaning(e: VteEvent) -> Option<Action> {
    match e {
        VteEvent::Print(c) => Some(Action::Print(c)),
        VteEvent::CsiDispatch { params, intermediates, ignore, action } => csi_meaning(
            params@,
            intermediates@,
            ignore,
            action,
        ),
        _ => None,
    }
}

/// The actions that a sequence of recorded callbacks stands for, in order.
pub open spec fn actions_of(events: Seq<VteEvent>) -> Seq<Action>
    decreases events.len(),
{
    if events.len() == 0 {
        Seq::empty()
    } else {
        let before = actions_of(events.drop_last());
        match event_meaning(events.last()) {
            Some(a) => before.push(a),
            None => before,
        }
    }
}

/// First subparameter of parameter `i`, where it is present and not zero.
fn param(params: &Vec<Vec<u16>>, i: usize) -> (r: Option<u16>)
    ensures
        r == param_spec(params@, i as int),
{
    if i < params.len() && params[i].len() > 0 && params[i][0] != 0 {
        Some(params[i][0])
    } else {
        None
    }
}

fn count(params: &Vec<Vec<u16>>, i: usize) -> (r: u16)
    ensures
        r == count_spec(params@, i as int),
{
    match param(params, i) {
        Some(v) => v,
        None => 1,
    }
}

fn selector(params: &Vec<Vec<u16>>, i: usize) -> (r: u16)
    ensures
        r == selector_spec(params@, i as int),
{
    match param(params, i) {
        Some(v) => v,
        None => 0,
    }
}

fn offset(n: u16) -> (r: i16)
    ensures
        r == offset_spec(n),
        0 < n ==> 0 < r,
{
    if n > MAX_REL {
        MAX_REL as i16
    } else {
        n as i16
    }
}

/// Maps a complete control sequence to the action it stands for, if it is
/// one that is recognised.
pub fn csi_action(params: &Vec<Vec<u16>>, intermediates: &Vec<u8>, ignore: bool, action: char) -> (r:
    Option<Action>)
    ensures
        r == csi_meaning(params@, intermediates@, ignore, action),
{
    if ignore || intermediates.len() != 0 {
        None
    } else if action == 'H' {
        Some(Action::MoveCursor(Movement(Col::Abs(count(params, 1)), Row::Abs(count(params, 0)))))
    } else if action == 'A' {
        let n = offset(count(params, 0));
        Some(Action::MoveCursor(Movement(Col::Rel(0), Row::Rel(-n))))
    } else if action == 'B' {
        Some(Action::MoveCursor(Movement(Col::Rel(0), Row::Rel(offset(count(params, 0))))))
    } else if action == 'C' {
        Some(Action::MoveCursor(Movement(Col::Rel(offset(count(params, 0))), Row::Rel(0))))
    } else if action == 'D' {
        let n = offset(count(params, 0));
        Some(Action::MoveCursor(Movement(Col::Rel(-n), Row::Rel(0))))
    } else if action == 'J' {
        let s = selector(params, 0);
        if s == 0 {
            Some(Action::Clear(Clear::Bellow))
        } else if s == 1 {
            Some(Action::Clear(Clear::Above))
        } else if s == 2 {
            Some(Action::Clear(Clear::All))
        } else if s == 3 {
            Some(Action::Clear(Clear::Scrollback))
        } else {
            None
        }
    } else if action == 'K' {
        let s = selector(params, 0);
        if s == 0 {
            Some(Action::Clear(Clear::Right))
        } else if s == 1 {
            Some(Action::Clear(Clear::Left))
        } else if s == 2 {
            Some(Action::Clear(Clear::Line))
        } else {
            None
        }
    } else {
        None
    }
}

/// Maps one recorded callback to the action it stands for, if any.
pub fn event_action(e: &VteEvent) -> (r: Option<Action>)
    ensures
        r == event_meaning(*e),
{
    match e {
        VteEvent::Print(c) => Some(Action::Print(*c)),
        VteEvent::CsiDispatch { params, intermediates, ignore, action } => csi_action(
            params,
            intermediates,
            *ignore,
            *action,
        ),
        _ => None,
    }
}

/// Maps recorded callbacks to actions, keeping their order.
pub fn actions_from_events(events: &Vec<VteEvent>) -> (r: Vec<Action>)
    ensures
        r@ == actions_of(events@),
{
    let mut r: Vec<Action> = Vec::new();
    let mut i: usize = 0;
    while i < events.len()
        invariant
            i <= events.len(),
            r@ == actions_of(events@.take(i as int)),
        decreases events.len() - i,
    {
        proof {
            let next = events@.take(i + 1);
            assert(next.drop_last() =~= events@.take(i as int));
            assert(next.last() == events@[i as int]);
        }
        match event_action(&events[i]) {
            Some(a) => r.push(a),
            None => {},
        }
        i = i + 1;
    }
    assert(events@.take(events.len() as int) =~= events@);
    r
}

#[verifier::external_type_specification]
#[verifier::external_body]
pub struct ExParams(vte::Params);

/// What vte's parser reports, in order, when a parser fresh from
/// `Parser::new` is fed `input`, as recorded by [`EventLog`].
pub uninterp spec fn vte_events(input: Seq<u8>) -> Seq<VteEvent>;

/// Relies on vte's `Params::iter`: each parameter of a control sequence
/// with its subparameters, in order.
#[verifier::external_body]
fn param_lists(params: &vte::Params) -> Vec<Vec<u16>> {
    params.iter().map(|p| p.to_vec()).collect()
}

/// Records each callback of vte's parser, in the order it comes.
pub struct EventLog {
    events: Vec<VteEvent>,
}

impl vte::Perform for EventLog {
    fn print(&mut self, c: char) {
        self.events.push(VteEvent::Print(c));
    }

    fn execute(&mut self, byte: u8) {
        self.events.push(VteEvent::Execute(byte));
    }

    fn hook(&mut self, params: &vte::Params, intermediates: &[u8], ignore: bool, action: char) {
        self.events.push(VteEvent::Hook(action));
    }

    fn put(&mut self, byte: u8) {
        self.events.push(VteEvent::Put(byte));
    }

    fn unhook(&mut self) {
        self.events.push(VteEvent::Unhook);
    }

    fn osc_dispatch(&mut self, params: &[&[u8]], bell_terminated: bool) {
        self.events.push(VteEvent::OscDispatch);
    }

    fn csi_dispatch(&mut self, params: &vte::Params, intermediates: &[u8], ignore: bool, action: char) {
        let params = param_lists(params);
        let intermediates = copy_prefix(intermediates, intermediates.len());
        self.events.push(VteEvent::CsiDispatch { params, intermediates, ignore, action });
    }

    fn esc_dispatch(&mut self, intermediates: &[u8], ignore: bool, byte: u8) {
        self.events.push(VteEvent::EscDispatch(byte));
    }
}

/// Relies on vte's `Parser::new` and `Parser::advance`: a fresh parser is
/// fed all of `input` in one call, and what it reports depends on those
/// bytes alone. It reports nothing on no bytes (`advance` makes no callback
/// when it has no byte and no partial character). Its callbacks land on an
/// [`EventLog`], whose verified methods only record them.
#[verifier::external_body]
fn scan(input: &[u8]) -> (events: Vec<VteEvent>)
    ensures
        events@ == vte_events(input@),
        input@.len() == 0 ==> events@.len() == 0,
{
    let mut parser = vte::Parser::new();
    let mut log = EventLog { events: Vec::new() };
    parser.advance(&mut log, input);
    log.events
}

/// Decodes a byte stream into the actions it asks of a terminal, in order.
/// Malformed input never fails: invalid encoding is printed as the
/// replacement character and unrecognised sequences are consumed.
pub fn interpret(input: &[u8]) -> (r: Vec<Action>)
    ensures
        r@ == actions_of(vte_events(input@)),
        input@.len() == 0 ==> r@.len() == 0,
{
    let events = scan(input);
    actions_from_events(&events)
}

/// Hands actions to a [`TermAction`] sink.
pub struct Performer<'a, TA: TermAction + 'a> {
    action: &'a mut TA,
}

impl<'a, TA: TermAction + 'a> Performer<'a, TA> {
    /// The sink this performer hands actions to.
    pub closed spec fn sink(&self) -> &'a mut TA {
        self.action
    }

    /// Holds `action` itself: nothing is called on it, and whatever is done
    /// through the performer is what `action` ends up holding.
    pub fn new(action: &'a mut TA) -> (r: Self)
        ensures
            *r.sink() == *old(action),
            *final(r.sink()) == *final(action),
    {
        Performer { action }
    }

    /// Hands one action to the sink through the matching method.
    pub fn perform(&mut self, a: Action)
        ensures
            final(self).sink().received() == old(self).sink().received().push(a),
            *final(final(self).sink()) == *final(old(self).sink()),
    {
        match a {
            Action::Print(c) => self.action.print(c),
            Action::MoveCursor(m) => self.action.move_cursor(m),
            Action::Clear(c) => self.action.clear(c),
        }
    }

    /// Decodes `input` and hands each action it asks for to the sink, in
    /// order.
    pub fn feed(&mut self, input: &[u8])
        ensures
            final(self).sink().received() == old(self).sink().received() + actions_of(
                vte_events(input@),
            ),
            input@.len() == 0 ==> *final(self).sink() == *old(self).sink(),
            *final(final(self).sink()) == *final(old(self).sink()),
    {
        let actions = interpret(input);
        let mut i: usize = 0;
        while i < actions.len()
            invariant
                i <= actions@.len(),
                actions@ == actions_of(vte_events(input@)),
                self.sink().received() == old(self).sink().received() + actions@.take(i as int),
                i == 0 ==> *self.sink() == *old(self).sink(),
                *final(self.sink()) == *final(old(self).sink()),
            decreases actions.len() - i,
        {
            self.perform(actions[i]);
            i = i + 1;
            assert(self.sink().received() =~= old(self).sink().received() + actions@.take(i as int));
        }
        assert(actions@.take(actions@.len() as int) =~= actions@);
    }
}

/// Parses a stream of ansi escapes and hands each action it asks for to
/// `terminal`, in order. On no bytes the terminal is left as it was.
pub fn parse<TA: TermAction>(input: &[u8], terminal: &mut TA)
    ensures
        final(terminal).received() == old(terminal).received() + actions_of(vte_events(input@)),
        input@.len() == 0 ==> *final(terminal) == *old(terminal),
{
    let mut performer = Performer::new(terminal);
    performer.feed(input);
}

} // verus!
