//! Keyboard input: the raw key events the host callbacks produce, the
//! unbounded FIFO queue that carries them to the render loop, and the
//! key-state map that one drain per rendered frame folds them into.

use crate::assoc::StringMap;
use futures::channel::mpsc::UnboundedReceiver;
use vstd::prelude::*;

verus! {

/// What the engine reads of a host keyboard event: the code of the key it
/// concerns, such as `ArrowDown`.
pub struct KeyEvent {
    pub code: String,
}

/// A tagged key transition, produced by a host keyboard callback and
/// consumed exactly once by the drain step.
pub enum KeyPress {
    KeyUp(KeyEvent),
    KeyDown(KeyEvent),
}

/// The receiving end of the unbounded key-event queue.
#[verifier::external_type_specification]
#[verifier::external_body]
#[verifier::reject_recursive_types(T)]
pub struct ExUnboundedReceiver<T>(UnboundedReceiver<T>);

/// The key events buffered in the queue, oldest first.
pub uninterp spec fn queue_contents(events: UnboundedReceiver<KeyPress>) -> Seq<KeyPress>;

/// Relies on futures::channel::mpsc::UnboundedReceiver::try_recv: it hands
/// out the oldest buffered message, and reports an error exactly when
/// nothing is buffered — either the channel is momentarily empty or it is
/// closed and drained. It never blocks.
#[verifier::external_body]
fn poll_key_press(events: &mut UnboundedReceiver<KeyPress>) -> (r: Option<KeyPress>)
    ensures
        match r {
            Some(press) => queue_contents(*old(events)) == seq![press] + queue_contents(
                *final(events),
            ),
            None => {
                &&& queue_contents(*final(events)) == queue_contents(*old(events))
                &&& queue_contents(*old(events)) == Seq::<KeyPress>::empty()
            },
        },
{
    match events.try_recv() {
        Ok(press) => Some(press),
        Err(_) => None,
    }
}

/// Which keys are currently held: a key's code is bound to the event that
/// set it pressed; presence means pressed, absence released.
pub struct KeyState {
    pressed_keys: StringMap<KeyEvent>,
}

impl View for KeyState {
    type V = Map<Seq<char>, KeyEvent>;

    closed spec fn view(&self) -> Map<Seq<char>, KeyEvent> {
        self.pressed_keys@
    }
}

impl KeyState {
    /// A state with no key held.
    pub fn new() -> (r: KeyState)
        ensures
            r@ == Map::<Seq<char>, KeyEvent>::empty(),
    {
        KeyState { pressed_keys: StringMap::new() }
    }

    /// Whether the key with this code is currently held.
    pub fn is_pressed(&self, code: &str) -> (r: bool)
        ensures
            r == self@.contains_key(code@),
    {
        self.pressed_keys.get(code).is_some()
    }

    /// Mark the key pressed, remembering the event that pressed it.
    pub fn set_pressed(&mut self, code: &str, event: KeyEvent)
        ensures
            final(self)@ == old(self)@.insert(code@, event),
    {
        self.pressed_keys.insert(code.to_owned(), event);
    }

    /// Mark the key released.
    pub fn set_released(&mut self, code: &str)
        ensures
            final(self)@ == old(self)@.remove(code@),
    {
        self.pressed_keys.remove(code);
    }
}

/// The change one key transition makes to the held-key map: a down
/// transition binds the key's code to the event, an up transition removes
/// the code.
pub open spec fn apply_key_press(
    state: Map<Seq<char>, KeyEvent>,
    press: KeyPress,
) -> Map<Seq<char>, KeyEvent> {
    match press {
        KeyPress::KeyDown(event) => state.insert(event.code@, event),
        KeyPress::KeyUp(event) => state.remove(event.code@),
    }
}

/// The held-key map after folding a sequence of key transitions, oldest
/// first, into `state`. Several transitions of one key collapse to the
/// last one: draining is frame-granular, not event-granular.
pub open spec fn apply_key_presses(
    state: Map<Seq<char>, KeyEvent>,
    presses: Seq<KeyPress>,
) -> Map<Seq<char>, KeyEvent>
    decreases presses.len(),
{
    if presses.len() == 0 {
        state
    } else {
        apply_key_presses(apply_key_press(state, presses[0]), presses.skip(1))
    }
}

/// Folding no transitions leaves the held-key map as it is; in
/// particular, draining an already empty queue, however often, changes
/// nothing.
pub proof fn lemma_empty_drain_keeps_state(state: Map<Seq<char>, KeyEvent>)
    ensures
        apply_key_presses(state, Seq::<KeyPress>::empty()) == state,
{
}

/// Drain the queue fully, non-blocking, stopping at the first empty or
/// erroring read, and fold each event into the key state in arrival
/// order. A closed queue is treated as empty: no more input this frame.
pub fn process_input(state: &mut KeyState, events: &mut UnboundedReceiver<KeyPress>)
    ensures
        final(state)@ == apply_key_presses(old(state)@, queue_contents(*old(events))),
        queue_contents(*final(events)) == Seq::<KeyPress>::empty(),
{
    loop
        invariant
            apply_key_presses(state@, queue_contents(*events)) == apply_key_presses(
                old(state)@,
                queue_contents(*old(events)),
            ),
        ensures
            queue_contents(*events) == Seq::<KeyPress>::empty(),
            apply_key_presses(state@, queue_contents(*events)) == apply_key_presses(
                old(state)@,
                queue_contents(*old(events)),
            ),
        decreases queue_contents(*events).len(),
    {
        let ghost before = queue_contents(*events);
        let next = poll_key_press(events);
        match next {
            None => {
                break ;
            },
            Some(press) => {
                let ghost pressed = press;
                proof {
                    assert(before[0] == pressed);
                    assert(before.skip(1) =~= queue_contents(*events));
                }
                match press {
                    KeyPress::KeyUp(event) => {
                        state.set_released(event.code.as_str());
                    },
                    KeyPress::KeyDown(event) => {
                        let code: String = event.code.clone();
                        state.set_pressed(code.as_str(), event);
                    },
                }
            },
        }
    }
}

} // verus!
