//! Host input: the X11-to-evdev key map and the queue of events injected
//! by the user interface for the device model.
use vstd::prelude::*;

use crate::error::{LiteDroidError, Result};
use crate::types::{AndroidButton, InputEvent, MouseButton};

verus! {

/// The Linux evdev keycode for an X11 keycode (with the standard +8 offset),
/// or 0 for keys that have no mapping.
pub open spec fn x11_keymap(x11_keycode: u32) -> u32 {
    match x11_keycode {
        // ESC, 1-9, 0
        9 => 1,
        10 => 2,
        11 => 3,
        12 => 4,
        13 => 5,
        14 => 6,
        15 => 7,
        16 => 8,
        17 => 9,
        18 => 10,
        19 => 11,
        // QWERTYUIOP
        24 => 16,
        25 => 17,
        26 => 18,
        27 => 19,
        28 => 20,
        29 => 21,
        30 => 22,
        31 => 23,
        32 => 24,
        33 => 25,
        // ASDFGHJKL
        38 => 30,
        39 => 31,
        40 => 32,
        41 => 33,
        42 => 34,
        43 => 35,
        44 => 36,
        45 => 37,
        46 => 38,
        // ZXCVBNM
        52 => 44,
        53 => 45,
        54 => 46,
        55 => 47,
        56 => 48,
        57 => 49,
        58 => 50,
        // TAB, ENTER, BACKSPACE, SPACE
        23 => 15,
        36 => 28,
        22 => 14,
        65 => 57,
        // Modifiers
        50 => 42,
        37 => 29,
        64 => 56,
        // F1 - F12
        67 => 59,
        68 => 60,
        69 => 61,
        70 => 62,
        71 => 63,
        72 => 64,
        73 => 65,
        74 => 66,
        75 => 67,
        76 => 68,
        77 => 87,
        78 => 88,
        // Navigation: HOME, END, LEFT, UP, RIGHT, DOWN
        110 => 102,
        115 => 107,
        113 => 105,
        111 => 103,
        114 => 106,
        116 => 108,
        _ => 0,
    }
}

/// Whether X11 keycode `x` is one of the keys the map covers: Escape and
/// the digit row, the three letter rows, Tab, Enter, Backspace, Space, left
/// Shift, Control and Alt, the function keys, and Home, End and the arrows.
pub open spec fn mapped_x11_key(x: u32) -> bool {
    ||| 9 <= x <= 19
    ||| 22 <= x <= 33
    ||| 36 <= x <= 46
    ||| x == 50
    ||| 52 <= x <= 58
    ||| x == 64
    ||| x == 65
    ||| 67 <= x <= 78
    ||| x == 110
    ||| x == 111
    ||| 113 <= x <= 116
}

/// The key map follows the X11 convention that a keycode is the evdev code
/// plus 8: every covered key maps to its keycode minus 8 (so Up, 111, is
/// 103, Left 105, Right 106 and Down, 116, is 108), except the last two
/// function-key slots, 77 and 78, which give F11 (87) and F12 (88); every
/// other keycode maps to 0. No two keys share an evdev code.
pub proof fn lemma_x11_keymap(x: u32, y: u32)
    ensures
        mapped_x11_key(x) && x != 77 && x != 78 ==> x11_keymap(x) == x - 8,
        x11_keymap(77) == 87 && x11_keymap(78) == 88,
        !mapped_x11_key(x) ==> x11_keymap(x) == 0,
        x11_keymap(x) != 0 && x11_keymap(x) == x11_keymap(y) ==> x == y,
{
    assert(!mapped_x11_key(95) && !mapped_x11_key(96));
}

/// Map an X11 keycode (with the standard +8 offset) to a Linux evdev keycode.
///
/// Returns 0 for unmapped keycodes.
pub fn x11_to_linux_keycode(x11_keycode: u32) -> (k: u32)
    ensures
        k == x11_keymap(x11_keycode),
{
    match x11_keycode {
        // ESC, 1-9, 0
        9 => 1,
        10 => 2,
        11 => 3,
        12 => 4,
        13 => 5,
        14 => 6,
        15 => 7,
        16 => 8,
        17 => 9,
        18 => 10,
        19 => 11,
        // QWERTYUIOP
        24 => 16,
        25 => 17,
        26 => 18,
        27 => 19,
        28 => 20,
        29 => 21,
        30 => 22,
        31 => 23,
        32 => 24,
        33 => 25,
        // ASDFGHJKL
        38 => 30,
        39 => 31,
        40 => 32,
        41 => 33,
        42 => 34,
        43 => 35,
        44 => 36,
        45 => 37,
        46 => 38,
        // ZXCVBNM
        52 => 44,
        53 => 45,
        54 => 46,
        55 => 47,
        56 => 48,
        57 => 49,
        58 => 50,
        // TAB, ENTER, BACKSPACE, SPACE
        23 => 15,
        36 => 28,
        22 => 14,
        65 => 57,
        // Modifiers
        50 => 42,
        37 => 29,
        64 => 56,
        // F1 - F12
        67 => 59,
        68 => 60,
        69 => 61,
        70 => 62,
        71 => 63,
        72 => 64,
        73 => 65,
        74 => 66,
        75 => 67,
        76 => 68,
        77 => 87,
        78 => 88,
        // Navigation: HOME, END, LEFT, UP, RIGHT, DOWN
        110 => 102,
        115 => 107,
        113 => 105,
        111 => 103,
        114 => 106,
        116 => 108,
        _ => 0,
    }
}

/// A bounded FIFO of input events.
///
/// Both ends of a `crossbeam_channel` bounded channel are held here and only
/// here, so every change to the queue goes through `&mut EventQueue`.
#[verifier::external_body]
pub struct EventQueue {
    tx: crossbeam_channel::Sender<InputEvent>,
    rx: crossbeam_channel::Receiver<InputEvent>,
}

/// The events waiting in `q`, oldest first.
pub uninterp spec fn queued_events(q: EventQueue) -> Seq<InputEvent>;

/// The capacity that `q` was created with.
pub uninterp spec fn queue_capacity(q: EventQueue) -> nat;

/// An empty queue holding at most `cap` events.
///
/// Calls `crossbeam_channel::bounded(cap)`, which creates an empty channel of
/// that capacity; it panics only for capacities too large to allocate, which
/// the bound of `requires` rules out.
#[verifier::external_body]
fn queue_bounded(cap: usize) -> (q: EventQueue)
    requires
        0 < cap <= 1024,
    ensures
        queued_events(q) == Seq::<InputEvent>::empty(),
        queue_capacity(q) == cap,
{
    let (tx, rx) = crossbeam_channel::bounded(cap);
    EventQueue { tx, rx }
}

/// Appends `e` unless the queue is full.
///
/// Calls `Sender::try_send`. It fails only when the channel is full or all
/// receivers are gone; the receiver lives in the same queue, so it fails
/// exactly when the queue holds `capacity` events, and then leaves it as it
/// was.
#[verifier::external_body]
fn queue_try_push(q: &mut EventQueue, e: InputEvent) -> (sent: bool)
    ensures
        queue_capacity(*final(q)) == queue_capacity(*old(q)),
        sent == (queued_events(*old(q)).len() < queue_capacity(*old(q))),
        sent ==> queued_events(*final(q)) == queued_events(*old(q)).push(e),
        !sent ==> queued_events(*final(q)) == queued_events(*old(q)),
{
    q.tx.try_send(e).is_ok()
}

/// Removes and returns the oldest event, if any.
///
/// Calls `Receiver::try_recv`, which takes the oldest message or reports an
/// empty channel (the sender lives in the same queue, so the channel is never
/// disconnected).
#[verifier::external_body]
fn queue_try_pop(q: &mut EventQueue) -> (e: Option<InputEvent>)
    ensures
        queue_capacity(*final(q)) == queue_capacity(*old(q)),
        queued_events(*old(q)).len() == 0 ==> e is None && queued_events(*final(q))
            == queued_events(*old(q)),
        queued_events(*old(q)).len() > 0 ==> e == Some(queued_events(*old(q))[0])
            && queued_events(*final(q)) == queued_events(*old(q)).drop_first(),
{
    q.rx.try_recv().ok()
}

/// The longest wait handed to the channel, in seconds (about a hundred
/// years). The monotonic clock counts seconds from boot in an `i64`, so a
/// deadline this far ahead never overflows.
pub const MAX_WAIT_SECS: u64 = 3_153_600_000;

/// The whole seconds of `d` (`Duration::as_secs`).
#[verifier::external_body]
fn duration_secs(d: std::time::Duration) -> u64 {
    d.as_secs()
}

/// The fractional part of `d` in nanoseconds (`Duration::subsec_nanos`),
/// documented to be less than one second.
#[verifier::external_body]
fn duration_subsec_nanos(d: std::time::Duration) -> (n: u32)
    ensures
        n < 1_000_000_000,
{
    d.subsec_nanos()
}

/// Removes and returns the oldest event, waiting up to `secs` seconds and
/// `nanos` nanoseconds for one.
///
/// Calls `Receiver::recv_timeout` with `Duration::new(secs, nanos)`. It
/// returns the oldest message at once when there is one; otherwise it waits
/// for a sender until the deadline `now + timeout`. The bound on `secs` keeps
/// that deadline from overflowing (where it would, the channel waits without
/// end). The only sender lives in the same queue, which the caller holds
/// exclusively, so no event can arrive during the wait and the call ends in a
/// timeout.
#[verifier::external_body]
fn queue_pop_timeout(q: &mut EventQueue, secs: u64, nanos: u32) -> (e: Option<InputEvent>)
    requires
        secs <= MAX_WAIT_SECS,
        nanos < 1_000_000_000,
    ensures
        queue_capacity(*final(q)) == queue_capacity(*old(q)),
        queued_events(*old(q)).len() == 0 ==> e is None && queued_events(*final(q))
            == queued_events(*old(q)),
        queued_events(*old(q)).len() > 0 ==> e == Some(queued_events(*old(q))[0])
            && queued_events(*final(q)) == queued_events(*old(q)).drop_first(),
{
    q.rx.recv_timeout(std::time::Duration::new(secs, nanos)).ok()
}

/// Capacity of the input event queue.
pub const INPUT_QUEUE_CAPACITY: usize = 1024;

/// A queue holding `pending`, with room for `cap` events, after `e` was
/// offered to it: `e` is appended unless the queue is full.
pub open spec fn offered(pending: Seq<InputEvent>, cap: nat, e: InputEvent) -> Seq<InputEvent> {
    if pending.len() < cap {
        pending.push(e)
    } else {
        pending
    }
}

/// The queue after the events of `es` were offered to it one after another.
pub open spec fn offered_all(pending: Seq<InputEvent>, cap: nat, es: Seq<InputEvent>) -> Seq<InputEvent>
    decreases es.len(),
{
    if es.len() == 0 {
        pending
    } else {
        offered_all(offered(pending, cap, es[0]), cap, es.drop_first())
    }
}

/// Events come out first in, first out: offering events one after another
/// to a queue with room for all of them queues them, in order, behind those
/// already waiting; since each receive takes the oldest event, they are then
/// received in the order they were injected. Once the queue is full, a
/// further event is dropped and the queue stays as it was.
pub proof fn lemma_events_fifo(pending: Seq<InputEvent>, cap: nat, es: Seq<InputEvent>, extra: InputEvent)
    requires
        pending.len() + es.len() <= cap,
    ensures
        offered_all(pending, cap, es) == pending + es,
        (pending + es).len() == cap ==> offered(pending + es, cap, extra) == pending + es,
    decreases es.len(),
{
    if es.len() > 0 {
        let next = pending.push(es[0]);
        lemma_events_fifo(next, cap, es.drop_first(), extra);
        assert(next + es.drop_first() =~= pending + es);
    } else {
        assert(pending + es =~= pending);
    }
}

/// What `k` successive `try_recv` calls return, starting from a queue
/// holding `pending`: the oldest event each time, or `None` once the queue
/// is empty (see the contract of `InputManager::try_recv`).
pub open spec fn received(pending: Seq<InputEvent>, k: nat) -> Seq<Option<InputEvent>>
    decreases k,
{
    if k == 0 {
        seq![]
    } else if pending.len() == 0 {
        seq![None] + received(pending, (k - 1) as nat)
    } else {
        seq![Some(pending[0])] + received(pending.drop_first(), (k - 1) as nat)
    }
}

proof fn lemma_received_all(es: Seq<InputEvent>)
    ensures
        received(es, es.len() + 1) == es.map_values(|e: InputEvent| Some(e)).push(None),
    decreases es.len(),
{
    if es.len() == 0 {
        assert(received(es, 0) == Seq::<Option<InputEvent>>::empty());
        assert(received(es, 1) =~= seq![None]);
        assert(es.map_values(|e: InputEvent| Some(e)).push(None) =~= seq![None]);
    } else {
        let rest = es.drop_first();
        lemma_received_all(rest);
        assert(received(es, es.len() + 1) == seq![Some(es[0])] + received(rest, rest.len() + 1));
        assert(es.map_values(|e: InputEvent| Some(e)).push(None) =~= seq![Some(es[0])]
            + rest.map_values(|e: InputEvent| Some(e)).push(None));
    }
}

/// Events injected into an empty queue with room for them all (`k` events,
/// `k` at most the capacity) are received in injection order by the next
/// `k` receives, and the receive after them finds the queue empty; with the
/// queue full, a further event is dropped.
pub proof fn lemma_injected_events_received_in_order(cap: nat, es: Seq<InputEvent>, extra: InputEvent)
    requires
        es.len() <= cap,
    ensures
        received(offered_all(Seq::empty(), cap, es), es.len() + 1) == es.map_values(|e: InputEvent| Some(e)).push(
            None,
        ),
        es.len() == cap ==> offered(offered_all(Seq::empty(), cap, es), cap, extra) == offered_all(
            Seq::empty(),
            cap,
            es,
        ),
{
    lemma_events_fifo(Seq::empty(), cap, es, extra);
    assert(Seq::<InputEvent>::empty() + es =~= es);
    lemma_received_all(es);
}

/// Central input event queue. The host-side UI injects events; the VMM or
/// device model consumes them. Events injected while the queue is full are
/// dropped.
pub struct InputManager {
    queue: EventQueue,
    display_width: u32,
    display_height: u32,
}

impl InputManager {
    /// The events waiting to be consumed, oldest first.
    pub closed spec fn pending(&self) -> Seq<InputEvent> {
        queued_events(self.queue)
    }

    /// The most events the queue holds at once.
    pub closed spec fn capacity(&self) -> nat {
        queue_capacity(self.queue)
    }

    /// The display size the manager was created for.
    pub closed spec fn display(&self) -> (u32, u32) {
        (self.display_width, self.display_height)
    }

    /// The queue after `e` was offered to it: appended, unless it was full.
    pub open spec fn after_inject(&self, e: InputEvent) -> Seq<InputEvent> {
        offered(self.pending(), self.capacity(), e)
    }

    /// Create a new input manager with a bounded queue of capacity 1024.
    pub fn new(display_width: u32, display_height: u32) -> (m: Self)
        ensures
            m.pending() == Seq::<InputEvent>::empty(),
            m.capacity() == INPUT_QUEUE_CAPACITY,
            m.display() == (display_width, display_height),
    {
        InputManager {
            queue: queue_bounded(INPUT_QUEUE_CAPACITY),
            display_width,
            display_height,
        }
    }

    fn inject(&mut self, e: InputEvent)
        ensures
            final(self).pending() == old(self).after_inject(e),
            final(self).capacity() == old(self).capacity(),
            final(self).display() == old(self).display(),
    {
        let _ = queue_try_push(&mut self.queue, e);
    }

    pub fn inject_mouse_down(&mut self, x: i32, y: i32, button: MouseButton)
        ensures
            final(self).pending() == old(self).after_inject(InputEvent::MouseDown { button, x, y }),
            final(self).capacity() == old(self).capacity(),
            final(self).display() == old(self).display(),
    {
        self.inject(InputEvent::MouseDown { button, x, y });
    }

    pub fn inject_mouse_up(&mut self, x: i32, y: i32, button: MouseButton)
        ensures
            final(self).pending() == old(self).after_inject(InputEvent::MouseUp { button, x, y }),
            final(self).capacity() == old(self).capacity(),
            final(self).display() == old(self).display(),
    {
        self.inject(InputEvent::MouseUp { button, x, y });
    }

    pub fn inject_mouse_move(&mut self, x: i32, y: i32)
        ensures
            final(self).pending() == old(self).after_inject(InputEvent::MouseMove { x, y }),
            final(self).capacity() == old(self).capacity(),
            final(self).display() == old(self).display(),
    {
        self.inject(InputEvent::MouseMove { x, y });
    }

    pub fn inject_key_down(&mut self, keycode: u32)
        ensures
            final(self).pending() == old(self).after_inject(InputEvent::KeyDown { keycode }),
            final(self).capacity() == old(self).capacity(),
            final(self).display() == old(self).display(),
    {
        self.inject(InputEvent::KeyDown { keycode });
    }

    pub fn inject_key_up(&mut self, keycode: u32)
        ensures
            final(self).pending() == old(self).after_inject(InputEvent::KeyUp { keycode }),
            final(self).capacity() == old(self).capacity(),
            final(self).display() == old(self).display(),
    {
        self.inject(InputEvent::KeyUp { keycode });
    }

    pub fn inject_touch_start(&mut self, tracking_id: u32, x: i32, y: i32)
        ensures
            final(self).pending() == old(self).after_inject(
                InputEvent::TouchStart { slot: tracking_id, x, y },
            ),
            final(self).capacity() == old(self).capacity(),
            final(self).display() == old(self).display(),
    {
        self.inject(InputEvent::TouchStart { slot: tracking_id, x, y });
    }

    pub fn inject_touch_move(&mut self, tracking_id: u32, x: i32, y: i32)
        ensures
            final(self).pending() == old(self).after_inject(
                InputEvent::TouchMove { slot: tracking_id, x, y },
            ),
            final(self).capacity() == old(self).capacity(),
            final(self).display() == old(self).display(),
    {
        self.inject(InputEvent::TouchMove { slot: tracking_id, x, y });
    }

    pub fn inject_touch_end(&mut self, tracking_id: u32)
        ensures
            final(self).pending() == old(self).after_inject(InputEvent::TouchEnd { slot: tracking_id }),
            final(self).capacity() == old(self).capacity(),
            final(self).display() == old(self).display(),
    {
        self.inject(InputEvent::TouchEnd { slot: tracking_id });
    }

    pub fn inject_android_button(&mut self, button: AndroidButton)
        ensures
            final(self).pending() == old(self).after_inject(InputEvent::AndroidButton(button)),
            final(self).capacity() == old(self).capacity(),
            final(self).display() == old(self).display(),
    {
        self.inject(InputEvent::AndroidButton(button));
    }

    /// Try to receive an event without blocking.
    pub fn try_recv(&mut self) -> (e: Option<InputEvent>)
        ensures
            final(self).capacity() == old(self).capacity(),
            final(self).display() == old(self).display(),
            old(self).pending().len() == 0 ==> e is None && final(self).pending()
                == old(self).pending(),
            old(self).pending().len() > 0 ==> e == Some(old(self).pending()[0])
                && final(self).pending() == old(self).pending().drop_first(),
    {
        queue_try_pop(&mut self.queue)
    }

    /// Receive an event with a timeout. A wait of more than `MAX_WAIT_SECS`
    /// seconds is cut to that many.
    pub fn recv_timeout(&mut self, timeout: std::time::Duration) -> (r: Result<InputEvent>)
        ensures
            final(self).capacity() == old(self).capacity(),
            final(self).display() == old(self).display(),
            old(self).pending().len() == 0 ==> final(self).pending() == old(self).pending() && (r
                matches Err(LiteDroidError::InputError(m)) && m@ == "channel recv timeout"@),
            old(self).pending().len() > 0 ==> r == Ok::<InputEvent, LiteDroidError>(
                old(self).pending()[0],
            ) && final(self).pending() == old(self).pending().drop_first(),
    {
        let secs = duration_secs(timeout);
        let nanos = duration_subsec_nanos(timeout);
        let wait_secs = if secs > MAX_WAIT_SECS {
            MAX_WAIT_SECS
        } else {
            secs
        };
        match queue_pop_timeout(&mut self.queue, wait_secs, nanos) {
            Some(e) => Ok(e),
            None => Err(LiteDroidError::InputError(String::from_str("channel recv timeout"))),
        }
    }

    pub fn display_width(&self) -> (w: u32)
        ensures
            w == self.display().0,
    {
        self.display_width
    }

    pub fn display_height(&self) -> (h: u32)
        ensures
            h == self.display().1,
    {
        self.display_height
    }
}

} // verus!
