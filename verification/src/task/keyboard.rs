use vstd::prelude::*;

use crate::vga_textmode::{
    st_move_left, st_move_right, st_scroll_down, st_scroll_up, st_write, st_write_byte, MarkState,
    Writer,
};

verus! {

// ===== The scancode queue =====

#[verifier::external_type_specification]
#[verifier::external_body]
#[verifier::reject_recursive_types(T)]
pub struct ExArrayQueue<T>(crossbeam_queue::ArrayQueue<T>);

/// What pushing a byte does to a bounded queue: the byte is appended when
/// there is room, and dropped — leaving the queue as it was — when there is
/// none; the second component reports which happened.
pub open spec fn spec_push(s: Seq<u8>, cap: nat, b: u8) -> (Seq<u8>, bool) {
    if s.len() < cap {
        (s.push(b), true)
    } else {
        (s, false)
    }
}

/// What popping does: the oldest byte comes out, or nothing when the queue
/// is empty.
pub open spec fn spec_pop(s: Seq<u8>) -> (Option<u8>, Seq<u8>) {
    if s.len() > 0 {
        (Some(s[0]), s.drop_first())
    } else {
        (None, s)
    }
}

/// The queue after a whole sequence of bytes is pushed, left to right.
pub open spec fn spec_push_seq(s: Seq<u8>, cap: nat, bs: Seq<u8>) -> Seq<u8>
    decreases bs.len(),
{
    if bs.len() <= 0 {
        s
    } else {
        spec_push(spec_push_seq(s, cap, bs.drop_last()), cap, bs.last()).0
    }
}

/// The first `k` bytes popping hands out, in order.
pub open spec fn spec_drain(s: Seq<u8>, k: nat) -> Seq<u8>
    decreases k,
{
    if k == 0 || s.len() == 0 {
        Seq::empty()
    } else {
        seq![s[0]] + spec_drain(s.drop_first(), (k - 1) as nat)
    }
}

/// As long as the pending count never passes the capacity, pushes lose
/// nothing: the queue ends up holding what it held, then every pushed byte,
/// in push order.
pub proof fn lemma_push_seq_lossless(init: Seq<u8>, bs: Seq<u8>, cap: nat)
    requires
        init.len() + bs.len() <= cap,
    ensures
        spec_push_seq(init, cap, bs) == init + bs,
    decreases bs.len(),
{
    if bs.len() == 0 {
        assert(init + bs =~= init);
    } else {
        lemma_push_seq_lossless(init, bs.drop_last(), cap);
        assert((init + bs.drop_last()).push(bs.last()) =~= init + bs);
    }
}

/// Popping a queue dry hands out exactly its contents, oldest first.
pub proof fn lemma_drain_all(s: Seq<u8>)
    ensures
        spec_drain(s, s.len()) == s,
    decreases s.len(),
{
    if s.len() > 0 {
        lemma_drain_all(s.drop_first());
        assert(seq![s[0]] + s.drop_first() =~= s);
    }
}

/// The consumer observes bytes in push order with zero loss: pushing `bs`
/// while the total pending count stays within the capacity and then popping
/// everything yields the old contents followed by `bs`.
pub proof fn lemma_fifo_order(init: Seq<u8>, bs: Seq<u8>, cap: nat)
    requires
        init.len() + bs.len() <= cap,
    ensures
        spec_drain(spec_push_seq(init, cap, bs), init.len() + bs.len()) == init + bs,
{
    lemma_push_seq_lossless(init, bs, cap);
    lemma_drain_all(init + bs);
}

/// A push on a full queue leaves its contents — and so its fullness —
/// exactly as they were, and signals the drop instead of failing.
pub proof fn lemma_push_full(s: Seq<u8>, cap: nat, b: u8)
    requires
        s.len() == cap,
    ensures
        spec_push(s, cap, b) == (s, false),
{
}

/// A bounded FIFO byte queue that a keyboard interrupt handler can push into
/// without blocking or allocating; a full queue drops the byte.
pub struct ByteQueue {
    inner: crossbeam_queue::ArrayQueue<u8>,
}

/// The bytes the queue holds, oldest first.
pub uninterp spec fn queue_contents(q: &ByteQueue) -> Seq<u8>;

/// The fixed number of bytes the queue was built to hold.
pub uninterp spec fn queue_capacity(q: &ByteQueue) -> nat;

impl ByteQueue {
    /// The bytes waiting in the queue, oldest first.
    pub open spec fn contents(&self) -> Seq<u8> {
        queue_contents(self)
    }

    /// The number of bytes the queue can hold at once.
    pub open spec fn cap(&self) -> nat {
        queue_capacity(self)
    }

    /// Relies on `crossbeam_queue::ArrayQueue::new`: a fresh queue of the
    /// given capacity holds nothing. A zero capacity is refused because the
    /// call would panic on it.
    #[verifier::external_body]
    pub fn new(cap: usize) -> (q: ByteQueue)
        requires
            cap >= 1,
        ensures
            queue_contents(&q) == Seq::<u8>::empty(),
            queue_capacity(&q) == cap,
    {
        ByteQueue { inner: crossbeam_queue::ArrayQueue::new(cap) }
    }

    /// Relies on `crossbeam_queue::ArrayQueue::push`: the byte is appended
    /// when the queue has room and returned back (here: dropped) when it is
    /// full; the queue never grows past its capacity and the call never
    /// blocks.
    #[verifier::external_body]
    pub fn push(&mut self, b: u8) -> (ok: bool)
        ensures
            queue_capacity(final(self)) == queue_capacity(old(self)),
            (queue_contents(final(self)), ok) == spec_push(
                queue_contents(old(self)),
                queue_capacity(old(self)),
                b,
            ),
    {
        self.inner.push(b).is_ok()
    }

    /// Relies on `crossbeam_queue::ArrayQueue::pop`: the oldest byte comes
    /// out, or `None` when the queue is empty.
    #[verifier::external_body]
    pub fn pop(&mut self) -> (b: Option<u8>)
        ensures
            queue_capacity(final(self)) == queue_capacity(old(self)),
            (b, queue_contents(final(self))) == spec_pop(queue_contents(old(self))),
    {
        self.inner.pop()
    }

}

// ===== Wake registration =====

#[verifier::external_type_specification]
#[verifier::external_body]
pub struct ExWaker(core::task::Waker);

/// Relies on `core::task::Waker::wake`: waking consumes the waker and has no
/// result to speak of; the suspended task it names becomes ready to be
/// polled again.
pub assume_specification[ core::task::Waker::wake ](w: core::task::Waker);

/// Holds at most one pending wake target. Registering a new target replaces
/// any earlier one; waking invokes and clears the target, and does nothing
/// when none is registered.
pub struct WakeSlot {
    target: Option<core::task::Waker>,
}

impl WakeSlot {
    /// Whether a wake target is currently registered.
    pub closed spec fn registered(&self) -> bool {
        self.target is Some
    }

    /// An empty slot.
    pub fn new() -> (slot: WakeSlot)
        ensures
            !slot.registered(),
    {
        WakeSlot { target: None }
    }

    /// Registers `w` as the one wake target, replacing any earlier one.
    pub fn register(&mut self, w: core::task::Waker)
        ensures
            final(self).registered(),
    {
        self.target = Some(w);
    }

    /// Invokes and clears the registered target; a no-op if none is
    /// registered.
    pub fn wake(&mut self)
        ensures
            !final(self).registered(),
    {
        match self.target.take() {
            Some(w) => w.wake(),
            None => {},
        }
    }

    /// Drops the registered target, if any, without invoking it.
    pub fn clear(&mut self)
        ensures
            !final(self).registered(),
    {
        self.target = None;
    }
}

// ===== The scancode stream =====

/// How many scancodes may wait between the interrupt handler and the
/// consumer before further ones are dropped.
pub const SCANCODE_QUEUE_CAPACITY: usize = 100;

/// What one poll of the scancode stream reports: a byte, or the request to
/// be suspended until a wake.
#[derive(Debug, Clone, Copy, PartialEq, Eq, Structural)]
pub enum PollResult {
    Ready(u8),
    Pending,
}

/// The pull side of the scancode pipeline: owns the queue the interrupt
/// handler feeds and the slot through which it wakes the consumer. Owning
/// the queue makes a second stream over it impossible by construction.
pub struct ScancodeStream {
    queue: ByteQueue,
    waker: WakeSlot,
}

impl ScancodeStream {
    /// The scancodes waiting to be consumed, oldest first.
    pub closed spec fn pending(&self) -> Seq<u8> {
        self.queue.contents()
    }

    /// The queue's fixed capacity.
    pub closed spec fn cap(&self) -> nat {
        self.queue.cap()
    }

    /// Whether a consumer is registered to be woken.
    pub closed spec fn wake_registered(&self) -> bool {
        self.waker.registered()
    }

    /// A fresh stream over an empty queue of the fixed capacity, with no
    /// consumer registered.
    pub fn new() -> (stream: ScancodeStream)
        ensures
            stream.pending() == Seq::<u8>::empty(),
            stream.cap() == SCANCODE_QUEUE_CAPACITY,
            !stream.wake_registered(),
    {
        ScancodeStream { queue: ByteQueue::new(SCANCODE_QUEUE_CAPACITY), waker: WakeSlot::new() }
    }

    /// One poll. A waiting byte comes out at once; on an empty queue the
    /// poll registers `w`, checks the queue once more to close the race with
    /// a concurrent push, and reports `Pending`, to be retried after a wake.
    pub fn poll(&mut self, w: core::task::Waker) -> (r: PollResult)
        ensures
            final(self).cap() == old(self).cap(),
            old(self).pending().len() > 0 ==> {
                &&& r == PollResult::Ready(old(self).pending()[0])
                &&& final(self).pending() == old(self).pending().drop_first()
                &&& final(self).wake_registered() == old(self).wake_registered()
            },
            old(self).pending().len() == 0 ==> {
                &&& r == PollResult::Pending
                &&& final(self).pending() == old(self).pending()
                &&& final(self).wake_registered()
            },
    {
        match self.queue.pop() {
            Some(b) => {
                return PollResult::Ready(b);
            },
            None => {},
        }
        self.waker.register(w);
        match self.queue.pop() {
            Some(b) => {
                self.waker.clear();
                PollResult::Ready(b)
            },
            None => PollResult::Pending,
        }
    }
}

/// The producer side, called from the keyboard interrupt handler: pushes one
/// scancode and, when the push took, wakes the registered consumer. A byte
/// that arrives on a full queue is dropped, which the result reports so that
/// a diagnostic can go out on a channel of the caller's choosing; this path
/// itself never blocks and never allocates.
pub fn add_scancode(stream: &mut ScancodeStream, scancode: u8) -> (accepted: bool)
    ensures
        final(stream).cap() == old(stream).cap(),
        (final(stream).pending(), accepted) == spec_push(
            old(stream).pending(),
            old(stream).cap(),
            scancode,
        ),
        accepted ==> !final(stream).wake_registered(),
        !accepted ==> final(stream).wake_registered() == old(stream).wake_registered(),
{
    if stream.queue.push(scancode) {
        stream.waker.wake();
        true
    } else {
        false
    }
}

// ===== The key decoder =====

/// One decoded logical input: a character, one of the symbolic keys the
/// console reacts to, or some other raw key carried by its name.
#[derive(Debug, PartialEq, Eq)]
pub enum KeyEvent {
    Character(char),
    ArrowUp,
    ArrowDown,
    ArrowLeft,
    ArrowRight,
    Backspace,
    Other(String),
}

/// The stateful scancode-to-key-event translation, consumed as a capability:
/// it may swallow several bytes of a multi-byte sequence before an event
/// comes out, and what comes out depends on that internal state. The held
/// decoder type carries outside trait bounds that cannot be declared here,
/// so the whole struct stands behind `external_body`.
#[verifier::external_body]
pub struct KeyDecoder {
    inner: pc_keyboard::PS2Keyboard<pc_keyboard::layouts::Us104Key, pc_keyboard::ScancodeSet1>,
}

impl KeyDecoder {
    /// Relies on `pc_keyboard::PS2Keyboard::new`: a fresh decoder for the
    /// US-104 layout under scancode set 1, with control keys left alone.
    #[verifier::external_body]
    pub fn new() -> (d: KeyDecoder)
    {
        KeyDecoder {
            inner: pc_keyboard::PS2Keyboard::new(
                pc_keyboard::ScancodeSet1::new(),
                pc_keyboard::layouts::Us104Key,
                pc_keyboard::HandleControl::Ignore,
            ),
        }
    }

    /// Relies on `pc_keyboard::PS2Keyboard::add_byte` and
    /// `process_keyevent`: feeds one raw byte to the decoder and hands back
    /// the completed key event, if this byte completed one. The result
    /// depends on the decoder's internal state, so nothing is promised of
    /// it; whoever consumes the event must cope with every value.
    #[verifier::external_body]
    pub fn decode(&mut self, scancode: u8) -> (ev: Option<KeyEvent>)
    {
        let decoded = match self.inner.add_byte(scancode) {
            Ok(Some(ev)) => self.inner.process_keyevent(ev),
            _ => None,
        }?;
        Some(match decoded {
            pc_keyboard::DecodedKey::Unicode(c) => KeyEvent::Character(c),
            pc_keyboard::DecodedKey::RawKey(pc_keyboard::KeyCode::ArrowUp) => KeyEvent::ArrowUp,
            pc_keyboard::DecodedKey::RawKey(pc_keyboard::KeyCode::ArrowDown) => KeyEvent::ArrowDown,
            pc_keyboard::DecodedKey::RawKey(pc_keyboard::KeyCode::ArrowLeft) => KeyEvent::ArrowLeft,
            pc_keyboard::DecodedKey::RawKey(pc_keyboard::KeyCode::ArrowRight) => KeyEvent::ArrowRight,
            pc_keyboard::DecodedKey::RawKey(pc_keyboard::KeyCode::Backspace) => KeyEvent::Backspace,
            pc_keyboard::DecodedKey::RawKey(k) => KeyEvent::Other(format!("{:?}", k)),
        })
    }
}

// ===== The input dispatcher =====

/// The shared flag through which another part of the system asks the
/// dispatcher to forget how many characters the current input session has
/// emitted.
pub struct KSBool {
    ks: bool,
}

impl KSBool {
    /// The flag's position.
    pub closed spec fn value(&self) -> bool {
        self.ks
    }

    /// A flag in the given position.
    pub fn new(val: bool) -> (k: KSBool)
        ensures
            k.value() == val,
    {
        KSBool { ks: val }
    }

    /// Puts the flag in the given position.
    pub fn set(&mut self, val: bool)
        ensures
            final(self).value() == val,
    {
        self.ks = val;
    }

    /// Reads the flag.
    pub fn get(&self) -> (val: bool)
        ensures
            val == self.value(),
    {
        self.ks
    }
}

/// The byte the display writer is handed for a typed character: the
/// character itself when it fits in a byte, the placeholder otherwise (the
/// writer's own filter then decides how the byte is shown).
pub open spec fn spec_char_byte(c: char) -> u8 {
    if (c as u32) < 256 {
        c as u8
    } else {
        0xfe
    }
}

/// Routes decoded key events to the display: characters are written and
/// counted, arrow keys move the viewport or the cursor, and backspace erases
/// only characters of the current input session, counted since the last
/// reset.
pub struct InputDispatcher {
    keystrokes: u64,
}

impl InputDispatcher {
    /// How many characters the current input session has emitted.
    pub closed spec fn count(&self) -> u64 {
        self.keystrokes
    }

    /// A dispatcher with nothing typed yet.
    pub fn new() -> (d: InputDispatcher)
        ensures
            d.count() == 0,
    {
        InputDispatcher { keystrokes: 0 }
    }

    /// The keystroke count, for the outside world.
    pub fn keystrokes(&self) -> (n: u64)
        ensures
            n == self.count(),
    {
        self.keystrokes
    }

    /// Honors a pending reset request: when the flag is raised, the
    /// keystroke count returns to zero and the flag is lowered.
    pub fn apply_reset(&mut self, flag: &mut KSBool)
        ensures
            final(self).count() == if old(flag).value() {
                0u64
            } else {
                old(self).count()
            },
            !final(flag).value(),
    {
        if flag.get() {
            self.keystrokes = 0;
            flag.set(false);
        }
    }

    /// Handles one decoded key event. A character goes to the writer under
    /// the current attribute and is counted; arrows scroll or move with
    /// wrap; backspace erases one cell only while the session's count is
    /// positive; any other raw key has its name written and is counted.
    pub fn handle_key_event(&mut self, writer: &mut Writer, event: KeyEvent)
        requires
            old(writer).wf(),
        ensures
            final(writer).wf(),
            match event {
                KeyEvent::Character(c) => {
                    &&& final(writer)@ == st_write_byte(
                        old(writer)@,
                        spec_char_byte(c),
                        old(writer)@.attr,
                    )
                    &&& final(self).count() == sat_inc(old(self).count())
                },
                KeyEvent::ArrowUp => {
                    &&& final(writer)@ == st_scroll_up(old(writer)@).0
                    &&& final(self).count() == old(self).count()
                },
                KeyEvent::ArrowDown => {
                    &&& final(writer)@ == st_scroll_down(old(writer)@)
                    &&& final(self).count() == old(self).count()
                },
                KeyEvent::ArrowLeft => {
                    &&& final(writer)@ == st_move_left(old(writer)@, true)
                    &&& final(self).count() == old(self).count()
                },
                KeyEvent::ArrowRight => {
                    &&& final(writer)@ == st_move_right(old(writer)@, true)
                    &&& final(self).count() == old(self).count()
                },
                KeyEvent::Backspace => if old(self).count() > 0 {
                    &&& final(writer)@ == st_write_byte(old(writer)@, 8, old(writer)@.attr)
                    &&& final(self).count() == old(self).count() - 1
                } else {
                    &&& final(writer)@ == old(writer)@
                    &&& final(self).count() == 0
                },
                KeyEvent::Other(name) => {
                    &&& final(writer)@ == st_write(
                        old(writer)@,
                        MarkState::Plain,
                        vstd::utf8::encode_utf8(name@),
                    ).0
                    &&& final(self).count() == sat_inc(old(self).count())
                },
            },
    {
        match event {
            KeyEvent::Character(c) => {
                let u = c as u32;
                let b: u8 = if u < 256 {
                    u as u8
                } else {
                    0xfe
                };
                writer.write_byte(b);
                if self.keystrokes < u64::MAX {
                    self.keystrokes += 1;
                }
            },
            KeyEvent::ArrowUp => {
                let _ = writer.move_screen_up();
            },
            KeyEvent::ArrowDown => {
                writer.move_screen_down();
            },
            KeyEvent::ArrowLeft => {
                writer.move_cursor_left(true);
            },
            KeyEvent::ArrowRight => {
                writer.move_cursor_right(true);
            },
            KeyEvent::Backspace => {
                if self.keystrokes > 0 {
                    writer.write_byte(8);
                    self.keystrokes -= 1;
                }
            },
            KeyEvent::Other(name) => {
                writer.write_string(name.as_str());
                if self.keystrokes < u64::MAX {
                    self.keystrokes += 1;
                }
            },
        }
    }
}

/// A count one higher, until the counter's type runs out.
pub open spec fn sat_inc(n: u64) -> u64 {
    if n < u64::MAX {
        (n + 1) as u64
    } else {
        n
    }
}

/// One turn of the keypress loop, after the stream handed out a scancode:
/// honors a pending reset, feeds the byte to the decoder and routes the
/// completed event, if any, to the display. What the event is depends on the
/// decoder's internal state; whatever it is, the writer stays well-formed
/// and a raised reset flag is honored before the event counts.
pub fn handle_scancode(
    decoder: &mut KeyDecoder,
    dispatcher: &mut InputDispatcher,
    writer: &mut Writer,
    reset: &mut KSBool,
    scancode: u8,
) -> (fired: bool)
    requires
        old(writer).wf(),
    ensures
        final(writer).wf(),
        !final(reset).value(),
        !fired ==> final(writer)@ == old(writer)@ && final(dispatcher).count() == (
        if old(reset).value() {
            0u64
        } else {
            old(dispatcher).count()
        }),
{
    dispatcher.apply_reset(reset);
    match decoder.decode(scancode) {
        Some(event) => {
            dispatcher.handle_key_event(writer, event);
            true
        },
        None => false,
    }
}

} // verus!
