use std::sync::Arc;
use std::task::{Wake, Waker};

use frame_os::task::keyboard::{
    add_scancode, ByteQueue, InputDispatcher, KSBool, KeyDecoder, KeyEvent, PollResult,
    ScancodeStream,
};
use frame_os::vga_buffer::Color;
use frame_os::vga_textmode::Writer;

struct CountingWake {
    count: std::sync::atomic::AtomicUsize,
}

impl Wake for CountingWake {
    fn wake(self: Arc<Self>) {
        self.count.fetch_add(1, std::sync::atomic::Ordering::SeqCst);
    }
}

fn test_waker() -> (Arc<CountingWake>, Waker) {
    let target = Arc::new(CountingWake { count: std::sync::atomic::AtomicUsize::new(0) });
    let waker = Waker::from(target.clone());
    (target, waker)
}

#[test]
fn queue_is_fifo_and_lossless() {
    let mut q = ByteQueue::new(10);
    for b in [3u8, 1, 4, 1, 5, 9, 2, 6] {
        assert!(q.push(b));
    }
    let mut out = Vec::new();
    while let Some(b) = q.pop() {
        out.push(b);
    }
    assert_eq!(out, vec![3u8, 1, 4, 1, 5, 9, 2, 6]);
}

#[test]
fn queue_full_push_changes_nothing() {
    let mut q = ByteQueue::new(2);
    assert!(q.push(10));
    assert!(q.push(20));
    // the queue is full: the push is refused, nothing panics
    assert!(!q.push(30));
    // and the contents are exactly as they were
    assert_eq!(q.pop(), Some(10));
    assert_eq!(q.pop(), Some(20));
    assert_eq!(q.pop(), None);
}

#[test]
fn stream_poll_fast_path() {
    let mut stream = ScancodeStream::new();
    let (target, waker) = test_waker();
    assert!(add_scancode(&mut stream, 0x1e));
    assert!(add_scancode(&mut stream, 0x9e));
    assert_eq!(stream.poll(waker.clone()), PollResult::Ready(0x1e));
    assert_eq!(stream.poll(waker), PollResult::Ready(0x9e));
    // no consumer was suspended, so nothing was woken by those polls
    assert_eq!(target.count.load(std::sync::atomic::Ordering::SeqCst), 0);
}

#[test]
fn stream_poll_registers_and_push_wakes() {
    let mut stream = ScancodeStream::new();
    let (target, waker) = test_waker();
    assert_eq!(stream.poll(waker), PollResult::Pending);
    assert_eq!(target.count.load(std::sync::atomic::Ordering::SeqCst), 0);
    // a successful push wakes the registered consumer exactly once
    assert!(add_scancode(&mut stream, 42));
    assert_eq!(target.count.load(std::sync::atomic::Ordering::SeqCst), 1);
    let (_, waker2) = test_waker();
    assert_eq!(stream.poll(waker2), PollResult::Ready(42));
}

#[test]
fn producer_drops_on_full_queue() {
    let mut stream = ScancodeStream::new();
    for i in 0..100u8 {
        assert!(add_scancode(&mut stream, i));
    }
    // the queue holds its 100 bytes: the next one is dropped, not queued
    assert!(!add_scancode(&mut stream, 200));
    let (_, waker) = test_waker();
    assert_eq!(stream.poll(waker), PollResult::Ready(0));
}

#[test]
fn decoder_translates_a_key_press() {
    let mut d = KeyDecoder::new();
    // scancode 0x1e is the press of the A key in scancode set 1
    let ev = d.decode(0x1e);
    assert_eq!(ev, Some(KeyEvent::Character('a')));
    // its release ends the press without a new character
    let ev = d.decode(0x9e);
    assert_eq!(ev, None);
}

#[test]
fn decoder_translates_an_arrow() {
    let mut d = KeyDecoder::new();
    // extended scancode 0xe0 0x48 is arrow-up in scancode set 1
    assert_eq!(d.decode(0xe0), None);
    assert_eq!(d.decode(0x48), Some(KeyEvent::ArrowUp));
}

#[test]
fn dispatcher_writes_and_counts_characters() {
    let mut d = InputDispatcher::new();
    let mut w = Writer::new();
    d.handle_key_event(&mut w, KeyEvent::Character('h'));
    d.handle_key_event(&mut w, KeyEvent::Character('i'));
    assert_eq!(d.keystrokes(), 2);
    assert_eq!(w.char_at(0, 0).ascii_character, b'h');
    assert_eq!(w.char_at(0, 1).ascii_character, b'i');
    assert_eq!(w.cursor_col(), 2);
}

#[test]
fn dispatcher_backspace_is_bounded_by_keystrokes() {
    let mut d = InputDispatcher::new();
    let mut w = Writer::new();
    w.write_string("> ");
    // nothing typed yet: backspace may not erase the prompt
    d.handle_key_event(&mut w, KeyEvent::Backspace);
    assert_eq!(w.char_at(0, 0).ascii_character, b'>');
    assert_eq!(w.cursor_col(), 2);
    d.handle_key_event(&mut w, KeyEvent::Character('x'));
    assert_eq!(d.keystrokes(), 1);
    d.handle_key_event(&mut w, KeyEvent::Backspace);
    assert_eq!(d.keystrokes(), 0);
    assert_eq!(w.char_at(0, 2).ascii_character, b' ');
    assert_eq!(w.cursor_col(), 2);
    // and the session is spent: another backspace does nothing
    d.handle_key_event(&mut w, KeyEvent::Backspace);
    assert_eq!(w.cursor_col(), 2);
}

#[test]
fn dispatcher_routes_navigation_keys() {
    let mut d = InputDispatcher::new();
    let mut w = Writer::new();
    d.handle_key_event(&mut w, KeyEvent::ArrowRight);
    assert_eq!(w.cursor_col(), 1);
    d.handle_key_event(&mut w, KeyEvent::ArrowLeft);
    assert_eq!(w.cursor_col(), 0);
    d.handle_key_event(&mut w, KeyEvent::ArrowDown);
    assert_eq!(w.cursor_row(), 1);
    d.handle_key_event(&mut w, KeyEvent::ArrowUp);
    assert_eq!(w.cursor_row(), 0);
    assert_eq!(d.keystrokes(), 0);
}

#[test]
fn dispatcher_writes_names_of_other_keys() {
    let mut d = InputDispatcher::new();
    let mut w = Writer::new();
    d.handle_key_event(&mut w, KeyEvent::Other(String::from("F1")));
    assert_eq!(w.char_at(0, 0).ascii_character, b'F');
    assert_eq!(w.char_at(0, 1).ascii_character, b'1');
    assert_eq!(d.keystrokes(), 1);
}

#[test]
fn reset_flag_zeroes_the_count_once() {
    let mut d = InputDispatcher::new();
    let mut w = Writer::new();
    d.handle_key_event(&mut w, KeyEvent::Character('a'));
    d.handle_key_event(&mut w, KeyEvent::Character('b'));
    assert_eq!(d.keystrokes(), 2);
    let mut flag = KSBool::new(true);
    d.apply_reset(&mut flag);
    assert_eq!(d.keystrokes(), 0);
    assert!(!flag.get());
    // with the flag lowered, a later check changes nothing
    d.handle_key_event(&mut w, KeyEvent::Character('c'));
    d.apply_reset(&mut flag);
    assert_eq!(d.keystrokes(), 1);
}

#[test]
fn ksbool_holds_its_value() {
    let mut k = KSBool::new(false);
    assert!(!k.get());
    k.set(true);
    assert!(k.get());
}

#[test]
fn handle_scancode_end_to_end() {
    let mut decoder = KeyDecoder::new();
    let mut dispatcher = InputDispatcher::new();
    let mut writer = Writer::new();
    let mut reset = KSBool::new(false);
    // press and release A: one character lands on the display
    assert!(frame_os::task::keyboard::handle_scancode(
        &mut decoder,
        &mut dispatcher,
        &mut writer,
        &mut reset,
        0x1e,
    ));
    assert!(!frame_os::task::keyboard::handle_scancode(
        &mut decoder,
        &mut dispatcher,
        &mut writer,
        &mut reset,
        0x9e,
    ));
    assert_eq!(writer.char_at(0, 0).ascii_character, b'a');
    assert_eq!(dispatcher.keystrokes(), 1);
    let (fg, _) = writer.colors();
    assert_eq!(fg, Color::White);
}
