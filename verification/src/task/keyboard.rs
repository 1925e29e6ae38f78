//! Turning keyboard scancodes into characters.

use pc_keyboard::layouts::Us104Key;
use pc_keyboard::DecodedKey;
use pc_keyboard::Error;
use pc_keyboard::HandleControl;
use pc_keyboard::KeyCode;
use pc_keyboard::KeyEvent;
use pc_keyboard::ScancodeSet1;
use vstd::prelude::*;

verus! {

#[verifier::external_type_specification]
#[verifier::external_body]
pub struct ExKeyEvent(KeyEvent);

#[verifier::external_type_specification]
#[verifier::external_body]
pub struct ExError(Error);

#[verifier::external_type_specification]
#[verifier::external_body]
pub struct ExKeyCode(KeyCode);

#[verifier::external_type_specification]
pub struct ExDecodedKey(DecodedKey);

/// A keyboard decoder for scancode set 1 and the US layout. It remembers
/// the prefix bytes and the modifier keys it has seen.
#[verifier::external_body]
pub struct Decoder {
    inner: pc_keyboard::Keyboard<Us104Key, ScancodeSet1>,
}

/// The scancodes a decoder has been fed since it was made, oldest first.
pub uninterp spec fn scancodes(decoder: Decoder) -> Seq<u8>;

/// The key events a decoder has mapped since it was made, oldest first.
pub uninterp spec fn events(decoder: Decoder) -> Seq<KeyEvent>;

/// What a decoder that has been fed `before` makes of one more scancode: a
/// key event, nothing yet, or an error.
pub uninterp spec fn event_of(before: Seq<u8>, scancode: u8) -> Result<Option<KeyEvent>, Error>;

/// The key that a decoder that has mapped `before` maps one more key event
/// to, if it maps it to any.
pub uninterp spec fn key_of(before: Seq<KeyEvent>, event: KeyEvent) -> Option<DecodedKey>;

/// `Keyboard::new` with `ScancodeSet1::new` and `Us104Key`: a decoder that
/// has seen nothing, and that reports the control keys as keys of their own.
#[verifier::external_body]
fn keyboard_new() -> (decoder: Decoder)
    ensures
        scancodes(decoder) == Seq::<u8>::empty(),
        events(decoder) == Seq::<KeyEvent>::empty(),
{
    Decoder { inner: pc_keyboard::Keyboard::new(ScancodeSet1::new(), Us104Key, HandleControl::Ignore) }
}

/// `Keyboard::add_byte`: feeds one scancode to the decoder. The decoder
/// keeps track of prefix bytes only, so what comes back depends on the
/// scancodes fed so far and on nothing else. Mapping key events is not
/// affected.
#[verifier::external_body]
fn keyboard_add_byte(decoder: &mut Decoder, byte: u8) -> (event: Result<Option<KeyEvent>, Error>)
    ensures
        event == event_of(scancodes(*old(decoder)), byte),
        scancodes(*final(decoder)) == scancodes(*old(decoder)).push(byte),
        events(*final(decoder)) == events(*old(decoder)),
{
    decoder.inner.add_byte(byte)
}

/// `Keyboard::process_keyevent`: maps a key event to a decoded key. The
/// decoder keeps track of the modifier keys among the events it has mapped,
/// so what comes back depends on those events and on nothing else. Feeding
/// scancodes is not affected.
#[verifier::external_body]
fn keyboard_process_keyevent(decoder: &mut Decoder, event: KeyEvent) -> (key: Option<DecodedKey>)
    ensures
        key == key_of(events(*old(decoder)), event),
        events(*final(decoder)) == events(*old(decoder)).push(event),
        scancodes(*final(decoder)) == scancodes(*old(decoder)),
{
    decoder.inner.process_keyevent(event)
}

/// The key a scancode completes, for a decoder that has been fed and has
/// mapped what is given. Key releases, prefix bytes and unknown scancodes
/// complete none.
pub open spec fn decoded(fed: Seq<u8>, mapped: Seq<KeyEvent>, scancode: u8) -> Option<DecodedKey> {
    match event_of(fed, scancode) {
        Ok(Some(event)) => key_of(mapped, event),
        _ => None,
    }
}

/// The key events a decoder has mapped after one more scancode.
pub open spec fn mapped_after(fed: Seq<u8>, mapped: Seq<KeyEvent>, scancode: u8) -> Seq<KeyEvent> {
    match event_of(fed, scancode) {
        Ok(Some(event)) => mapped.push(event),
        _ => mapped,
    }
}

/// The character a decoded key stands for; a key without one gives none.
pub open spec fn character_of(key: Option<DecodedKey>) -> Option<char> {
    match key {
        Some(DecodedKey::Unicode(c)) => Some(c),
        _ => None,
    }
}

/// The character a decoded key stands for.
pub fn character(key: Option<DecodedKey>) -> (c: Option<char>)
    ensures
        c == character_of(key),
{
    match key {
        Some(DecodedKey::Unicode(c)) => Some(c),
        _ => None,
    }
}

impl Decoder {
    /// A decoder that has seen nothing.
    pub fn new() -> (decoder: Self)
        ensures
            scancodes(decoder) == Seq::<u8>::empty(),
            events(decoder) == Seq::<KeyEvent>::empty(),
    {
        keyboard_new()
    }

    /// Feeds one scancode and returns the key it completes, if it completes
    /// one.
    pub fn decode(&mut self, scancode: u8) -> (key: Option<DecodedKey>)
        ensures
            key == decoded(scancodes(*old(self)), events(*old(self)), scancode),
            scancodes(*final(self)) == scancodes(*old(self)).push(scancode),
            events(*final(self)) == mapped_after(
                scancodes(*old(self)),
                events(*old(self)),
                scancode,
            ),
    {
        match keyboard_add_byte(self, scancode) {
            Ok(Some(event)) => keyboard_process_keyevent(self, event),
            _ => None,
        }
    }
}

} // verus!
