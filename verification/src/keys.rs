//! Synthetic key-event synthesis.
//!
//! One line of text becomes a sequence of key-down/key-up pairs: each space is
//! delivered through the space key, each uppercase letter is bracketed by a
//! shift press and release, every other character is injected as a Unicode
//! unit, and the line is closed by a single Enter press and release.  The
//! front end injects the events in order, pausing `KEY_DELAY_MS` after each
//! character and after the Enter.

use vstd::prelude::*;

verus! {

/// Pacing delay after each delivered character and after the closing Enter,
/// in milliseconds.
pub const KEY_DELAY_MS: u64 = 50;

/// A key that can appear in a synthetic event.
#[derive(Clone, Copy, PartialEq, Eq, Structural, Debug)]
pub enum Key {
    /// A literal Unicode character, injected as a Unicode unit.
    Unicode(char),
    /// The space bar.
    Space,
    /// The Enter key that closes a line.
    Enter,
    /// The shift modifier bracketing an uppercase letter.
    Shift,
}

/// One synthetic input event.
#[derive(Clone, Copy, PartialEq, Eq, Structural, Debug)]
pub enum KeyEvent {
    Down(Key),
    Up(Key),
}

/// Whether the platform classifies a character as uppercase.
pub uninterp spec fn is_upper_of(c: char) -> bool;

/// Relies on char::is_uppercase: whether a character is uppercase depends on
/// the character alone (a fixed Unicode property).
#[verifier::external_body]
fn char_is_uppercase(c: char) -> (r: bool)
    ensures
        r == is_upper_of(c),
{
    c.is_uppercase()
}

/// The key a character is delivered through.
pub open spec fn key_of(c: char) -> Key {
    if c == ' ' {
        Key::Space
    } else {
        Key::Unicode(c)
    }
}

/// The events that deliver one character.
pub open spec fn char_key_events(c: char) -> Seq<KeyEvent> {
    if c == ' ' {
        seq![KeyEvent::Down(Key::Space), KeyEvent::Up(Key::Space)]
    } else if is_upper_of(c) {
        seq![
            KeyEvent::Down(Key::Shift),
            KeyEvent::Down(Key::Unicode(c)),
            KeyEvent::Up(Key::Unicode(c)),
            KeyEvent::Up(Key::Shift),
        ]
    } else {
        seq![KeyEvent::Down(Key::Unicode(c)), KeyEvent::Up(Key::Unicode(c))]
    }
}

/// The events that close a line.
pub open spec fn enter_key_events() -> Seq<KeyEvent> {
    seq![KeyEvent::Down(Key::Enter), KeyEvent::Up(Key::Enter)]
}

/// The events that deliver a whole line: each character in order, then Enter.
pub open spec fn line_key_events(line: Seq<char>) -> Seq<KeyEvent>
    decreases line.len(),
{
    if line.len() == 0 {
        enter_key_events()
    } else {
        char_key_events(line[0]) + line_key_events(line.drop_first())
    }
}

/// The non-modifier keys pressed by a sequence of events, in order: what the
/// target observes as typed input (shift presses are modifiers, not input).
pub open spec fn presses(evs: Seq<KeyEvent>) -> Seq<Key>
    decreases evs.len(),
{
    if evs.len() == 0 {
        Seq::empty()
    } else {
        let rest = presses(evs.drop_first());
        match evs[0] {
            KeyEvent::Down(Key::Shift) => rest,
            KeyEvent::Down(k) => seq![k] + rest,
            KeyEvent::Up(_) => rest,
        }
    }
}

proof fn lemma_presses_concat(a: Seq<KeyEvent>, b: Seq<KeyEvent>)
    ensures
        presses(a + b) == presses(a) + presses(b),
    decreases a.len(),
{
    if a.len() == 0 {
        assert(a + b =~= b);
        assert(presses(a) + presses(b) =~= presses(b));
    } else {
        assert((a + b).drop_first() =~= a.drop_first() + b);
        lemma_presses_concat(a.drop_first(), b);
        assert(presses(a + b) =~= presses(a) + presses(b));
    }
}

proof fn lemma_presses_char(c: char)
    ensures
        presses(char_key_events(c)) == seq![key_of(c)],
{
    reveal_with_fuel(presses, 5);
    assert(char_key_events(c).len() <= 4);
    assert(presses(char_key_events(c)) =~= seq![key_of(c)]);
}

/// Law: delivering a line of length L presses exactly the line's L characters,
/// each through its own key, in the line's order, followed by exactly one
/// Enter press and nothing after it.
pub proof fn lemma_line_key_events_presses(line: Seq<char>)
    ensures
        presses(line_key_events(line)) == line.map_values(|c: char| key_of(c)).push(Key::Enter),
    decreases line.len(),
{
    let target = line.map_values(|c: char| key_of(c)).push(Key::Enter);
    if line.len() == 0 {
        reveal_with_fuel(presses, 3);
        assert(presses(line_key_events(line)) =~= target);
    } else {
        lemma_presses_concat(char_key_events(line[0]), line_key_events(line.drop_first()));
        lemma_presses_char(line[0]);
        lemma_line_key_events_presses(line.drop_first());
        assert(line.drop_first().map_values(|c: char| key_of(c)) =~= line.map_values(
            |c: char| key_of(c),
        ).drop_first());
        assert(presses(line_key_events(line)) =~= target);
    }
}

/// Build the events that deliver one character.
pub fn char_events(c: char) -> (r: Vec<KeyEvent>)
    ensures
        r@ == char_key_events(c),
{
    let mut r: Vec<KeyEvent> = Vec::new();
    if c == ' ' {
        r.push(KeyEvent::Down(Key::Space));
        r.push(KeyEvent::Up(Key::Space));
    } else if char_is_uppercase(c) {
        r.push(KeyEvent::Down(Key::Shift));
        r.push(KeyEvent::Down(Key::Unicode(c)));
        r.push(KeyEvent::Up(Key::Unicode(c)));
        r.push(KeyEvent::Up(Key::Shift));
    } else {
        r.push(KeyEvent::Down(Key::Unicode(c)));
        r.push(KeyEvent::Up(Key::Unicode(c)));
    }
    proof {
        assert(r@ =~= char_key_events(c));
    }
    r
}

/// Build the events that close a line.
pub fn enter_events() -> (r: Vec<KeyEvent>)
    ensures
        r@ == enter_key_events(),
{
    let mut r: Vec<KeyEvent> = Vec::new();
    r.push(KeyEvent::Down(Key::Enter));
    r.push(KeyEvent::Up(Key::Enter));
    proof {
        assert(r@ =~= enter_key_events());
    }
    r
}

/// Build the events that deliver a whole line followed by Enter.
pub fn line_events(line: &Vec<char>) -> (r: Vec<KeyEvent>)
    ensures
        r@ == line_key_events(line@),
{
    let mut r: Vec<KeyEvent> = Vec::new();
    let mut i: usize = 0;
    proof {
        assert(line@.skip(0) =~= line@);
    }
    while i < line.len()
        invariant
            i <= line@.len(),
            r@ + line_key_events(line@.skip(i as int)) == line_key_events(line@),
        decreases line@.len() - i,
    {
        let mut evs = char_events(line[i]);
        proof {
            let tail = line@.skip(i as int);
            assert(tail[0] == line@[i as int]);
            assert(tail.drop_first() =~= line@.skip(i + 1));
            assert(r@ + evs@ + line_key_events(line@.skip(i + 1)) =~= r@ + line_key_events(
                line@.skip(i as int),
            ));
        }
        r.append(&mut evs);
        i = i + 1;
    }
    proof {
        assert(line@.skip(line@.len() as int) =~= Seq::<char>::empty());
        assert(r@ + enter_key_events() =~= line_key_events(line@));
    }
    let mut tail = enter_events();
    r.append(&mut tail);
    r
}

} // verus!
