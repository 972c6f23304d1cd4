use tty_sender::keys::{char_events, enter_events, line_events, Key, KeyEvent};
use tty_sender::wide::w;

#[test]
fn lowercase_char_events_are_a_plain_pair() {
    let evs = char_events('a');
    assert_eq!(
        evs,
        vec![
            KeyEvent::Down(Key::Unicode('a')),
            KeyEvent::Up(Key::Unicode('a')),
        ]
    );
}

#[test]
fn uppercase_char_events_are_shift_bracketed() {
    let evs = char_events('A');
    assert_eq!(
        evs,
        vec![
            KeyEvent::Down(Key::Shift),
            KeyEvent::Down(Key::Unicode('A')),
            KeyEvent::Up(Key::Unicode('A')),
            KeyEvent::Up(Key::Shift),
        ]
    );
}

#[test]
fn space_goes_through_the_space_key() {
    let evs = char_events(' ');
    assert_eq!(
        evs,
        vec![KeyEvent::Down(Key::Space), KeyEvent::Up(Key::Space)]
    );
}

#[test]
fn digit_char_events_are_a_plain_pair() {
    let evs = char_events('7');
    assert_eq!(
        evs,
        vec![
            KeyEvent::Down(Key::Unicode('7')),
            KeyEvent::Up(Key::Unicode('7')),
        ]
    );
}

#[test]
fn enter_events_are_one_pair() {
    let evs = enter_events();
    assert_eq!(
        evs,
        vec![KeyEvent::Down(Key::Enter), KeyEvent::Up(Key::Enter)]
    );
}

#[test]
fn line_events_deliver_each_char_then_enter() {
    let line: Vec<char> = "a b".chars().collect();
    let evs = line_events(&line);
    assert_eq!(
        evs,
        vec![
            KeyEvent::Down(Key::Unicode('a')),
            KeyEvent::Up(Key::Unicode('a')),
            KeyEvent::Down(Key::Space),
            KeyEvent::Up(Key::Space),
            KeyEvent::Down(Key::Unicode('b')),
            KeyEvent::Up(Key::Unicode('b')),
            KeyEvent::Down(Key::Enter),
            KeyEvent::Up(Key::Enter),
        ]
    );
}

#[test]
fn line_events_press_count_matches_line_length() {
    let line: Vec<char> = "abc".chars().collect();
    let evs = line_events(&line);
    let char_presses = evs
        .iter()
        .filter(|e| {
            matches!(
                e,
                KeyEvent::Down(Key::Unicode(_)) | KeyEvent::Down(Key::Space)
            )
        })
        .count();
    let enter_presses = evs
        .iter()
        .filter(|e| matches!(e, KeyEvent::Down(Key::Enter)))
        .count();
    assert_eq!(char_presses, 3);
    assert_eq!(enter_presses, 1);
    assert_eq!(evs[evs.len() - 2], KeyEvent::Down(Key::Enter));
    assert_eq!(evs[evs.len() - 1], KeyEvent::Up(Key::Enter));
}

#[test]
fn empty_line_events_are_just_enter() {
    let line: Vec<char> = Vec::new();
    let evs = line_events(&line);
    assert_eq!(
        evs,
        vec![KeyEvent::Down(Key::Enter), KeyEvent::Up(Key::Enter)]
    );
}

#[test]
fn w_encodes_ascii_with_terminator() {
    assert_eq!(w("abc"), vec![97u16, 98, 99, 0]);
}

#[test]
fn w_encodes_empty_as_terminator_only() {
    assert_eq!(w(""), vec![0u16]);
}

#[test]
fn w_encodes_supplementary_plane_as_surrogate_pair() {
    assert_eq!(w("\u{1F600}"), vec![0xD83Du16, 0xDE00, 0]);
}

#[test]
fn w_matches_std_utf16_encoding() {
    let s = "Tty Sender\u{4F60}\u{597D}";
    let expected: Vec<u16> = s.encode_utf16().chain(Some(0)).collect();
    assert_eq!(w(s), expected);
}
