use lupin::typing::{boundary_char, char_delay_ms, fallback_char, next_chunk, take_chunk};

fn chars(s: &str) -> Vec<char> {
    s.chars().collect()
}

#[test]
fn boundary_chars_are_recognized() {
    for c in [' ', '.', ',', '!', '?', '\n'] {
        assert!(boundary_char(c));
    }
    for c in ['a', 'Z', '0', '-', ';', '\t'] {
        assert!(!boundary_char(c));
    }
}

#[test]
fn first_chunk_of_hi_there_is_the_whole_text() {
    // "Hi there!" has no boundary at offsets five to seven, so with a
    // cap of twenty the scan runs to the end of the nine characters.
    let text = chars("Hi there!");
    let (start, end) = next_chunk(&text, 0, 20);
    assert_eq!(start, 0);
    assert_eq!(end, 9);
    let typed: String = text[start..end].iter().collect();
    assert_eq!(typed, "Hi there!");
}

#[test]
fn position_at_end_wraps_to_start() {
    let text = chars("Hi there!");
    let (start, _end) = next_chunk(&text, 9, 20);
    assert_eq!(start, 0);
    let (start, _end) = next_chunk(&text, 42, 20);
    assert_eq!(start, 0);
}

#[test]
fn chunk_stops_after_boundary_past_five_chars() {
    // Offset six holds a space, the first boundary at offset five or
    // later, so the chunk ends right after it.
    let text = chars("abcdef ghijklmnop");
    let (start, end) = next_chunk(&text, 0, 20);
    assert_eq!(start, 0);
    assert_eq!(end, 7);
    assert_eq!(text[end - 1], ' ');
}

#[test]
fn unbroken_chunk_takes_cap_or_remainder() {
    // No boundary anywhere: the chunk length is the cap clipped to the
    // remaining length.
    let text = chars("abcdefghijklmnopqrstuvwxyz");
    let (start, end) = next_chunk(&text, 0, 20);
    assert_eq!((start, end), (0, 20));
    let (start, end) = next_chunk(&text, 20, 20);
    assert_eq!((start, end), (20, 26));
}

#[test]
fn consecutive_chunks_rebuild_the_text() {
    let text = chars("The quick brown fox jumps over the lazy dog.");
    let mut position = 0usize;
    let mut rebuilt = String::new();
    while position < text.len() {
        let (start, end) = next_chunk(&text, position, 20);
        assert_eq!(start, position);
        assert!(end > start);
        rebuilt.extend(&text[start..end]);
        position = end;
    }
    let original: String = text.iter().collect();
    assert_eq!(rebuilt, original);
    // The text is consumed; the next invocation wraps to the start.
    let (start, _) = next_chunk(&text, position, 20);
    assert_eq!(start, 0);
}

#[test]
fn random_chunks_stay_within_cap_range() {
    let text = chars("abcdefghijklmnopqrstuvwxyzabcdefghijklmnopqrstuvwxyz");
    for _ in 0..100 {
        let chunk = take_chunk(&text, 0);
        assert_eq!(chunk.start, 0);
        // No boundary characters, plenty of text: the length is the
        // drawn cap itself.
        let len = chunk.end - chunk.start;
        assert!((5..=20).contains(&len), "chunk length {len} out of range");
        assert_eq!(chunk.chars, text[chunk.start..chunk.end].to_vec());
        assert_eq!(chunk.delays.len(), chunk.chars.len());
    }
}

#[test]
fn char_delays_follow_character_class() {
    for _ in 0..50 {
        let d = char_delay_ms('x');
        assert!((50..=149).contains(&d), "plain delay {d}");
        let d = char_delay_ms(' ');
        assert!((50..=198).contains(&d), "space delay {d}");
        let d = char_delay_ms(',');
        assert!((100..=298).contains(&d), "comma delay {d}");
        let d = char_delay_ms('.');
        assert!((150..=448).contains(&d), "sentence delay {d}");
        let d = char_delay_ms('!');
        assert!((150..=448).contains(&d), "sentence delay {d}");
        let d = char_delay_ms('\n');
        assert!((250..=548).contains(&d), "newline delay {d}");
    }
}

#[test]
fn fallback_chars_come_from_fixed_alphabet() {
    let mut seen = std::collections::BTreeSet::new();
    for _ in 0..200 {
        let c = fallback_char();
        assert!([' ', 'a', 'e', 'i', 'o', 'u'].contains(&c), "unexpected fallback {c:?}");
        seen.insert(c);
    }
    // With two hundred draws the six-letter alphabet is all but
    // certainly not collapsed onto one value.
    assert!(seen.len() > 1);
}
