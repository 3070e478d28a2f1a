use harmony::key::{InvalidModeError, Key, Mode};
use harmony::note::Note;

fn sharp_key_tonic(n: Note) -> Note {
    Note::Sharp(Box::new(n))
}

fn flat_key_tonic(n: Note) -> Note {
    Note::Flat(Box::new(n))
}

fn degree_names(k: &Key) -> Vec<String> {
    k.as_sequence().iter().map(|n| n.name()).collect()
}

#[test]
fn test_c_major_scale() {
    let k = Key::build(Note::C, Mode::Major);
    assert_eq!(degree_names(&k), vec!["C", "D", "E", "F", "G", "A", "B"]);
}

#[test]
fn test_d_major_scale() {
    let k = Key::build(Note::D, Mode::Major);
    assert_eq!(degree_names(&k), vec!["D", "E", "F♯", "G", "A", "B", "C♯"]);
}

#[test]
fn test_d_flat_major_scale() {
    let k = Key::build(flat_key_tonic(Note::D), Mode::Major);
    assert_eq!(
        degree_names(&k),
        vec!["D♭", "E♭", "F", "G♭", "A♭", "B♭", "C"]
    );
}

#[test]
fn test_major_scales() {
    let table: [(Note, [&str; 7]); 15] = [
        (Note::C, ["C", "D", "E", "F", "G", "A", "B"]),
        (Note::D, ["D", "E", "F♯", "G", "A", "B", "C♯"]),
        (Note::E, ["E", "F♯", "G♯", "A", "B", "C♯", "D♯"]),
        (Note::F, ["F", "G", "A", "B♭", "C", "D", "E"]),
        (Note::G, ["G", "A", "B", "C", "D", "E", "F♯"]),
        (Note::A, ["A", "B", "C♯", "D", "E", "F♯", "G♯"]),
        (Note::B, ["B", "C♯", "D♯", "E", "F♯", "G♯", "A♯"]),
        (
            sharp_key_tonic(Note::C),
            ["C♯", "D♯", "E♯", "F♯", "G♯", "A♯", "B♯"],
        ),
        (
            sharp_key_tonic(Note::F),
            ["F♯", "G♯", "A♯", "B", "C♯", "D♯", "E♯"],
        ),
        (
            flat_key_tonic(Note::C),
            ["C♭", "D♭", "E♭", "F♭", "G♭", "A♭", "B♭"],
        ),
        (
            flat_key_tonic(Note::D),
            ["D♭", "E♭", "F", "G♭", "A♭", "B♭", "C"],
        ),
        (
            flat_key_tonic(Note::E),
            ["E♭", "F", "G", "A♭", "B♭", "C", "D"],
        ),
        (
            flat_key_tonic(Note::G),
            ["G♭", "A♭", "B♭", "C♭", "D♭", "E♭", "F"],
        ),
        (
            flat_key_tonic(Note::A),
            ["A♭", "B♭", "C", "D♭", "E♭", "F", "G"],
        ),
        (
            flat_key_tonic(Note::B),
            ["B♭", "C", "D", "E♭", "F", "G", "A"],
        ),
    ];
    for (tonic, expected) in table {
        let k = Key::build(tonic, Mode::Major);
        assert_eq!(degree_names(&k), expected.to_vec());
    }
}

#[test]
fn test_minor_scales() {
    let table: [(Note, [&str; 7]); 15] = [
        (Note::A, ["A", "B", "C", "D", "E", "F", "G"]),
        (Note::B, ["B", "C♯", "D", "E", "F♯", "G", "A"]),
        (Note::C, ["C", "D", "E♭", "F", "G", "A♭", "B♭"]),
        (Note::D, ["D", "E", "F", "G", "A", "B♭", "C"]),
        (Note::E, ["E", "F♯", "G", "A", "B", "C", "D"]),
        (Note::F, ["F", "G", "A♭", "B♭", "C", "D♭", "E♭"]),
        (Note::G, ["G", "A", "B♭", "C", "D", "E♭", "F"]),
        (
            sharp_key_tonic(Note::A),
            ["A♯", "B♯", "C♯", "D♯", "E♯", "F♯", "G♯"],
        ),
        (
            sharp_key_tonic(Note::C),
            ["C♯", "D♯", "E", "F♯", "G♯", "A", "B"],
        ),
        (
            sharp_key_tonic(Note::D),
            ["D♯", "E♯", "F♯", "G♯", "A♯", "B", "C♯"],
        ),
        (
            sharp_key_tonic(Note::F),
            ["F♯", "G♯", "A", "B", "C♯", "D", "E"],
        ),
        (
            sharp_key_tonic(Note::G),
            ["G♯", "A♯", "B", "C♯", "D♯", "E", "F♯"],
        ),
        (
            flat_key_tonic(Note::A),
            ["A♭", "B♭", "C♭", "D♭", "E♭", "F♭", "G♭"],
        ),
        (
            flat_key_tonic(Note::B),
            ["B♭", "C", "D♭", "E♭", "F", "G♭", "A♭"],
        ),
        (
            flat_key_tonic(Note::E),
            ["E♭", "F", "G♭", "A♭", "B♭", "C♭", "D♭"],
        ),
    ];
    for (tonic, expected) in table {
        let k = Key::build(tonic, Mode::NaturalMinor);
        assert_eq!(degree_names(&k), expected.to_vec());
    }
}

fn letter_of(n: &Note) -> char {
    match n {
        Note::C => 'C',
        Note::D => 'D',
        Note::E => 'E',
        Note::F => 'F',
        Note::G => 'G',
        Note::A => 'A',
        Note::B => 'B',
        Note::Sharp(m) => letter_of(m),
        Note::Flat(m) => letter_of(m),
    }
}

#[test]
fn test_scales_use_each_letter_once() {
    // Every real-signature key's seven degrees use each letter name
    // exactly once.
    let letters = [Note::C, Note::D, Note::E, Note::F, Note::G, Note::A, Note::B];
    let mut combos: Vec<(Note, Mode)> = Vec::new();
    for l in &letters {
        combos.push((l.clone(), Mode::Major));
        combos.push((l.clone(), Mode::NaturalMinor));
    }
    for l in [Note::C, Note::F] {
        combos.push((sharp_key_tonic(l), Mode::Major));
    }
    for l in [Note::C, Note::D, Note::E, Note::G, Note::A, Note::B] {
        combos.push((flat_key_tonic(l), Mode::Major));
    }
    for l in [Note::A, Note::C, Note::D, Note::F, Note::G] {
        combos.push((sharp_key_tonic(l), Mode::NaturalMinor));
    }
    for l in [Note::A, Note::B, Note::E] {
        combos.push((flat_key_tonic(l), Mode::NaturalMinor));
    }
    for (tonic, mode) in combos {
        let k = Key::build(tonic, mode);
        let mut seen: Vec<char> = k.as_sequence().iter().map(letter_of).collect();
        seen.sort();
        assert_eq!(seen, vec!['A', 'B', 'C', 'D', 'E', 'F', 'G']);
    }
}

#[test]
fn test_degree_accessors() {
    let k = Key::build(Note::G, Mode::Major);
    assert_eq!(k.i().name(), "G");
    assert_eq!(k.ii().name(), "A");
    assert_eq!(k.iii().name(), "B");
    assert_eq!(k.iv().name(), "C");
    assert_eq!(k.v().name(), "D");
    assert_eq!(k.vi().name(), "E");
    assert_eq!(k.vii().name(), "F♯");
}

#[test]
fn test_mode_from_token() {
    assert_eq!(Mode::from_token("major"), Ok(Mode::Major));
    assert_eq!(Mode::from_token("minor"), Ok(Mode::NaturalMinor));
    assert_eq!(Mode::from_token("dorian"), Err(InvalidModeError));
    assert_eq!(Mode::from_token(""), Err(InvalidModeError));
    assert_eq!(Mode::from_token("Major"), Err(InvalidModeError));
}
