use harmony::chord::Chord;
use harmony::key::{Key, MajorKey, MinorKey, Mode};
use harmony::note::{Flat, Note, A, C, D};
use harmony::progression::{
    evaluate, CanonProgression, JustTheTwoOfUsProgression, KomuroProgression, PopPunkProgression,
    Progression, RoyalRoadProgression,
};

fn chord_summary(c: &Chord) -> (String, Vec<String>) {
    (c.name(), c.notes().iter().map(|n| n.name()).collect())
}

fn summaries(chords: &[Chord]) -> Vec<(String, Vec<String>)> {
    chords.iter().map(chord_summary).collect()
}

fn strs(pairs: &[(&str, &[&str])]) -> Vec<(String, Vec<String>)> {
    pairs
        .iter()
        .map(|(name, notes)| {
            (
                name.to_string(),
                notes.iter().map(|s| s.to_string()).collect(),
            )
        })
        .collect()
}

#[test]
fn test_pop_punk_progression() {
    let prog = PopPunkProgression(MajorKey(C)).chords();
    assert_eq!(
        summaries(&prog),
        strs(&[
            ("C", &["C", "E", "G"]),
            ("G", &["G", "B", "D"]),
            ("Am", &["A", "C", "E"]),
            ("F", &["F", "A", "C"]),
        ])
    );
    let prog = PopPunkProgression(MinorKey(C)).chords();
    assert_eq!(
        summaries(&prog),
        strs(&[
            ("C", &["C", "E", "G"]),
            ("G", &["G", "B", "D"]),
            ("A♭m", &["A♭", "C♭", "E♭"]),
            ("F", &["F", "A", "C"]),
        ])
    );
}

#[test]
fn test_komuro_progression() {
    let prog = KomuroProgression(MajorKey(C)).chords();
    assert_eq!(
        summaries(&prog),
        strs(&[
            ("Am", &["A", "C", "E"]),
            ("F", &["F", "A", "C"]),
            ("G", &["G", "B", "D"]),
            ("C", &["C", "E", "G"]),
        ])
    );
    let prog = KomuroProgression(MinorKey(C)).chords();
    assert_eq!(
        summaries(&prog),
        strs(&[
            ("A♭m", &["A♭", "C♭", "E♭"]),
            ("F", &["F", "A", "C"]),
            ("G", &["G", "B", "D"]),
            ("C", &["C", "E", "G"]),
        ])
    );
}

#[test]
fn test_canon_progression() {
    let prog = CanonProgression(MajorKey(C)).chords();
    assert_eq!(
        summaries(&prog),
        strs(&[
            ("C", &["C", "E", "G"]),
            ("G", &["G", "B", "D"]),
            ("Am", &["A", "C", "E"]),
            ("Em", &["E", "G", "B"]),
            ("F", &["F", "A", "C"]),
            ("C", &["C", "E", "G"]),
            ("F", &["F", "A", "C"]),
            ("G", &["G", "B", "D"]),
        ])
    );
    let prog = CanonProgression(MinorKey(C)).chords();
    assert_eq!(
        summaries(&prog),
        strs(&[
            ("C", &["C", "E", "G"]),
            ("G", &["G", "B", "D"]),
            ("A♭m", &["A♭", "C♭", "E♭"]),
            ("E♭m", &["E♭", "G♭", "B♭"]),
            ("F", &["F", "A", "C"]),
            ("C", &["C", "E", "G"]),
            ("F", &["F", "A", "C"]),
            ("G", &["G", "B", "D"]),
        ])
    );
}

#[test]
fn test_royal_road_progression() {
    let prog = RoyalRoadProgression(MajorKey(C)).chords();
    assert_eq!(
        summaries(&prog),
        strs(&[
            ("Fmaj7", &["F", "A", "C", "E"]),
            ("G7", &["G", "B", "D", "F"]),
            ("Em7", &["E", "G", "B", "D"]),
            ("Am", &["A", "C", "E"]),
        ])
    );
    let prog = RoyalRoadProgression(MinorKey(C)).chords();
    assert_eq!(
        summaries(&prog),
        strs(&[
            ("Fmaj7", &["F", "A", "C", "E"]),
            ("G7", &["G", "B", "D", "F"]),
            ("E♭m7", &["E♭", "G♭", "B♭", "D♭"]),
            ("A♭m", &["A♭", "C♭", "E♭"]),
        ])
    );
}

#[test]
fn test_just_the_two_of_us_progression() {
    let prog = JustTheTwoOfUsProgression(MajorKey(C)).chords();
    assert_eq!(
        summaries(&prog),
        strs(&[
            ("Fmaj7", &["F", "A", "C", "E"]),
            ("E7", &["E", "G♯", "B", "D"]),
            ("Am7", &["A", "C", "E", "G"]),
            ("Gm7", &["G", "B♭", "D", "F"]),
            ("C7", &["C", "E", "G", "B♭"]),
        ])
    );
    let prog = JustTheTwoOfUsProgression(MinorKey(C)).chords();
    assert_eq!(
        summaries(&prog),
        strs(&[
            ("Fmaj7", &["F", "A", "C", "E"]),
            ("E♭7", &["E♭", "G", "B♭", "D♭"]),
            ("A♭m7", &["A♭", "C♭", "E♭", "G♭"]),
            ("Gm7", &["G", "B♭", "D", "F"]),
            ("C7", &["C", "E", "G", "B♭"]),
        ])
    );
    let prog = JustTheTwoOfUsProgression(MajorKey(Flat(A))).chords();
    assert_eq!(
        summaries(&prog),
        strs(&[
            ("D♭maj7", &["D♭", "F", "A♭", "C"]),
            ("C7", &["C", "E", "G", "B♭"]),
            ("Fm7", &["F", "A♭", "C", "E♭"]),
            ("E♭m7", &["E♭", "G♭", "B♭", "D♭"]),
            ("A♭7", &["A♭", "C", "E♭", "G♭"]),
        ])
    );
}

#[test]
fn test_progression_idempotent() {
    // Re-evaluating the same template against the same key yields
    // structurally equal chord sequences.
    let pop = PopPunkProgression(MajorKey(C));
    assert_eq!(pop.chords(), pop.chords());
    let canon = CanonProgression(MinorKey(Flat(A)));
    assert_eq!(canon.chords(), canon.chords());
    let just = JustTheTwoOfUsProgression(MajorKey(Flat(A)));
    assert_eq!(just.chords(), just.chords());
    // The same holds through the explicit template/key evaluation.
    let key1 = Key::build(Note::D, Mode::Major);
    let key2 = Key::build(Note::D, Mode::Major);
    let royal = RoyalRoadProgression(MajorKey(D));
    assert_eq!(evaluate(&royal, &key1), evaluate(&royal, &key2));
}

#[test]
fn test_template_shapes() {
    let major_c = MajorKey(C);
    assert_eq!(PopPunkProgression(major_c).template().len(), 4);
    assert_eq!(KomuroProgression(major_c).template().len(), 4);
    assert_eq!(CanonProgression(major_c).template().len(), 8);
    assert_eq!(RoyalRoadProgression(major_c).template().len(), 4);
    assert_eq!(JustTheTwoOfUsProgression(major_c).template().len(), 5);
}
