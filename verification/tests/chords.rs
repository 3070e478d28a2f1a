use harmony::chord::{
    Chord, ChordForm, ChordQuality, Major, MajorSeventh, Minor, MinorSeventh, Omit1, Omit3, Omit5,
    Seventh, Sus2, Sus4,
};
use harmony::interval::Interval;
use harmony::note::{Flat, Note, Sharp, B, C, D, E, G};

fn sh(n: Note) -> Note {
    Note::Sharp(Box::new(n))
}

fn fl(n: Note) -> Note {
    Note::Flat(Box::new(n))
}

fn note_names(c: &Chord) -> Vec<String> {
    c.notes().iter().map(|n| n.name()).collect()
}

#[test]
fn test() {
    assert_eq!(Major(C).chord().name(), "C");
    assert_eq!(Major(D).chord().name(), "D");
    assert_eq!(Major(Sharp(C)).chord().name(), "C♯");
    assert_eq!(Major(Flat(C)).chord().name(), "C♭");
    assert_eq!(Minor(C).chord().name(), "Cm");
    assert_eq!(Minor(Sharp(C)).chord().name(), "C♯m");
    assert_eq!(Minor(Flat(C)).chord().name(), "C♭m");
    Major(C).chord().notes();
    Major(B).chord().notes();
    Major(C).chord().notes();
    Major(B).chord().notes();
    Minor(D).chord().notes();
    Minor(E).chord().notes();
    Minor(Flat(D)).chord().notes();

    Chord::build(Note::C, ChordQuality::Aug).notes();
    assert_eq!(Chord::build(Note::C, ChordQuality::Aug).name(), "Caug");

    Chord::build(Note::B, ChordQuality::Dim).notes();
    Chord::build(Note::C, ChordQuality::Dim).notes();
    Chord::build(Note::G, ChordQuality::Dim).notes();
    assert_eq!(Chord::build(Note::C, ChordQuality::Dim).name(), "Cdim");

    Seventh(C).chord().notes();
    MajorSeventh(C).chord().notes();
    MinorSeventh(C).chord().notes();
    assert_eq!(Seventh(C).chord().name(), "C7");
    assert_eq!(MajorSeventh(C).chord().name(), "Cmaj7");
    assert_eq!(MinorSeventh(C).chord().name(), "Cm7");

    Sus4(Major(C)).chord().notes();
    Sus4(Minor(C)).chord().notes();
    Sus4(Seventh(C)).chord().notes();
    Sus2(Major(C)).chord().notes();
    Sus2(Minor(C)).chord().notes();
    Sus2(Seventh(C)).chord().notes();
    assert_eq!(Sus4(Major(C)).chord().name(), "Csus4");
    assert_eq!(Sus4(Minor(C)).chord().name(), "Cmsus4");
    assert_eq!(Sus4(Seventh(C)).chord().name(), "C7sus4");
    assert_eq!(Sus4(MajorSeventh(C)).chord().name(), "Cmaj7sus4");
    assert_eq!(Sus4(MinorSeventh(C)).chord().name(), "Cm7sus4");
    assert_eq!(Sus2(Major(C)).chord().name(), "Csus2");

    Omit1(Major(C)).chord().notes();
    Omit3(Major(C)).chord().notes();
    Omit5(Major(C)).chord().notes();
    Omit5(Sus4(MajorSeventh(C))).chord().notes();
    assert_eq!(Omit5(Sus4(MajorSeventh(C))).chord().name(), "Cmaj7sus4omit5");
}

#[test]
fn test_chord_notes() {
    let c_major = Chord::build(Note::C, ChordQuality::Major);
    assert_eq!(c_major.notes(), vec![Note::C, Note::E, Note::G]);
    assert_eq!(note_names(&c_major), vec!["C", "E", "G"]);

    let c_minor7 = Chord::build(Note::C, ChordQuality::MinorSeventh);
    assert_eq!(
        c_minor7.notes(),
        vec![Note::C, fl(Note::E), Note::G, fl(Note::B)]
    );
    assert_eq!(note_names(&c_minor7), vec!["C", "E♭", "G", "B♭"]);

    assert_eq!(
        note_names(&Chord::build(Note::C, ChordQuality::Seventh)),
        vec!["C", "E", "G", "B♭"]
    );
    assert_eq!(
        note_names(&Chord::build(Note::C, ChordQuality::MajorSeventh)),
        vec!["C", "E", "G", "B"]
    );
    assert_eq!(
        note_names(&Chord::build(Note::C, ChordQuality::Dim)),
        vec!["C", "E♭", "G♭"]
    );
    assert_eq!(
        note_names(&Chord::build(Note::C, ChordQuality::Aug)),
        vec!["C", "E", "G♯"]
    );
    // The augmented fifth keeps the fifth's letter even from a flat root.
    assert_eq!(
        note_names(&Chord::build(fl(Note::D), ChordQuality::Aug)),
        vec!["D♭", "F", "A"]
    );
    // The expression vocabulary builds the same chords as the value API.
    assert_eq!(Major(C).chord(), Chord::build(Note::C, ChordQuality::Major));
    assert_eq!(
        MinorSeventh(Sharp(G)).chord(),
        Chord::build(sh(Note::G), ChordQuality::MinorSeventh)
    );
}

#[test]
fn test_chord_modifiers_rebuild_slots() {
    // sus4 clears both thirds and populates the fourth.
    let sus4 = Chord::build(Note::C, ChordQuality::Major).with_sus4();
    assert_eq!(note_names(&sus4), vec!["C", "F", "G"]);
    // sus2 clears both thirds and populates the major second.
    let sus2 = Chord::build(Note::C, ChordQuality::Minor).with_sus2();
    assert_eq!(note_names(&sus2), vec!["C", "D", "G"]);
    // sus stacks with sevenths.
    let seventh_sus4 = Chord::build(Note::G, ChordQuality::Seventh).with_sus4();
    assert_eq!(note_names(&seventh_sus4), vec!["G", "C", "D", "F"]);
    // omit clears exactly one slot.
    let omit5 = Chord::build(Note::C, ChordQuality::MajorSeventh)
        .with_sus4()
        .omitting(Interval::P5);
    assert_eq!(note_names(&omit5), vec!["C", "F", "B"]);
    let omit1 = Chord::build(Note::C, ChordQuality::Major).omitting(Interval::P1);
    assert_eq!(note_names(&omit1), vec!["E", "G"]);
    let omit3 = Chord::build(Note::C, ChordQuality::Minor).omitting(Interval::m3);
    assert_eq!(note_names(&omit3), vec!["C", "G"]);
    assert_eq!(omit3.name(), "Cmomit3");
}
