//! Chords as interval-slot patterns over a root note.
//!
//! A chord stores its root, which of the twelve interval slots are
//! populated, and its name suffix chain; the notes themselves are always
//! derived by resolving each populated slot's interval from the root, never
//! stored independently.

use crate::interval::resolve_spec;
use crate::interval::Interval;
use crate::note::note_name;
use crate::note::Note;
use crate::note::Spelling;
use vstd::prelude::*;
use vstd::string::StringExecFns;

verus! {

/// Which of the twelve interval slots of a chord are populated.
#[derive(Debug, Clone, Copy, PartialEq, Eq)]
pub struct SlotPattern {
    pub p1: bool,
    pub min2: bool,
    pub maj2: bool,
    pub min3: bool,
    pub maj3: bool,
    pub p4: bool,
    pub dim5: bool,
    pub p5: bool,
    pub aug5: bool,
    pub maj6: bool,
    pub min7: bool,
    pub maj7: bool,
}

/// The pattern with every slot absent.
pub open spec fn empty_slots() -> SlotPattern {
    SlotPattern {
        p1: false,
        min2: false,
        maj2: false,
        min3: false,
        maj3: false,
        p4: false,
        dim5: false,
        p5: false,
        aug5: false,
        maj6: false,
        min7: false,
        maj7: false,
    }
}

/// The named chord qualities: triads and sevenths.
#[derive(Debug, Clone, Copy, PartialEq, Eq)]
pub enum ChordQuality {
    Major,
    Minor,
    Aug,
    Dim,
    Seventh,
    MajorSeventh,
    MinorSeventh,
}

/// The fixed present/absent slot pattern of a chord quality.
pub open spec fn quality_slots(q: ChordQuality) -> SlotPattern {
    match q {
        ChordQuality::Major => SlotPattern { p1: true, maj3: true, p5: true, ..empty_slots() },
        ChordQuality::Minor => SlotPattern { p1: true, min3: true, p5: true, ..empty_slots() },
        ChordQuality::Aug => SlotPattern { p1: true, maj3: true, aug5: true, ..empty_slots() },
        ChordQuality::Dim => SlotPattern { p1: true, min3: true, dim5: true, ..empty_slots() },
        ChordQuality::Seventh => SlotPattern {
            p1: true,
            maj3: true,
            p5: true,
            min7: true,
            ..empty_slots()
        },
        ChordQuality::MajorSeventh => SlotPattern {
            p1: true,
            maj3: true,
            p5: true,
            maj7: true,
            ..empty_slots()
        },
        ChordQuality::MinorSeventh => SlotPattern {
            p1: true,
            min3: true,
            p5: true,
            min7: true,
            ..empty_slots()
        },
    }
}

/// The naming suffix of a chord quality.
pub open spec fn quality_suffix(q: ChordQuality) -> Seq<char> {
    match q {
        ChordQuality::Major => ""@,
        ChordQuality::Minor => "m"@,
        ChordQuality::Aug => "aug"@,
        ChordQuality::Dim => "dim"@,
        ChordQuality::Seventh => "7"@,
        ChordQuality::MajorSeventh => "maj7"@,
        ChordQuality::MinorSeventh => "m7"@,
    }
}

/// The notes of a chord: each populated slot's interval resolved from the
/// root, in canonical slot order.
pub open spec fn chord_notes(root: Note, slots: SlotPattern) -> Seq<Note> {
    let s = Seq::<Note>::empty();
    let s = if slots.p1 {
        s.push(resolve_spec(Interval::P1, root))
    } else {
        s
    };
    let s = if slots.min2 {
        s.push(resolve_spec(Interval::m2, root))
    } else {
        s
    };
    let s = if slots.maj2 {
        s.push(resolve_spec(Interval::M2, root))
    } else {
        s
    };
    let s = if slots.min3 {
        s.push(resolve_spec(Interval::m3, root))
    } else {
        s
    };
    let s = if slots.maj3 {
        s.push(resolve_spec(Interval::M3, root))
    } else {
        s
    };
    let s = if slots.p4 {
        s.push(resolve_spec(Interval::P4, root))
    } else {
        s
    };
    let s = if slots.dim5 {
        s.push(resolve_spec(Interval::d5, root))
    } else {
        s
    };
    let s = if slots.p5 {
        s.push(resolve_spec(Interval::P5, root))
    } else {
        s
    };
    let s = if slots.aug5 {
        s.push(resolve_spec(Interval::A5, root))
    } else {
        s
    };
    let s = if slots.maj6 {
        s.push(resolve_spec(Interval::M6, root))
    } else {
        s
    };
    let s = if slots.min7 {
        s.push(resolve_spec(Interval::m7, root))
    } else {
        s
    };
    let s = if slots.maj7 {
        s.push(resolve_spec(Interval::M7, root))
    } else {
        s
    };
    s
}

/// A chord: a root, a slot pattern, and the accumulated name suffix.
/// Immutable once built; the modifier methods return new values.
#[derive(Debug, PartialEq, Eq)]
pub struct Chord {
    pub root: Note,
    pub slots: SlotPattern,
    pub suffix: String,
}

/// The pattern with every slot absent, as a value.
fn base_slots() -> (r: SlotPattern)
    ensures
        r == empty_slots(),
{
    SlotPattern {
        p1: false,
        min2: false,
        maj2: false,
        min3: false,
        maj3: false,
        p4: false,
        dim5: false,
        p5: false,
        aug5: false,
        maj6: false,
        min7: false,
        maj7: false,
    }
}

impl Chord {
    /// Build a chord of a quality on a root: the quality's fixed slot
    /// pattern is taken over, and its suffix starts the name chain.
    pub fn build(root: Note, quality: ChordQuality) -> (c: Chord)
        ensures
            c.root == root,
            c.slots == quality_slots(quality),
            c.suffix@ == quality_suffix(quality),
    {
        let slots = match quality {
            ChordQuality::Major => SlotPattern { p1: true, maj3: true, p5: true, ..base_slots() },
            ChordQuality::Minor => SlotPattern { p1: true, min3: true, p5: true, ..base_slots() },
            ChordQuality::Aug => SlotPattern { p1: true, maj3: true, aug5: true, ..base_slots() },
            ChordQuality::Dim => SlotPattern { p1: true, min3: true, dim5: true, ..base_slots() },
            ChordQuality::Seventh => SlotPattern {
                p1: true,
                maj3: true,
                p5: true,
                min7: true,
                ..base_slots()
            },
            ChordQuality::MajorSeventh => SlotPattern {
                p1: true,
                maj3: true,
                p5: true,
                maj7: true,
                ..base_slots()
            },
            ChordQuality::MinorSeventh => SlotPattern {
                p1: true,
                min3: true,
                p5: true,
                min7: true,
                ..base_slots()
            },
        };
        let suffix = match quality {
            ChordQuality::Major => String::from_str(""),
            ChordQuality::Minor => String::from_str("m"),
            ChordQuality::Aug => String::from_str("aug"),
            ChordQuality::Dim => String::from_str("dim"),
            ChordQuality::Seventh => String::from_str("7"),
            ChordQuality::MajorSeventh => String::from_str("maj7"),
            ChordQuality::MinorSeventh => String::from_str("m7"),
        };
        Chord { root, slots, suffix }
    }

    /// A new chord with both third slots cleared and the major second
    /// populated instead, suffix `sus2` appended. Defined for any chord.
    pub fn with_sus2(&self) -> (c: Chord)
        ensures
            c.root == self.root,
            c.slots == (SlotPattern { maj2: true, min3: false, maj3: false, ..self.slots }),
            c.suffix@ == self.suffix@ + "sus2"@,
    {
        let mut suffix = self.suffix.clone();
        suffix.append("sus2");
        Chord {
            root: self.root.clone(),
            slots: SlotPattern { maj2: true, min3: false, maj3: false, ..self.slots },
            suffix,
        }
    }

    /// A new chord with both third slots cleared and the perfect fourth
    /// populated instead, suffix `sus4` appended. Defined for any chord.
    pub fn with_sus4(&self) -> (c: Chord)
        ensures
            c.root == self.root,
            c.slots == (SlotPattern { min3: false, maj3: false, p4: true, ..self.slots }),
            c.suffix@ == self.suffix@ + "sus4"@,
    {
        let mut suffix = self.suffix.clone();
        suffix.append("sus4");
        Chord {
            root: self.root.clone(),
            slots: SlotPattern { min3: false, maj3: false, p4: true, ..self.slots },
            suffix,
        }
    }

    /// A new chord with one slot cleared: the unison, the third (either
    /// spelling), or the perfect fifth, with `omit1` / `omit3` / `omit5`
    /// appended to the name.
    pub fn omitting(&self, slot: Interval) -> (c: Chord)
        requires
            slot == Interval::P1 || slot == Interval::m3 || slot == Interval::M3 || slot
                == Interval::P5,
        ensures
            c.root == self.root,
            slot == Interval::P1 ==> c.slots == (SlotPattern { p1: false, ..self.slots })
                && c.suffix@ == self.suffix@ + "omit1"@,
            (slot == Interval::m3 || slot == Interval::M3) ==> c.slots == (SlotPattern {
                min3: false,
                maj3: false,
                ..self.slots
            }) && c.suffix@ == self.suffix@ + "omit3"@,
            slot == Interval::P5 ==> c.slots == (SlotPattern { p5: false, ..self.slots })
                && c.suffix@ == self.suffix@ + "omit5"@,
    {
        let mut suffix = self.suffix.clone();
        match slot {
            Interval::P1 => {
                suffix.append("omit1");
                Chord {
                    root: self.root.clone(),
                    slots: SlotPattern { p1: false, ..self.slots },
                    suffix,
                }
            },
            Interval::m3 | Interval::M3 => {
                suffix.append("omit3");
                Chord {
                    root: self.root.clone(),
                    slots: SlotPattern { min3: false, maj3: false, ..self.slots },
                    suffix,
                }
            },
            Interval::P5 => {
                suffix.append("omit5");
                Chord {
                    root: self.root.clone(),
                    slots: SlotPattern { p5: false, ..self.slots },
                    suffix,
                }
            },
            _ => {
                proof {
                    assert(false);
                }
                Chord {
                    root: self.root.clone(),
                    slots: SlotPattern { ..self.slots },
                    suffix,
                }
            },
        }
    }

    /// The chord's notes: each populated slot resolved from the root, in
    /// canonical slot order, skipping absent slots.
    pub fn notes(&self) -> (r: Vec<Note>)
        ensures
            r@ == chord_notes(self.root, self.slots),
    {
        let mut v: Vec<Note> = Vec::new();
        if self.slots.p1 {
            v.push(Interval::P1.resolve(&self.root));
        }
        if self.slots.min2 {
            v.push(Interval::m2.resolve(&self.root));
        }
        if self.slots.maj2 {
            v.push(Interval::M2.resolve(&self.root));
        }
        if self.slots.min3 {
            v.push(Interval::m3.resolve(&self.root));
        }
        if self.slots.maj3 {
            v.push(Interval::M3.resolve(&self.root));
        }
        if self.slots.p4 {
            v.push(Interval::P4.resolve(&self.root));
        }
        if self.slots.dim5 {
            v.push(Interval::d5.resolve(&self.root));
        }
        if self.slots.p5 {
            v.push(Interval::P5.resolve(&self.root));
        }
        if self.slots.aug5 {
            v.push(Interval::A5.resolve(&self.root));
        }
        if self.slots.maj6 {
            v.push(Interval::M6.resolve(&self.root));
        }
        if self.slots.min7 {
            v.push(Interval::m7.resolve(&self.root));
        }
        if self.slots.maj7 {
            v.push(Interval::M7.resolve(&self.root));
        }
        proof {
            assert(v@ =~= chord_notes(self.root, self.slots));
        }
        v
    }

    /// The chord's display name: the root's spelling followed by the
    /// accumulated quality and modifier suffixes, in application order.
    pub fn name(&self) -> (r: String)
        ensures
            r@ == note_name(self.root) + self.suffix@,
    {
        let mut s = self.root.name();
        s.append(self.suffix.as_str());
        s
    }
}

impl Clone for Chord {
    /// An exact structural copy.
    fn clone(&self) -> (r: Self)
        ensures
            r.root == self.root,
            r.slots == self.slots,
            r.suffix@ == self.suffix@,
    {
        Chord { root: self.root.clone(), slots: self.slots, suffix: self.suffix.clone() }
    }
}

/// A chord expression: a value that denotes one `Chord`. The quality types
/// (`Major` through `MinorSeventh`) root a chord on a spelled-note
/// expression; the modifier types (`Sus2`, `Sus4`, `Omit1`, `Omit3`,
/// `Omit5`) wrap another chord expression, so `Omit5(Sus4(MajorSeventh(C)))`
/// builds the chord named `Cmaj7sus4omit5`.
pub trait ChordForm {
    /// The root of the denoted chord.
    spec fn spec_root(&self) -> Note;

    /// The slot pattern of the denoted chord.
    spec fn spec_slots(&self) -> SlotPattern;

    /// The name suffix chain of the denoted chord.
    spec fn spec_suffix(&self) -> Seq<char>;

    /// Build the denoted chord.
    fn chord(&self) -> (c: Chord)
        ensures
            c.root == self.spec_root(),
            c.slots == self.spec_slots(),
            c.suffix@ == self.spec_suffix(),
    ;
}

/// A major triad on a root expression.
#[derive(Debug, Clone, Copy, PartialEq, Eq)]
pub struct Major<R: Spelling>(pub R);

/// A minor triad on a root expression.
#[derive(Debug, Clone, Copy, PartialEq, Eq)]
pub struct Minor<R: Spelling>(pub R);

/// A dominant seventh chord on a root expression.
#[derive(Debug, Clone, Copy, PartialEq, Eq)]
pub struct Seventh<R: Spelling>(pub R);

/// A major seventh chord on a root expression.
#[derive(Debug, Clone, Copy, PartialEq, Eq)]
pub struct MajorSeventh<R: Spelling>(pub R);

/// A minor seventh chord on a root expression.
#[derive(Debug, Clone, Copy, PartialEq, Eq)]
pub struct MinorSeventh<R: Spelling>(pub R);

/// A chord expression with the third slots replaced by the major second.
#[derive(Debug, Clone, Copy, PartialEq, Eq)]
pub struct Sus2<X: ChordForm>(pub X);

/// A chord expression with the third slots replaced by the perfect fourth.
#[derive(Debug, Clone, Copy, PartialEq, Eq)]
pub struct Sus4<X: ChordForm>(pub X);

/// A chord expression with the unison slot cleared.
#[derive(Debug, Clone, Copy, PartialEq, Eq)]
pub struct Omit1<X: ChordForm>(pub X);

/// A chord expression with both third slots cleared.
#[derive(Debug, Clone, Copy, PartialEq, Eq)]
pub struct Omit3<X: ChordForm>(pub X);

/// A chord expression with the perfect fifth slot cleared.
#[derive(Debug, Clone, Copy, PartialEq, Eq)]
pub struct Omit5<X: ChordForm>(pub X);

impl<R: Spelling> ChordForm for Major<R> {
    open spec fn spec_root(&self) -> Note {
        self.0.spec_note()
    }

    open spec fn spec_slots(&self) -> SlotPattern {
        quality_slots(ChordQuality::Major)
    }

    open spec fn spec_suffix(&self) -> Seq<char> {
        quality_suffix(ChordQuality::Major)
    }

    fn chord(&self) -> (c: Chord) {
        Chord::build(self.0.note(), ChordQuality::Major)
    }
}

impl<R: Spelling> ChordForm for Minor<R> {
    open spec fn spec_root(&self) -> Note {
        self.0.spec_note()
    }

    open spec fn spec_slots(&self) -> SlotPattern {
        quality_slots(ChordQuality::Minor)
    }

    open spec fn spec_suffix(&self) -> Seq<char> {
        quality_suffix(ChordQuality::Minor)
    }

    fn chord(&self) -> (c: Chord) {
        Chord::build(self.0.note(), ChordQuality::Minor)
    }
}

impl<R: Spelling> ChordForm for Seventh<R> {
    open spec fn spec_root(&self) -> Note {
        self.0.spec_note()
    }

    open spec fn spec_slots(&self) -> SlotPattern {
        quality_slots(ChordQuality::Seventh)
    }

    open spec fn spec_suffix(&self) -> Seq<char> {
        quality_suffix(ChordQuality::Seventh)
    }

    fn chord(&self) -> (c: Chord) {
        Chord::build(self.0.note(), ChordQuality::Seventh)
    }
}

impl<R: Spelling> ChordForm for MajorSeventh<R> {
    open spec fn spec_root(&self) -> Note {
        self.0.spec_note()
    }

    open spec fn spec_slots(&self) -> SlotPattern {
        quality_slots(ChordQuality::MajorSeventh)
    }

    open spec fn spec_suffix(&self) -> Seq<char> {
        quality_suffix(ChordQuality::MajorSeventh)
    }

    fn chord(&self) -> (c: Chord) {
        Chord::build(self.0.note(), ChordQuality::MajorSeventh)
    }
}

impl<R: Spelling> ChordForm for MinorSeventh<R> {
    open spec fn spec_root(&self) -> Note {
        self.0.spec_note()
    }

    open spec fn spec_slots(&self) -> SlotPattern {
        quality_slots(ChordQuality::MinorSeventh)
    }

    open spec fn spec_suffix(&self) -> Seq<char> {
        quality_suffix(ChordQuality::MinorSeventh)
    }

    fn chord(&self) -> (c: Chord) {
        Chord::build(self.0.note(), ChordQuality::MinorSeventh)
    }
}

impl<X: ChordForm> ChordForm for Sus2<X> {
    open spec fn spec_root(&self) -> Note {
        self.0.spec_root()
    }

    open spec fn spec_slots(&self) -> SlotPattern {
        SlotPattern { maj2: true, min3: false, maj3: false, ..self.0.spec_slots() }
    }

    open spec fn spec_suffix(&self) -> Seq<char> {
        self.0.spec_suffix() + "sus2"@
    }

    fn chord(&self) -> (c: Chord) {
        self.0.chord().with_sus2()
    }
}

impl<X: ChordForm> ChordForm for Sus4<X> {
    open spec fn spec_root(&self) -> Note {
        self.0.spec_root()
    }

    open spec fn spec_slots(&self) -> SlotPattern {
        SlotPattern { min3: false, maj3: false, p4: true, ..self.0.spec_slots() }
    }

    open spec fn spec_suffix(&self) -> Seq<char> {
        self.0.spec_suffix() + "sus4"@
    }

    fn chord(&self) -> (c: Chord) {
        self.0.chord().with_sus4()
    }
}

impl<X: ChordForm> ChordForm for Omit1<X> {
    open spec fn spec_root(&self) -> Note {
        self.0.spec_root()
    }

    open spec fn spec_slots(&self) -> SlotPattern {
        SlotPattern { p1: false, ..self.0.spec_slots() }
    }

    open spec fn spec_suffix(&self) -> Seq<char> {
        self.0.spec_suffix() + "omit1"@
    }

    fn chord(&self) -> (c: Chord) {
        self.0.chord().omitting(Interval::P1)
    }
}

impl<X: ChordForm> ChordForm for Omit3<X> {
    open spec fn spec_root(&self) -> Note {
        self.0.spec_root()
    }

    open spec fn spec_slots(&self) -> SlotPattern {
        SlotPattern { min3: false, maj3: false, ..self.0.spec_slots() }
    }

    open spec fn spec_suffix(&self) -> Seq<char> {
        self.0.spec_suffix() + "omit3"@
    }

    fn chord(&self) -> (c: Chord) {
        self.0.chord().omitting(Interval::M3)
    }
}

impl<X: ChordForm> ChordForm for Omit5<X> {
    open spec fn spec_root(&self) -> Note {
        self.0.spec_root()
    }

    open spec fn spec_slots(&self) -> SlotPattern {
        SlotPattern { p5: false, ..self.0.spec_slots() }
    }

    open spec fn spec_suffix(&self) -> Seq<char> {
        self.0.spec_suffix() + "omit5"@
    }

    fn chord(&self) -> (c: Chord) {
        self.0.chord().omitting(Interval::P5)
    }
}

} // verus!
