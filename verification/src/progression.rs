//! Named chord progressions evaluated against a key.
//!
//! A progression is a stateless template of (scale degree, chord quality)
//! pairs; evaluating it against a key builds one chord per pair, rooted at
//! the key's degree note. Evaluation is pure: the same template and key
//! always yield structurally equal chord sequences.

use crate::chord::chord_notes;
use crate::chord::quality_slots;
use crate::chord::quality_suffix;
use crate::chord::Chord;
use crate::chord::ChordQuality;
use crate::key::degree_number;
use crate::key::degree_spec;
use crate::key::Degree;
use crate::key::Key;
use crate::key::KeyForm;
use crate::key::Mode;
use crate::note::note_name;
use crate::note::Note;
use vstd::prelude::*;

verus! {

/// What evaluation promises of one produced chord: rooted at the note of
/// the named degree in the key of the given tonic and mode, with the named
/// quality's slot pattern and suffix.
pub open spec fn chord_matches(
    c: Chord,
    tonic: Note,
    mode: Mode,
    entry: (Degree, ChordQuality),
) -> bool {
    &&& c.root == degree_spec(tonic, mode, degree_number(entry.0))
    &&& c.slots == quality_slots(entry.1)
    &&& c.suffix@ == quality_suffix(entry.1)
}

/// A progression template: an ordered sequence of (scale degree, chord
/// quality) pairs, independent of any key.
pub trait Progression {
    /// The template's pairs, in order.
    spec fn template_spec(&self) -> Seq<(Degree, ChordQuality)>;

    /// The template's pairs, in order, as a vector.
    fn template(&self) -> (r: Vec<(Degree, ChordQuality)>)
        ensures
            r@ == self.template_spec(),
    ;
}

/// Evaluate a progression template against a key: one chord per template
/// entry, rooted at the key's degree note, in template order.
pub fn evaluate<P: Progression>(p: &P, key: &Key) -> (r: Vec<Chord>)
    requires
        key.wf(),
    ensures
        r@.len() == p.template_spec().len(),
        forall|i: int|
            0 <= i < r@.len() ==> chord_matches(
                #[trigger] r@[i],
                key.tonic,
                key.mode,
                p.template_spec()[i],
            ),
{
    let t = p.template();
    let mut chords: Vec<Chord> = Vec::new();
    let mut idx: usize = 0;
    while idx < t.len()
        invariant
            key.wf(),
            t@ == p.template_spec(),
            idx <= t@.len(),
            chords@.len() == idx,
            forall|i: int|
                0 <= i < idx ==> chord_matches(#[trigger] chords@[i], key.tonic, key.mode, t@[i]),
        decreases t@.len() - idx,
    {
        let (d, q) = t[idx];
        let root = key.degree(d);
        chords.push(Chord::build(root, q));
        idx = idx + 1;
    }
    chords
}

/// The I–V–vi–IV progression, bound to a key expression.
#[derive(Debug, Clone, Copy, PartialEq, Eq)]
pub struct PopPunkProgression<K: KeyForm>(pub K);

/// The vi–IV–V–I progression, bound to a key expression.
#[derive(Debug, Clone, Copy, PartialEq, Eq)]
pub struct KomuroProgression<K: KeyForm>(pub K);

/// The I–V–vi–iii–IV–I–IV–V progression, bound to a key expression.
#[derive(Debug, Clone, Copy, PartialEq, Eq)]
pub struct CanonProgression<K: KeyForm>(pub K);

/// The IVmaj7–V7–iii7–vi progression, bound to a key expression.
#[derive(Debug, Clone, Copy, PartialEq, Eq)]
pub struct RoyalRoadProgression<K: KeyForm>(pub K);

/// The IVmaj7–III7–vi7–v7–I7 progression, bound to a key expression.
#[derive(Debug, Clone, Copy, PartialEq, Eq)]
pub struct JustTheTwoOfUsProgression<K: KeyForm>(pub K);

impl<K: KeyForm> Progression for PopPunkProgression<K> {
    open spec fn template_spec(&self) -> Seq<(Degree, ChordQuality)> {
        seq![
            (Degree::I, ChordQuality::Major),
            (Degree::V, ChordQuality::Major),
            (Degree::VI, ChordQuality::Minor),
            (Degree::IV, ChordQuality::Major),
        ]
    }

    fn template(&self) -> (r: Vec<(Degree, ChordQuality)>) {
        let mut v: Vec<(Degree, ChordQuality)> = Vec::new();
        v.push((Degree::I, ChordQuality::Major));
        v.push((Degree::V, ChordQuality::Major));
        v.push((Degree::VI, ChordQuality::Minor));
        v.push((Degree::IV, ChordQuality::Major));
        proof {
            assert(v@ =~= self.template_spec());
        }
        v
    }
}

impl<K: KeyForm> Progression for KomuroProgression<K> {
    open spec fn template_spec(&self) -> Seq<(Degree, ChordQuality)> {
        seq![
            (Degree::VI, ChordQuality::Minor),
            (Degree::IV, ChordQuality::Major),
            (Degree::V, ChordQuality::Major),
            (Degree::I, ChordQuality::Major),
        ]
    }

    fn template(&self) -> (r: Vec<(Degree, ChordQuality)>) {
        let mut v: Vec<(Degree, ChordQuality)> = Vec::new();
        v.push((Degree::VI, ChordQuality::Minor));
        v.push((Degree::IV, ChordQuality::Major));
        v.push((Degree::V, ChordQuality::Major));
        v.push((Degree::I, ChordQuality::Major));
        proof {
            assert(v@ =~= self.template_spec());
        }
        v
    }
}

impl<K: KeyForm> Progression for CanonProgression<K> {
    open spec fn template_spec(&self) -> Seq<(Degree, ChordQuality)> {
        seq![
            (Degree::I, ChordQuality::Major),
            (Degree::V, ChordQuality::Major),
            (Degree::VI, ChordQuality::Minor),
            (Degree::III, ChordQuality::Minor),
            (Degree::IV, ChordQuality::Major),
            (Degree::I, ChordQuality::Major),
            (Degree::IV, ChordQuality::Major),
            (Degree::V, ChordQuality::Major),
        ]
    }

    fn template(&self) -> (r: Vec<(Degree, ChordQuality)>) {
        let mut v: Vec<(Degree, ChordQuality)> = Vec::new();
        v.push((Degree::I, ChordQuality::Major));
        v.push((Degree::V, ChordQuality::Major));
        v.push((Degree::VI, ChordQuality::Minor));
        v.push((Degree::III, ChordQuality::Minor));
        v.push((Degree::IV, ChordQuality::Major));
        v.push((Degree::I, ChordQuality::Major));
        v.push((Degree::IV, ChordQuality::Major));
        v.push((Degree::V, ChordQuality::Major));
        proof {
            assert(v@ =~= self.template_spec());
        }
        v
    }
}

impl<K: KeyForm> Progression for RoyalRoadProgression<K> {
    open spec fn template_spec(&self) -> Seq<(Degree, ChordQuality)> {
        seq![
            (Degree::IV, ChordQuality::MajorSeventh),
            (Degree::V, ChordQuality::Seventh),
            (Degree::III, ChordQuality::MinorSeventh),
            (Degree::VI, ChordQuality::Minor),
        ]
    }

    fn template(&self) -> (r: Vec<(Degree, ChordQuality)>) {
        let mut v: Vec<(Degree, ChordQuality)> = Vec::new();
        v.push((Degree::IV, ChordQuality::MajorSeventh));
        v.push((Degree::V, ChordQuality::Seventh));
        v.push((Degree::III, ChordQuality::MinorSeventh));
        v.push((Degree::VI, ChordQuality::Minor));
        proof {
            assert(v@ =~= self.template_spec());
        }
        v
    }
}

impl<K: KeyForm> Progression for JustTheTwoOfUsProgression<K> {
    open spec fn template_spec(&self) -> Seq<(Degree, ChordQuality)> {
        seq![
            (Degree::IV, ChordQuality::MajorSeventh),
            (Degree::III, ChordQuality::Seventh),
            (Degree::VI, ChordQuality::MinorSeventh),
            (Degree::V, ChordQuality::MinorSeventh),
            (Degree::I, ChordQuality::Seventh),
        ]
    }

    fn template(&self) -> (r: Vec<(Degree, ChordQuality)>) {
        let mut v: Vec<(Degree, ChordQuality)> = Vec::new();
        v.push((Degree::IV, ChordQuality::MajorSeventh));
        v.push((Degree::III, ChordQuality::Seventh));
        v.push((Degree::VI, ChordQuality::MinorSeventh));
        v.push((Degree::V, ChordQuality::MinorSeventh));
        v.push((Degree::I, ChordQuality::Seventh));
        proof {
            assert(v@ =~= self.template_spec());
        }
        v
    }
}

impl<K: KeyForm> PopPunkProgression<K> {
    /// The progression's chords in the bound key.
    pub fn chords(&self) -> (r: Vec<Chord>)
        ensures
            r@.len() == self.template_spec().len(),
            forall|i: int|
                0 <= i < r@.len() ==> chord_matches(
                    #[trigger] r@[i],
                    self.0.spec_tonic(),
                    self.0.spec_mode(),
                    self.template_spec()[i],
                ),
    {
        let key = self.0.key();
        evaluate(self, &key)
    }
}

impl<K: KeyForm> KomuroProgression<K> {
    /// The progression's chords in the bound key.
    pub fn chords(&self) -> (r: Vec<Chord>)
        ensures
            r@.len() == self.template_spec().len(),
            forall|i: int|
                0 <= i < r@.len() ==> chord_matches(
                    #[trigger] r@[i],
                    self.0.spec_tonic(),
                    self.0.spec_mode(),
                    self.template_spec()[i],
                ),
    {
        let key = self.0.key();
        evaluate(self, &key)
    }
}

impl<K: KeyForm> CanonProgression<K> {
    /// The progression's chords in the bound key.
    pub fn chords(&self) -> (r: Vec<Chord>)
        ensures
            r@.len() == self.template_spec().len(),
            forall|i: int|
                0 <= i < r@.len() ==> chord_matches(
                    #[trigger] r@[i],
                    self.0.spec_tonic(),
                    self.0.spec_mode(),
                    self.template_spec()[i],
                ),
    {
        let key = self.0.key();
        evaluate(self, &key)
    }
}

impl<K: KeyForm> RoyalRoadProgression<K> {
    /// The progression's chords in the bound key.
    pub fn chords(&self) -> (r: Vec<Chord>)
        ensures
            r@.len() == self.template_spec().len(),
            forall|i: int|
                0 <= i < r@.len() ==> chord_matches(
                    #[trigger] r@[i],
                    self.0.spec_tonic(),
                    self.0.spec_mode(),
                    self.template_spec()[i],
                ),
    {
        let key = self.0.key();
        evaluate(self, &key)
    }
}

impl<K: KeyForm> JustTheTwoOfUsProgression<K> {
    /// The progression's chords in the bound key.
    pub fn chords(&self) -> (r: Vec<Chord>)
        ensures
            r@.len() == self.template_spec().len(),
            forall|i: int|
                0 <= i < r@.len() ==> chord_matches(
                    #[trigger] r@[i],
                    self.0.spec_tonic(),
                    self.0.spec_mode(),
                    self.template_spec()[i],
                ),
    {
        let key = self.0.key();
        evaluate(self, &key)
    }
}

/// Idempotence of evaluation: any two chord sequences that evaluation of
/// the same template against the same key can produce are structurally
/// equal — same length, and chord by chord the same root, the same slot
/// pattern, the same suffix, hence the same notes and the same name.
pub proof fn lemma_evaluate_deterministic(
    template: Seq<(Degree, ChordQuality)>,
    tonic: Note,
    mode: Mode,
    r1: Seq<Chord>,
    r2: Seq<Chord>,
)
    requires
        r1.len() == template.len(),
        forall|i: int| 0 <= i < r1.len() ==> chord_matches(#[trigger] r1[i], tonic, mode, template[i]),
        r2.len() == template.len(),
        forall|i: int| 0 <= i < r2.len() ==> chord_matches(#[trigger] r2[i], tonic, mode, template[i]),
    ensures
        r1.len() == r2.len(),
        forall|i: int|
            0 <= i < r1.len() ==> {
                &&& (#[trigger] r1[i]).root == r2[i].root
                &&& r1[i].slots == r2[i].slots
                &&& r1[i].suffix@ == r2[i].suffix@
                &&& chord_notes(r1[i].root, r1[i].slots) == chord_notes(r2[i].root, r2[i].slots)
                &&& note_name(r1[i].root) + r1[i].suffix@ == note_name(r2[i].root) + r2[i].suffix@
            },
{
}

} // verus!
