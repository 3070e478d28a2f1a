//! Diatonic keys: a tonic and a mode determine seven spelled scale degrees.
//!
//! Degree I is the canonicalized tonic; each later degree is one whole or
//! half step above the previous one, following the mode's step pattern
//! (major W-W-H-W-W-W-H, natural minor W-H-W-W-H-W-W), so every degree's
//! pitch class matches the cumulative semitone sum from the tonic.

use crate::interval::lemma_mod12_shift;
use crate::interval::str_eq;
use crate::note::canonical_form;
use crate::note::half_step_canon;
use crate::note::half_step_of;
use crate::note::is_canonical;
use crate::note::is_letter;
use crate::note::lemma_canonical_form;
use crate::note::lemma_half_step_of;
use crate::note::lemma_note_id_range;
use crate::note::lemma_whole_step_of;
use crate::note::letter_index;
use crate::note::note_id;
use crate::note::whole_step_canon;
use crate::note::whole_step_of;
use crate::note::Note;
use crate::note::Spelling;
use vstd::prelude::*;

verus! {

/// The two supported diatonic modes.
#[derive(Debug, Clone, Copy, PartialEq, Eq)]
pub enum Mode {
    Major,
    NaturalMinor,
}

/// The rejection raised when a key is constructed from an unrecognized
/// mode token.
#[derive(Debug, Clone, Copy, PartialEq, Eq)]
pub struct InvalidModeError;

/// Which mode a construction token denotes, if any.
pub open spec fn mode_of_token(s: Seq<char>) -> Option<Mode> {
    if s == "major"@ {
        Some(Mode::Major)
    } else if s == "minor"@ {
        Some(Mode::NaturalMinor)
    } else {
        None
    }
}

impl Mode {
    /// Construct a mode from its token, rejecting unrecognized tokens at
    /// construction time.
    pub fn from_token(token: &str) -> (r: Result<Mode, InvalidModeError>)
        ensures
            mode_of_token(token@) matches Some(m) ==> r == Ok::<Mode, InvalidModeError>(m),
            mode_of_token(token@) is None ==> r == Err::<Mode, InvalidModeError>(InvalidModeError),
    {
        if str_eq(token, "major") {
            Ok(Mode::Major)
        } else if str_eq(token, "minor") {
            Ok(Mode::NaturalMinor)
        } else {
            Err(InvalidModeError)
        }
    }
}

/// Whether the step from degree `k` (0-based) to degree `k + 1` is a whole
/// tone in the given mode.
pub open spec fn step_is_tone(mode: Mode, k: int) -> bool {
    match mode {
        Mode::Major => k != 2,
        Mode::NaturalMinor => k != 1 && k != 4,
    }
}

/// Cumulative semitone distance of degree `i` (0-based) from the tonic:
/// 0 2 4 5 7 9 11 in major, 0 2 3 5 7 8 10 in natural minor.
pub open spec fn mode_offset(mode: Mode, i: int) -> int {
    match mode {
        Mode::Major => if i <= 0 {
            0
        } else if i == 1 {
            2
        } else if i == 2 {
            4
        } else if i == 3 {
            5
        } else if i == 4 {
            7
        } else if i == 5 {
            9
        } else {
            11
        },
        Mode::NaturalMinor => if i <= 0 {
            0
        } else if i == 1 {
            2
        } else if i == 2 {
            3
        } else if i == 3 {
            5
        } else if i == 4 {
            7
        } else if i == 5 {
            8
        } else {
            10
        },
    }
}

/// Scale degree `i` (0-based) of a key: the canonicalized tonic, stepped
/// up through the mode's whole/half step pattern.
pub open spec fn degree_spec(tonic: Note, mode: Mode, i: int) -> Note
    decreases i,
{
    if i <= 0 {
        canonical_form(tonic)
    } else {
        let prev = degree_spec(tonic, mode, i - 1);
        if step_is_tone(mode, i - 1) {
            whole_step_of(prev)
        } else {
            half_step_of(prev)
        }
    }
}

/// Every scale degree is canonical and sits exactly the mode's cumulative
/// semitone offset above the tonic's pitch class.
pub proof fn lemma_degree_spec_id(tonic: Note, mode: Mode, i: int)
    requires
        0 <= i < 7,
    ensures
        is_canonical(degree_spec(tonic, mode, i)),
        note_id(degree_spec(tonic, mode, i)) == (note_id(tonic) + mode_offset(mode, i)) % 12,
    decreases i,
{
    lemma_note_id_range(tonic);
    if i == 0 {
        lemma_canonical_form(tonic);
    } else {
        lemma_degree_spec_id(tonic, mode, i - 1);
        let prev = degree_spec(tonic, mode, i - 1);
        if step_is_tone(mode, i - 1) {
            lemma_whole_step_of(prev);
            lemma_mod12_shift(note_id(tonic), mode_offset(mode, i - 1), 2);
        } else {
            lemma_half_step_of(prev);
            lemma_mod12_shift(note_id(tonic), mode_offset(mode, i - 1), 1);
        }
    }
}

/// A scale degree by name, I through VII.
#[derive(Debug, Clone, Copy, PartialEq, Eq)]
pub enum Degree {
    I,
    II,
    III,
    IV,
    V,
    VI,
    VII,
}

/// Zero-based position of a named scale degree.
pub open spec fn degree_number(d: Degree) -> int {
    match d {
        Degree::I => 0,
        Degree::II => 1,
        Degree::III => 2,
        Degree::IV => 3,
        Degree::V => 4,
        Degree::VI => 5,
        Degree::VII => 6,
    }
}

/// A diatonic key: a tonic, a mode, and the seven scale degrees they
/// determine.
#[derive(Debug, PartialEq, Eq)]
pub struct Key {
    pub tonic: Note,
    pub mode: Mode,
    pub degrees: Vec<Note>,
}

impl Key {
    /// Well-formedness: exactly seven degrees, each the one the tonic and
    /// mode determine.
    pub open spec fn wf(&self) -> bool {
        &&& self.degrees@.len() == 7
        &&& forall|i: int|
            0 <= i < 7 ==> self.degrees@[i] == degree_spec(self.tonic, self.mode, i)
    }

    /// Build the key of a tonic and mode. Total: every note and mode value
    /// yields a key whose degrees follow the mode's step pattern.
    pub fn build(tonic: Note, mode: Mode) -> (k: Key)
        ensures
            k.wf(),
            k.tonic == tonic,
            k.mode == mode,
            forall|i: int|
                0 <= i < 7 ==> note_id(k.degrees@[i]) == (note_id(tonic) + mode_offset(
                    mode,
                    i,
                )) % 12,
    {
        let d0 = tonic.canonical();
        let d1 = next_degree(mode, 0, &d0);
        let d2 = next_degree(mode, 1, &d1);
        let d3 = next_degree(mode, 2, &d2);
        let d4 = next_degree(mode, 3, &d3);
        let d5 = next_degree(mode, 4, &d4);
        let d6 = next_degree(mode, 5, &d5);
        let mut degrees: Vec<Note> = Vec::new();
        degrees.push(d0);
        degrees.push(d1);
        degrees.push(d2);
        degrees.push(d3);
        degrees.push(d4);
        degrees.push(d5);
        degrees.push(d6);
        let k = Key { tonic, mode, degrees };
        proof {
            reveal_with_fuel(degree_spec, 8);
            assert forall|i: int| 0 <= i < 7 implies note_id(k.degrees@[i]) == (note_id(tonic)
                + mode_offset(mode, i)) % 12 by {
                lemma_degree_spec_id(tonic, mode, i);
            }
        }
        k
    }

    /// Degree I, the canonicalized tonic.
    pub fn i(&self) -> (r: Note)
        requires
            self.wf(),
        ensures
            r == degree_spec(self.tonic, self.mode, 0),
    {
        self.degrees[0].clone()
    }

    /// Degree II.
    pub fn ii(&self) -> (r: Note)
        requires
            self.wf(),
        ensures
            r == degree_spec(self.tonic, self.mode, 1),
    {
        self.degrees[1].clone()
    }

    /// Degree III.
    pub fn iii(&self) -> (r: Note)
        requires
            self.wf(),
        ensures
            r == degree_spec(self.tonic, self.mode, 2),
    {
        self.degrees[2].clone()
    }

    /// Degree IV.
    pub fn iv(&self) -> (r: Note)
        requires
            self.wf(),
        ensures
            r == degree_spec(self.tonic, self.mode, 3),
    {
        self.degrees[3].clone()
    }

    /// Degree V.
    pub fn v(&self) -> (r: Note)
        requires
            self.wf(),
        ensures
            r == degree_spec(self.tonic, self.mode, 4),
    {
        self.degrees[4].clone()
    }

    /// Degree VI.
    pub fn vi(&self) -> (r: Note)
        requires
            self.wf(),
        ensures
            r == degree_spec(self.tonic, self.mode, 5),
    {
        self.degrees[5].clone()
    }

    /// Degree VII.
    pub fn vii(&self) -> (r: Note)
        requires
            self.wf(),
        ensures
            r == degree_spec(self.tonic, self.mode, 6),
    {
        self.degrees[6].clone()
    }

    /// The degree with a given name.
    pub fn degree(&self, d: Degree) -> (r: Note)
        requires
            self.wf(),
        ensures
            r == degree_spec(self.tonic, self.mode, degree_number(d)),
    {
        match d {
            Degree::I => self.degrees[0].clone(),
            Degree::II => self.degrees[1].clone(),
            Degree::III => self.degrees[2].clone(),
            Degree::IV => self.degrees[3].clone(),
            Degree::V => self.degrees[4].clone(),
            Degree::VI => self.degrees[5].clone(),
            Degree::VII => self.degrees[6].clone(),
        }
    }

    /// All the degrees in order, for display and testing.
    pub fn as_sequence(&self) -> (r: Vec<Note>)
        ensures
            r@ == self.degrees@,
    {
        let mut v: Vec<Note> = Vec::new();
        let mut idx: usize = 0;
        while idx < self.degrees.len()
            invariant
                idx <= self.degrees@.len(),
                v@ == self.degrees@.subrange(0, idx as int),
            decreases self.degrees@.len() - idx,
        {
            v.push(self.degrees[idx].clone());
            proof {
                assert(v@ =~= self.degrees@.subrange(0, idx + 1));
            }
            idx = idx + 1;
        }
        proof {
            assert(v@ =~= self.degrees@);
        }
        v
    }
}

/// The degree one step after a previous degree, per the mode's pattern.
fn next_degree(mode: Mode, k: usize, prev: &Note) -> (r: Note)
    requires
        is_canonical(*prev),
        k < 6,
    ensures
        r == (if step_is_tone(mode, k as int) {
            whole_step_of(*prev)
        } else {
            half_step_of(*prev)
        }),
        is_canonical(r),
{
    let tone = match mode {
        Mode::Major => k != 2,
        Mode::NaturalMinor => k != 1 && k != 4,
    };
    if tone {
        whole_step_canon(prev.clone())
    } else {
        half_step_canon(prev.clone())
    }
}

/// A key expression: a value that denotes one `Key`. `MajorKey` and
/// `MinorKey` bind a spelled-note expression as the tonic.
pub trait KeyForm {
    /// The tonic of the denoted key.
    spec fn spec_tonic(&self) -> Note;

    /// The mode of the denoted key.
    spec fn spec_mode(&self) -> Mode;

    /// Build the denoted key.
    fn key(&self) -> (k: Key)
        ensures
            k.wf(),
            k.tonic == self.spec_tonic(),
            k.mode == self.spec_mode(),
    ;
}

/// The major key of a tonic expression.
#[derive(Debug, Clone, Copy, PartialEq, Eq)]
pub struct MajorKey<T: Spelling>(pub T);

/// The natural-minor key of a tonic expression.
#[derive(Debug, Clone, Copy, PartialEq, Eq)]
pub struct MinorKey<T: Spelling>(pub T);

impl<T: Spelling> KeyForm for MajorKey<T> {
    open spec fn spec_tonic(&self) -> Note {
        self.0.spec_note()
    }

    open spec fn spec_mode(&self) -> Mode {
        Mode::Major
    }

    fn key(&self) -> (k: Key) {
        Key::build(self.0.note(), Mode::Major)
    }
}

impl<T: Spelling> KeyForm for MinorKey<T> {
    open spec fn spec_tonic(&self) -> Note {
        self.0.spec_note()
    }

    open spec fn spec_mode(&self) -> Mode {
        Mode::NaturalMinor
    }

    fn key(&self) -> (k: Key) {
        Key::build(self.0.note(), Mode::NaturalMinor)
    }
}

/// The tonic/mode combinations that occur as real key signatures: these
/// are the keys whose seven degrees can be spelled with single accidentals
/// and one letter name each.
pub open spec fn real_signature(tonic: Note, mode: Mode) -> bool {
    match mode {
        Mode::Major => match tonic {
            Note::Sharp(m) => *m == Note::C || *m == Note::F,
            Note::Flat(m) => is_letter(*m) && *m != Note::F,
            _ => true,
        },
        Mode::NaturalMinor => match tonic {
            Note::Sharp(m) => *m == Note::A || *m == Note::C || *m == Note::D || *m == Note::F
                || *m == Note::G,
            Note::Flat(m) => *m == Note::A || *m == Note::B || *m == Note::E,
            _ => true,
        },
    }
}

/// In every real key signature, the seven degrees cycle through all seven
/// letter names starting from the tonic's letter: degree `i` sits `i`
/// letter steps beyond the tonic, so each letter name is used exactly once
/// (no repeats, no gaps).
pub proof fn lemma_real_signature_letters(tonic: Note, mode: Mode)
    requires
        real_signature(tonic, mode),
    ensures
        forall|i: int|
            0 <= i < 7 ==> letter_index(degree_spec(tonic, mode, i)) == (letter_index(tonic)
                + i) % 7,
{
    reveal_with_fuel(degree_spec, 8);
    reveal_with_fuel(letter_index, 3);
    reveal_with_fuel(canonical_form, 3);
    assert(letter_index(degree_spec(tonic, mode, 0)) == (letter_index(tonic) + 0) % 7);
    assert(letter_index(degree_spec(tonic, mode, 1)) == (letter_index(tonic) + 1) % 7);
    assert(letter_index(degree_spec(tonic, mode, 2)) == (letter_index(tonic) + 2) % 7);
    assert(letter_index(degree_spec(tonic, mode, 3)) == (letter_index(tonic) + 3) % 7);
    assert(letter_index(degree_spec(tonic, mode, 4)) == (letter_index(tonic) + 4) % 7);
    assert(letter_index(degree_spec(tonic, mode, 5)) == (letter_index(tonic) + 5) % 7);
    assert(letter_index(degree_spec(tonic, mode, 6)) == (letter_index(tonic) + 6) % 7);
    assert forall|i: int| 0 <= i < 7 implies letter_index(degree_spec(tonic, mode, i)) == (
    letter_index(tonic) + i) % 7 by {
        if i == 0 {
        } else if i == 1 {
        } else if i == 2 {
        } else if i == 3 {
        } else if i == 4 {
        } else if i == 5 {
        } else {
        }
    }
}

/// The real-signature keys whose degrees take no flats (the others take no
/// sharps; C major and A minor take neither and appear here).
pub open spec fn sharp_signature(tonic: Note, mode: Mode) -> bool {
    match mode {
        Mode::Major => match tonic {
            Note::Sharp(_) => true,
            Note::Flat(_) => false,
            Note::F => false,
            _ => true,
        },
        Mode::NaturalMinor => match tonic {
            Note::Sharp(_) => true,
            Note::Flat(_) => false,
            Note::A => true,
            Note::B => true,
            Note::E => true,
            _ => false,
        },
    }
}

/// In a sharp-side real signature no degree is flattened.
proof fn lemma_unmixed_sharp_side(tonic: Note, mode: Mode)
    requires
        real_signature(tonic, mode),
        sharp_signature(tonic, mode),
    ensures
        forall|i: int|
            0 <= i < 7 ==> !((#[trigger] degree_spec(tonic, mode, i)) matches Note::Flat(_)),
{
    reveal_with_fuel(degree_spec, 8);
    reveal_with_fuel(canonical_form, 3);
    assert(!(degree_spec(tonic, mode, 0) matches Note::Flat(_)));
    assert(!(degree_spec(tonic, mode, 1) matches Note::Flat(_)));
    assert(!(degree_spec(tonic, mode, 2) matches Note::Flat(_)));
    assert(!(degree_spec(tonic, mode, 3) matches Note::Flat(_)));
    assert(!(degree_spec(tonic, mode, 4) matches Note::Flat(_)));
    assert(!(degree_spec(tonic, mode, 5) matches Note::Flat(_)));
    assert(!(degree_spec(tonic, mode, 6) matches Note::Flat(_)));
    assert forall|i: int| 0 <= i < 7 implies !((#[trigger] degree_spec(tonic, mode, i))
        matches Note::Flat(_)) by {
        if i == 0 {
        } else if i == 1 {
        } else if i == 2 {
        } else if i == 3 {
        } else if i == 4 {
        } else if i == 5 {
        } else {
        }
    }
}

/// In a flat-side real signature no degree is sharpened.
proof fn lemma_unmixed_flat_side(tonic: Note, mode: Mode)
    requires
        real_signature(tonic, mode),
        !sharp_signature(tonic, mode),
    ensures
        forall|i: int|
            0 <= i < 7 ==> !((#[trigger] degree_spec(tonic, mode, i)) matches Note::Sharp(_)),
{
    reveal_with_fuel(degree_spec, 8);
    reveal_with_fuel(canonical_form, 3);
    assert(!(degree_spec(tonic, mode, 0) matches Note::Sharp(_)));
    assert(!(degree_spec(tonic, mode, 1) matches Note::Sharp(_)));
    assert(!(degree_spec(tonic, mode, 2) matches Note::Sharp(_)));
    assert(!(degree_spec(tonic, mode, 3) matches Note::Sharp(_)));
    assert(!(degree_spec(tonic, mode, 4) matches Note::Sharp(_)));
    assert(!(degree_spec(tonic, mode, 5) matches Note::Sharp(_)));
    assert(!(degree_spec(tonic, mode, 6) matches Note::Sharp(_)));
    assert forall|i: int| 0 <= i < 7 implies !((#[trigger] degree_spec(tonic, mode, i))
        matches Note::Sharp(_)) by {
        if i == 0 {
        } else if i == 1 {
        } else if i == 2 {
        } else if i == 3 {
        } else if i == 4 {
        } else if i == 5 {
        } else {
        }
    }
}

/// In every real key signature the seven degrees never mix accidentals:
/// no degree is flattened, or no degree is sharpened.
pub proof fn lemma_real_signature_unmixed(tonic: Note, mode: Mode)
    requires
        real_signature(tonic, mode),
    ensures
        (forall|i: int|
            0 <= i < 7 ==> !((#[trigger] degree_spec(tonic, mode, i)) matches Note::Flat(_)))
            || (forall|i: int|
            0 <= i < 7 ==> !((#[trigger] degree_spec(tonic, mode, i)) matches Note::Sharp(_))),
{
    if sharp_signature(tonic, mode) {
        lemma_unmixed_sharp_side(tonic, mode);
    } else {
        lemma_unmixed_flat_side(tonic, mode);
    }
}

} // verus!
