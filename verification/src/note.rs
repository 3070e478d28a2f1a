//! The note algebra: a spelled pitch class as a recursive value (a natural
//! letter name, or a sharp or flat wrapped around another note), with its
//! chromatic id, its display name, and canonicalizing accidental operations.

use vstd::prelude::*;

verus! {

/// One spelled pitch: a natural letter name, or `Sharp`/`Flat` applied to
/// another note. Values may nest arbitrarily; `sharpen` and `flatten`
/// always return the canonical form (a letter with at most one accidental).
#[derive(Debug, PartialEq, Eq)]
pub enum Note {
    C,
    D,
    E,
    F,
    G,
    A,
    B,
    Sharp(Box<Note>),
    Flat(Box<Note>),
}

/// Chromatic pitch class of a note, in `[0, 11]`: the natural letters have
/// the fixed ids C:0 D:2 E:4 F:5 G:7 A:9 B:11, a sharp raises by one
/// semitone and a flat lowers by one, modulo 12.
pub open spec fn note_id(n: Note) -> int
    decreases n,
{
    match n {
        Note::C => 0,
        Note::D => 2,
        Note::E => 4,
        Note::F => 5,
        Note::G => 7,
        Note::A => 9,
        Note::B => 11,
        Note::Sharp(m) => (note_id(*m) + 1) % 12,
        Note::Flat(m) => (note_id(*m) + 11) % 12,
    }
}

/// Display spelling of a note: letters render as themselves, a sharp
/// appends `♯`, a flat appends `♭`.
pub open spec fn note_name(n: Note) -> Seq<char>
    decreases n,
{
    match n {
        Note::C => "C"@,
        Note::D => "D"@,
        Note::E => "E"@,
        Note::F => "F"@,
        Note::G => "G"@,
        Note::A => "A"@,
        Note::B => "B"@,
        Note::Sharp(m) => note_name(*m) + "♯"@,
        Note::Flat(m) => note_name(*m) + "♭"@,
    }
}

/// Position of a note's underlying letter name in the diatonic cycle
/// C D E F G A B, as an index in `[0, 6]`.
pub open spec fn letter_index(n: Note) -> int
    decreases n,
{
    match n {
        Note::C => 0,
        Note::D => 1,
        Note::E => 2,
        Note::F => 3,
        Note::G => 4,
        Note::A => 5,
        Note::B => 6,
        Note::Sharp(m) => letter_index(*m),
        Note::Flat(m) => letter_index(*m),
    }
}

/// True of the seven natural letter names.
pub open spec fn is_letter(n: Note) -> bool {
    match n {
        Note::Sharp(_) => false,
        Note::Flat(_) => false,
        _ => true,
    }
}

/// A canonical note is a letter name with at most one accidental.
pub open spec fn is_canonical(n: Note) -> bool {
    match n {
        Note::Sharp(m) => is_letter(*m),
        Note::Flat(m) => is_letter(*m),
        _ => true,
    }
}

/// One sharp applied to a canonical note, staying canonical: a letter takes
/// a sharp; a sharpened letter moves to the next letter (the native
/// semitone steps E→F and B→C keep one sharp); a flat cancels.
pub open spec fn sharp_of(n: Note) -> Note {
    match n {
        Note::Sharp(m) => match *m {
            Note::C => Note::D,
            Note::D => Note::E,
            Note::E => Note::Sharp(Box::new(Note::F)),
            Note::F => Note::G,
            Note::G => Note::A,
            Note::A => Note::B,
            Note::B => Note::Sharp(Box::new(Note::C)),
            _ => n,
        },
        Note::Flat(m) => *m,
        _ => Note::Sharp(Box::new(n)),
    }
}

/// One flat applied to a canonical note, staying canonical: a letter takes
/// a flat; a flattened letter moves to the previous letter (the native
/// semitone steps C→B and F→E keep one flat); a sharp cancels.
pub open spec fn flat_of(n: Note) -> Note {
    match n {
        Note::Flat(m) => match *m {
            Note::C => Note::Flat(Box::new(Note::B)),
            Note::D => Note::C,
            Note::E => Note::D,
            Note::F => Note::Flat(Box::new(Note::E)),
            Note::G => Note::F,
            Note::A => Note::G,
            Note::B => Note::A,
            _ => n,
        },
        Note::Sharp(m) => *m,
        _ => Note::Flat(Box::new(n)),
    }
}

/// The note one semitone above a canonical note, spelled so that interval
/// chains stay letter-correct: a letter rises to the flat of the next
/// letter (or to the plain letter across the native semitone steps E→F and
/// B→C), a sharpened letter resolves upward as `sharp_of`, and a flattened
/// letter rises back to its natural letter — except E♭ and B♭, whose
/// naturals sit a whole tone up, so they rise to F♭ and C♭ instead.
pub open spec fn half_step_of(n: Note) -> Note {
    match n {
        Note::C => Note::Flat(Box::new(Note::D)),
        Note::D => Note::Flat(Box::new(Note::E)),
        Note::E => Note::F,
        Note::F => Note::Flat(Box::new(Note::G)),
        Note::G => Note::Flat(Box::new(Note::A)),
        Note::A => Note::Flat(Box::new(Note::B)),
        Note::B => Note::C,
        Note::Sharp(m) => match *m {
            Note::C => Note::D,
            Note::D => Note::E,
            Note::E => Note::Sharp(Box::new(Note::F)),
            Note::F => Note::G,
            Note::G => Note::A,
            Note::A => Note::B,
            Note::B => Note::Sharp(Box::new(Note::C)),
            _ => n,
        },
        Note::Flat(m) => match *m {
            Note::C => Note::C,
            Note::D => Note::D,
            Note::E => Note::Flat(Box::new(Note::F)),
            Note::F => Note::F,
            Note::G => Note::G,
            Note::A => Note::A,
            Note::B => Note::Flat(Box::new(Note::C)),
            _ => n,
        },
    }
}

/// The note one whole tone above a canonical note, spelled so that a flat
/// root keeps a flat spelling and a sharp root keeps a sharp spelling.
pub open spec fn whole_step_of(n: Note) -> Note {
    match n {
        Note::C => Note::D,
        Note::D => Note::E,
        Note::E => Note::Sharp(Box::new(Note::F)),
        Note::F => Note::G,
        Note::G => Note::A,
        Note::A => Note::B,
        Note::B => Note::Sharp(Box::new(Note::C)),
        Note::Sharp(m) => match *m {
            Note::C => Note::Sharp(Box::new(Note::D)),
            Note::D => Note::Sharp(Box::new(Note::E)),
            Note::E => Note::G,
            Note::F => Note::Sharp(Box::new(Note::G)),
            Note::G => Note::Sharp(Box::new(Note::A)),
            Note::A => Note::Sharp(Box::new(Note::B)),
            Note::B => Note::D,
            _ => n,
        },
        Note::Flat(m) => match *m {
            Note::C => Note::Flat(Box::new(Note::D)),
            Note::D => Note::Flat(Box::new(Note::E)),
            Note::E => Note::F,
            Note::F => Note::Flat(Box::new(Note::G)),
            Note::G => Note::Flat(Box::new(Note::A)),
            Note::A => Note::Flat(Box::new(Note::B)),
            Note::B => Note::C,
            _ => n,
        },
    }
}

/// Canonical form of an arbitrarily nested note: accidentals are applied
/// innermost-first through `sharp_of` / `flat_of`, so any nesting collapses
/// to a letter with at most one accidental.
pub open spec fn canonical_form(n: Note) -> Note
    decreases n,
{
    match n {
        Note::Sharp(m) => sharp_of(canonical_form(*m)),
        Note::Flat(m) => flat_of(canonical_form(*m)),
        _ => n,
    }
}

/// What `sharpen` returns: on a flat-wrapped note the sharp cancels the
/// outer flat structurally, giving the canonical form of the wrapped note
/// itself; on anything else, one sharp applied to the canonical form.
pub open spec fn sharpened(n: Note) -> Note {
    match n {
        Note::Flat(m) => canonical_form(*m),
        _ => sharp_of(canonical_form(n)),
    }
}

/// What `flatten` returns: on a sharp-wrapped note the flat cancels the
/// outer sharp structurally, giving the canonical form of the wrapped note
/// itself; on anything else, one flat applied to the canonical form.
pub open spec fn flattened(n: Note) -> Note {
    match n {
        Note::Sharp(m) => canonical_form(*m),
        _ => flat_of(canonical_form(n)),
    }
}

/// A note's chromatic id lies in `[0, 11]`.
pub proof fn lemma_note_id_range(n: Note)
    ensures
        0 <= note_id(n) < 12,
{
    match n {
        Note::Sharp(_) => {},
        Note::Flat(_) => {},
        _ => {},
    }
}

/// `sharp_of` keeps a canonical note canonical and raises its id by one
/// semitone.
pub proof fn lemma_sharp_of(n: Note)
    requires
        is_canonical(n),
    ensures
        is_canonical(sharp_of(n)),
        note_id(sharp_of(n)) == (note_id(n) + 1) % 12,
{
    reveal_with_fuel(note_id, 3);
    match n {
        Note::Sharp(m) => {
            match *m {
                Note::C => {},
                Note::D => {},
                Note::E => {},
                Note::F => {},
                Note::G => {},
                Note::A => {},
                Note::B => {},
                _ => {},
            }
        },
        Note::Flat(m) => {
            lemma_note_id_range(*m);
        },
        _ => {},
    }
}

/// `flat_of` keeps a canonical note canonical and lowers its id by one
/// semitone.
pub proof fn lemma_flat_of(n: Note)
    requires
        is_canonical(n),
    ensures
        is_canonical(flat_of(n)),
        note_id(flat_of(n)) == (note_id(n) + 11) % 12,
{
    reveal_with_fuel(note_id, 3);
    match n {
        Note::Flat(m) => {
            match *m {
                Note::C => {},
                Note::D => {},
                Note::E => {},
                Note::F => {},
                Note::G => {},
                Note::A => {},
                Note::B => {},
                _ => {},
            }
        },
        Note::Sharp(m) => {
            lemma_note_id_range(*m);
        },
        _ => {},
    }
}

/// `half_step_of` keeps a canonical note canonical and raises its id by
/// one semitone.
pub proof fn lemma_half_step_of(n: Note)
    requires
        is_canonical(n),
    ensures
        is_canonical(half_step_of(n)),
        note_id(half_step_of(n)) == (note_id(n) + 1) % 12,
{
    reveal_with_fuel(note_id, 3);
    match n {
        Note::Sharp(m) => {
            match *m {
                Note::C => {},
                Note::D => {},
                Note::E => {},
                Note::F => {},
                Note::G => {},
                Note::A => {},
                Note::B => {},
                _ => {},
            }
        },
        Note::Flat(m) => {
            match *m {
                Note::C => {},
                Note::D => {},
                Note::E => {},
                Note::F => {},
                Note::G => {},
                Note::A => {},
                Note::B => {},
                _ => {},
            }
        },
        _ => {},
    }
}

/// `whole_step_of` keeps a canonical note canonical and raises its id by
/// two semitones.
pub proof fn lemma_whole_step_of(n: Note)
    requires
        is_canonical(n),
    ensures
        is_canonical(whole_step_of(n)),
        note_id(whole_step_of(n)) == (note_id(n) + 2) % 12,
{
    reveal_with_fuel(note_id, 3);
    match n {
        Note::Sharp(m) => {
            match *m {
                Note::C => {},
                Note::D => {},
                Note::E => {},
                Note::F => {},
                Note::G => {},
                Note::A => {},
                Note::B => {},
                _ => {},
            }
        },
        Note::Flat(m) => {
            match *m {
                Note::C => {},
                Note::D => {},
                Note::E => {},
                Note::F => {},
                Note::G => {},
                Note::A => {},
                Note::B => {},
                _ => {},
            }
        },
        _ => {},
    }
}

/// Canonicalization is total and preserves the chromatic id: every note
/// collapses to a letter with at most one accidental, at the same pitch.
pub proof fn lemma_canonical_form(n: Note)
    ensures
        is_canonical(canonical_form(n)),
        note_id(canonical_form(n)) == note_id(n),
    decreases n,
{
    match n {
        Note::Sharp(m) => {
            lemma_canonical_form(*m);
            lemma_sharp_of(canonical_form(*m));
        },
        Note::Flat(m) => {
            lemma_canonical_form(*m);
            lemma_flat_of(canonical_form(*m));
        },
        _ => {},
    }
}

/// A canonical note is already in canonical form.
pub proof fn lemma_canonical_fixed(n: Note)
    requires
        is_canonical(n),
    ensures
        canonical_form(n) == n,
{
    reveal_with_fuel(canonical_form, 3);
    match n {
        Note::Sharp(_) => {},
        Note::Flat(_) => {},
        _ => {},
    }
}

/// `sharpen` always returns a canonical note one semitone up.
pub proof fn lemma_sharpened_props(n: Note)
    ensures
        is_canonical(sharpened(n)),
        note_id(sharpened(n)) == (note_id(n) + 1) % 12,
{
    match n {
        Note::Flat(m) => {
            lemma_canonical_form(*m);
            lemma_note_id_range(*m);
        },
        _ => {
            lemma_canonical_form(n);
            lemma_sharp_of(canonical_form(n));
        },
    }
}

/// `flatten` always returns a canonical note one semitone down.
pub proof fn lemma_flattened_props(n: Note)
    ensures
        is_canonical(flattened(n)),
        note_id(flattened(n)) == (note_id(n) + 11) % 12,
{
    match n {
        Note::Sharp(m) => {
            lemma_canonical_form(*m);
            lemma_note_id_range(*m);
        },
        _ => {
            lemma_canonical_form(n);
            lemma_flat_of(canonical_form(n));
        },
    }
}

/// On a note already in canonical form, `sharpen` is exactly `sharp_of`.
pub(crate) proof fn lemma_sharpened_canonical(n: Note)
    requires
        is_canonical(n),
    ensures
        sharpened(n) == sharp_of(n),
{
    match n {
        Note::Flat(m) => {
            lemma_canonical_fixed(*m);
        },
        _ => {
            lemma_canonical_fixed(n);
        },
    }
}

/// Cancellation: a sharp applied to a flat-wrapped note, and a flat
/// applied to a sharp-wrapped note, cancel the outer pair structurally and
/// return the canonical form of the wrapped note itself — the spelling is
/// preserved, not merely the pitch class.
pub proof fn lemma_accidental_cancellation(m: Note)
    ensures
        sharpened(Note::Flat(Box::new(m))) == canonical_form(m),
        flattened(Note::Sharp(Box::new(m))) == canonical_form(m),
{
}

/// Round trip: sharpening then flattening (or flattening then sharpening)
/// returns to the same chromatic pitch class, for every note.
pub proof fn lemma_sharpen_flatten_round_trip(n: Note)
    ensures
        note_id(flattened(sharpened(n))) == note_id(n),
        note_id(sharpened(flattened(n))) == note_id(n),
{
    lemma_note_id_range(n);
    lemma_sharpened_props(n);
    lemma_flattened_props(sharpened(n));
    lemma_flattened_props(n);
    lemma_sharpened_props(flattened(n));
}

/// Sharpening twice raises the chromatic id by two semitones, for every
/// note.
pub proof fn lemma_double_sharpen_id(n: Note)
    ensures
        note_id(sharpened(sharpened(n))) == (note_id(n) + 2) % 12,
{
    lemma_note_id_range(n);
    lemma_sharpened_props(n);
    lemma_sharpened_props(sharpened(n));
}

/// Flattening twice lowers the chromatic id by two semitones, for every
/// note.
pub proof fn lemma_double_flatten_id(n: Note)
    ensures
        note_id(flattened(flattened(n))) == (note_id(n) + 10) % 12,
{
    lemma_note_id_range(n);
    lemma_flattened_props(n);
    lemma_flattened_props(flattened(n));
}

/// Canonicalization correctness of a double sharp: sharpening a letter
/// name twice lands on the letter one diatonic step up (never a nested
/// double-sharp structure), e.g. sharpening E twice spells F♯.
pub proof fn lemma_double_sharpen_letter(n: Note)
    requires
        is_letter(n),
    ensures
        is_canonical(sharpened(sharpened(n))),
        letter_index(sharpened(sharpened(n))) == (letter_index(n) + 1) % 7,
{
    reveal_with_fuel(letter_index, 3);
    match n {
        Note::Sharp(_) => {},
        Note::Flat(_) => {},
        _ => {},
    }
}

/// Canonicalization correctness of a double flat: flattening a letter name
/// twice lands on the letter one diatonic step down, e.g. flattening G
/// twice spells F.
pub proof fn lemma_double_flatten_letter(n: Note)
    requires
        is_letter(n),
    ensures
        is_canonical(flattened(flattened(n))),
        letter_index(flattened(flattened(n))) == (letter_index(n) + 6) % 7,
{
    reveal_with_fuel(letter_index, 3);
    match n {
        Note::Sharp(_) => {},
        Note::Flat(_) => {},
        _ => {},
    }
}

impl Note {
    /// Chromatic pitch class in `[0, 11]`.
    pub fn id(&self) -> (r: usize)
        ensures
            r == note_id(*self),
            r < 12,
        decreases *self,
    {
        match self {
            Note::C => 0,
            Note::D => 2,
            Note::E => 4,
            Note::F => 5,
            Note::G => 7,
            Note::A => 9,
            Note::B => 11,
            Note::Sharp(m) => (m.id() + 1) % 12,
            Note::Flat(m) => (m.id() + 11) % 12,
        }
    }

    /// Display spelling: letters render as themselves, `♯` and `♭` are
    /// appended for each accidental.
    pub fn name(&self) -> (r: String)
        ensures
            r@ == note_name(*self),
        decreases *self,
    {
        match self {
            Note::C => String::from_str("C"),
            Note::D => String::from_str("D"),
            Note::E => String::from_str("E"),
            Note::F => String::from_str("F"),
            Note::G => String::from_str("G"),
            Note::A => String::from_str("A"),
            Note::B => String::from_str("B"),
            Note::Sharp(m) => {
                let mut s = m.name();
                s.append("♯");
                s
            },
            Note::Flat(m) => {
                let mut s = m.name();
                s.append("♭");
                s
            },
        }
    }

    /// Canonical form: the same pitch as a letter with at most one
    /// accidental, with nested accidentals resolved innermost-first.
    pub fn canonical(&self) -> (r: Note)
        ensures
            r == canonical_form(*self),
            is_canonical(r),
            note_id(r) == note_id(*self),
        decreases *self,
    {
        proof {
            lemma_canonical_form(*self);
        }
        match self {
            Note::Sharp(m) => {
                let inner = m.canonical();
                sharp_canon(inner)
            },
            Note::Flat(m) => {
                let inner = m.canonical();
                flat_canon(inner)
            },
            _ => self.clone(),
        }
    }

    /// Apply one sharp, canonicalizing: a sharp on a flat-wrapped note
    /// cancels the outer flat, returning the canonical form of the wrapped
    /// note itself; a sharp on a sharpened letter resolves one letter step
    /// up.
    pub fn sharpen(&self) -> (r: Note)
        ensures
            r == sharpened(*self),
            is_canonical(r),
            note_id(r) == (note_id(*self) + 1) % 12,
    {
        proof {
            lemma_sharpened_props(*self);
        }
        match self {
            Note::Flat(m) => m.canonical(),
            _ => sharp_canon(self.canonical()),
        }
    }

    /// Apply one flat, canonicalizing: a flat on a sharp-wrapped note
    /// cancels the outer sharp, returning the canonical form of the
    /// wrapped note itself; a flat on a flattened letter resolves one
    /// letter step down.
    pub fn flatten(&self) -> (r: Note)
        ensures
            r == flattened(*self),
            is_canonical(r),
            note_id(r) == (note_id(*self) + 11) % 12,
    {
        proof {
            lemma_flattened_props(*self);
        }
        match self {
            Note::Sharp(m) => m.canonical(),
            _ => flat_canon(self.canonical()),
        }
    }
}

impl Clone for Note {
    /// An exact structural copy.
    fn clone(&self) -> (r: Self)
        ensures
            r == *self,
        decreases *self,
    {
        match self {
            Note::C => Note::C,
            Note::D => Note::D,
            Note::E => Note::E,
            Note::F => Note::F,
            Note::G => Note::G,
            Note::A => Note::A,
            Note::B => Note::B,
            Note::Sharp(m) => Note::Sharp(Box::new((**m).clone())),
            Note::Flat(m) => Note::Flat(Box::new((**m).clone())),
        }
    }
}

/// A spelled-note expression: a value that denotes one `Note`. The unit
/// types `C` through `B` and the wrappers `Sharp`/`Flat` compose into
/// expressions such as `Sharp(Sharp(E))`, which `note` lowers into the
/// recursive `Note` value they denote.
pub trait Spelling {
    /// The note value this expression denotes.
    spec fn spec_note(&self) -> Note;

    /// Build the denoted note value.
    fn note(&self) -> (n: Note)
        ensures
            n == self.spec_note(),
    ;
}

/// The natural note C, as an expression.
#[derive(Debug, Clone, Copy, PartialEq, Eq)]
pub struct C;

/// The natural note D, as an expression.
#[derive(Debug, Clone, Copy, PartialEq, Eq)]
pub struct D;

/// The natural note E, as an expression.
#[derive(Debug, Clone, Copy, PartialEq, Eq)]
pub struct E;

/// The natural note F, as an expression.
#[derive(Debug, Clone, Copy, PartialEq, Eq)]
pub struct F;

/// The natural note G, as an expression.
#[derive(Debug, Clone, Copy, PartialEq, Eq)]
pub struct G;

/// The natural note A, as an expression.
#[derive(Debug, Clone, Copy, PartialEq, Eq)]
pub struct A;

/// The natural note B, as an expression.
#[derive(Debug, Clone, Copy, PartialEq, Eq)]
pub struct B;

/// A sharp applied to a spelled-note expression.
#[derive(Debug, Clone, Copy, PartialEq, Eq)]
pub struct Sharp<N: Spelling>(pub N);

/// A flat applied to a spelled-note expression.
#[derive(Debug, Clone, Copy, PartialEq, Eq)]
pub struct Flat<N: Spelling>(pub N);

impl Spelling for C {
    open spec fn spec_note(&self) -> Note {
        Note::C
    }

    fn note(&self) -> (n: Note) {
        Note::C
    }
}

impl Spelling for D {
    open spec fn spec_note(&self) -> Note {
        Note::D
    }

    fn note(&self) -> (n: Note) {
        Note::D
    }
}

impl Spelling for E {
    open spec fn spec_note(&self) -> Note {
        Note::E
    }

    fn note(&self) -> (n: Note) {
        Note::E
    }
}

impl Spelling for F {
    open spec fn spec_note(&self) -> Note {
        Note::F
    }

    fn note(&self) -> (n: Note) {
        Note::F
    }
}

impl Spelling for G {
    open spec fn spec_note(&self) -> Note {
        Note::G
    }

    fn note(&self) -> (n: Note) {
        Note::G
    }
}

impl Spelling for A {
    open spec fn spec_note(&self) -> Note {
        Note::A
    }

    fn note(&self) -> (n: Note) {
        Note::A
    }
}

impl Spelling for B {
    open spec fn spec_note(&self) -> Note {
        Note::B
    }

    fn note(&self) -> (n: Note) {
        Note::B
    }
}

impl<N: Spelling> Spelling for Sharp<N> {
    open spec fn spec_note(&self) -> Note {
        Note::Sharp(Box::new(self.0.spec_note()))
    }

    fn note(&self) -> (n: Note) {
        Note::Sharp(Box::new(self.0.note()))
    }
}

impl<N: Spelling> Spelling for Flat<N> {
    open spec fn spec_note(&self) -> Note {
        Note::Flat(Box::new(self.0.spec_note()))
    }

    fn note(&self) -> (n: Note) {
        Note::Flat(Box::new(self.0.note()))
    }
}

/// Executable `sharp_of` on a canonical note.
pub(crate) fn sharp_canon(n: Note) -> (r: Note)
    requires
        is_canonical(n),
    ensures
        r == sharp_of(n),
{
    match n {
        Note::Sharp(m) => match *m {
            Note::C => Note::D,
            Note::D => Note::E,
            Note::E => Note::Sharp(Box::new(Note::F)),
            Note::F => Note::G,
            Note::G => Note::A,
            Note::A => Note::B,
            Note::B => Note::Sharp(Box::new(Note::C)),
            _ => {
                proof {
                    assert(false);
                }
                Note::C
            },
        },
        Note::Flat(m) => *m,
        other => Note::Sharp(Box::new(other)),
    }
}

/// Executable `flat_of` on a canonical note.
pub(crate) fn flat_canon(n: Note) -> (r: Note)
    requires
        is_canonical(n),
    ensures
        r == flat_of(n),
{
    match n {
        Note::Flat(m) => match *m {
            Note::C => Note::Flat(Box::new(Note::B)),
            Note::D => Note::C,
            Note::E => Note::D,
            Note::F => Note::Flat(Box::new(Note::E)),
            Note::G => Note::F,
            Note::A => Note::G,
            Note::B => Note::A,
            _ => {
                proof {
                    assert(false);
                }
                Note::C
            },
        },
        Note::Sharp(m) => *m,
        other => Note::Flat(Box::new(other)),
    }
}

/// Executable `half_step_of` on a canonical note.
pub(crate) fn half_step_canon(n: Note) -> (r: Note)
    requires
        is_canonical(n),
    ensures
        r == half_step_of(n),
        is_canonical(r),
        note_id(r) == (note_id(n) + 1) % 12,
{
    proof {
        lemma_half_step_of(n);
    }
    match n {
        Note::C => Note::Flat(Box::new(Note::D)),
        Note::D => Note::Flat(Box::new(Note::E)),
        Note::E => Note::F,
        Note::F => Note::Flat(Box::new(Note::G)),
        Note::G => Note::Flat(Box::new(Note::A)),
        Note::A => Note::Flat(Box::new(Note::B)),
        Note::B => Note::C,
        Note::Sharp(m) => match *m {
            Note::C => Note::D,
            Note::D => Note::E,
            Note::E => Note::Sharp(Box::new(Note::F)),
            Note::F => Note::G,
            Note::G => Note::A,
            Note::A => Note::B,
            Note::B => Note::Sharp(Box::new(Note::C)),
            _ => {
                proof {
                    assert(false);
                }
                Note::C
            },
        },
        Note::Flat(m) => match *m {
            Note::C => Note::C,
            Note::D => Note::D,
            Note::E => Note::Flat(Box::new(Note::F)),
            Note::F => Note::F,
            Note::G => Note::G,
            Note::A => Note::A,
            Note::B => Note::Flat(Box::new(Note::C)),
            _ => {
                proof {
                    assert(false);
                }
                Note::C
            },
        },
    }
}

/// Executable `whole_step_of` on a canonical note.
pub(crate) fn whole_step_canon(n: Note) -> (r: Note)
    requires
        is_canonical(n),
    ensures
        r == whole_step_of(n),
        is_canonical(r),
        note_id(r) == (note_id(n) + 2) % 12,
{
    proof {
        lemma_whole_step_of(n);
    }
    match n {
        Note::C => Note::D,
        Note::D => Note::E,
        Note::E => Note::Sharp(Box::new(Note::F)),
        Note::F => Note::G,
        Note::G => Note::A,
        Note::A => Note::B,
        Note::B => Note::Sharp(Box::new(Note::C)),
        Note::Sharp(m) => match *m {
            Note::C => Note::Sharp(Box::new(Note::D)),
            Note::D => Note::Sharp(Box::new(Note::E)),
            Note::E => Note::G,
            Note::F => Note::Sharp(Box::new(Note::G)),
            Note::G => Note::Sharp(Box::new(Note::A)),
            Note::A => Note::Sharp(Box::new(Note::B)),
            Note::B => Note::D,
            _ => {
                proof {
                    assert(false);
                }
                Note::C
            },
        },
        Note::Flat(m) => match *m {
            Note::C => Note::Flat(Box::new(Note::D)),
            Note::D => Note::Flat(Box::new(Note::E)),
            Note::E => Note::F,
            Note::F => Note::Flat(Box::new(Note::G)),
            Note::G => Note::Flat(Box::new(Note::A)),
            Note::A => Note::Flat(Box::new(Note::B)),
            Note::B => Note::C,
            _ => {
                proof {
                    assert(false);
                }
                Note::C
            },
        },
    }
}

} // verus!
