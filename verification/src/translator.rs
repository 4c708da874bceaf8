//! The event translator: a state machine that turns `(key, action)` events
//! into MIDI-style messages.
//!
//! The translator holds one two-state machine per physical key (idle or
//! sounding, with the sounding note number) and one global sustain flag.  A
//! press of an idle mapped key computes its note from the basis, the fixed
//! reference pitch and the transpose, and emits a note-on; a release of a
//! sounding key emits a note-off with the stored note; the sustain key maps
//! to control-change messages and never touches the per-key state; repeats
//! and duplicate presses are suppressed.  A computed note outside the MIDI
//! range `0..=127` rejects that single event and leaves the state unchanged.

use vstd::prelude::*;
use crate::keys::{Key, key_to_point, spec_key_to_point};
use crate::points::{BasisVector, Point, spec_offset_point};

verus! {

/// What happened to a physical key.
#[derive(Debug, Clone, Copy, PartialEq, Eq, Structural)]
pub enum KeyAction {
    Press,
    Release,
    Repeat,
}

/// A MIDI-style output message, one of the three shapes the translator
/// produces.
#[derive(Debug, Clone, Copy, PartialEq, Eq, Structural)]
pub enum MidiMessage {
    NoteOn { note: u8, velocity: u8 },
    NoteOff { note: u8, velocity: u8 },
    ControlChange { controller: u8, value: u8 },
}

/// Why an event produced no message.
#[derive(Debug, Clone, Copy, PartialEq, Eq, Structural)]
pub enum SkipReason {
    /// Host auto-repeat; suppressed so a held key does not retrigger.
    RepeatSuppressed,
    /// A press of a key that is already sounding; duplicate presses are
    /// idempotent.
    AlreadySounding,
    /// A release of a key that is not sounding.
    NotSounding,
    /// A key with no lattice point; ignored, not an error.
    UnmappedKey,
    /// The computed note falls outside `0..=127`; the event is rejected
    /// rather than wrapped.
    OutOfRange,
}

/// The translator's answer to one event: a message to transmit, or the
/// reason none is due.
#[derive(Debug, Clone, Copy, PartialEq, Eq, Structural)]
pub enum Response {
    Emit(MidiMessage),
    Skip(SkipReason),
}

/// The MIDI controller number of the sustain pedal.
pub const SUSTAIN_CONTROLLER: u8 = 64;

/// The reference note of the lattice origin before transposition (middle C).
pub const ORIGIN_NOTE: u8 = 60;

/// The velocity of every note-on the translator emits.
pub const NOTE_ON_VELOCITY: u8 = 64;

impl MidiMessage {
    /// The three-byte wire form of the message.
    pub fn to_bytes(&self) -> (r: (u8, u8, u8))
        ensures
            match *self {
                MidiMessage::NoteOn { note, velocity } => r == (0x90u8, note, velocity),
                MidiMessage::NoteOff { note, velocity } => r == (0x80u8, note, velocity),
                MidiMessage::ControlChange { controller, value } => r == (0xB0u8, controller, value),
            },
    {
        match *self {
            MidiMessage::NoteOn { note, velocity } => (0x90, note, velocity),
            MidiMessage::NoteOff { note, velocity } => (0x80, note, velocity),
            MidiMessage::ControlChange { controller, value } => (0xB0, controller, value),
        }
    }

    /// Whether the message is within the valid transmission ranges: note,
    /// velocity, controller and value all in `0..=127`.
    pub open spec fn valid(self) -> bool {
        match self {
            MidiMessage::NoteOn { note, velocity } => note <= 127 && velocity <= 127,
            MidiMessage::NoteOff { note, velocity } => note <= 127 && velocity <= 127,
            MidiMessage::ControlChange { controller, value } => controller <= 127 && value <= 127,
        }
    }
}

/// The note of point `p` under `basis` and `transpose`: the pitch offset of
/// `p`, anchored at the reference note.
pub open spec fn spec_note(basis: BasisVector, transpose: i8, p: Point) -> int {
    spec_offset_point(basis, p) + ORIGIN_NOTE + transpose as int
}

/// The message or skip that one event produces, given the sounding map `m`
/// and the fixed context.
pub open spec fn spec_response(
    m: Map<Key, u8>,
    basis: BasisVector,
    transpose: i8,
    key: Key,
    action: KeyAction,
) -> Response {
    if action is Repeat {
        Response::Skip(SkipReason::RepeatSuppressed)
    } else if key == Key::Space {
        if action is Press {
            Response::Emit(
                MidiMessage::ControlChange { controller: SUSTAIN_CONTROLLER, value: 127u8 },
            )
        } else {
            Response::Emit(
                MidiMessage::ControlChange { controller: SUSTAIN_CONTROLLER, value: 0u8 },
            )
        }
    } else {
        match spec_key_to_point(key) {
            None => Response::Skip(SkipReason::UnmappedKey),
            Some(p) => if action is Press {
                if m.contains_key(key) {
                    Response::Skip(SkipReason::AlreadySounding)
                } else if 0 <= spec_note(basis, transpose, p) <= 127 {
                    Response::Emit(
                        MidiMessage::NoteOn {
                            note: spec_note(basis, transpose, p) as u8,
                            velocity: NOTE_ON_VELOCITY,
                        },
                    )
                } else {
                    Response::Skip(SkipReason::OutOfRange)
                }
            } else {
                if m.contains_key(key) {
                    Response::Emit(MidiMessage::NoteOff { note: m[key], velocity: 0u8 })
                } else {
                    Response::Skip(SkipReason::NotSounding)
                }
            },
        }
    }
}

/// The sounding map after one event.
pub open spec fn spec_next_sounding(
    m: Map<Key, u8>,
    basis: BasisVector,
    transpose: i8,
    key: Key,
    action: KeyAction,
) -> Map<Key, u8> {
    if action is Repeat || key == Key::Space {
        m
    } else {
        match spec_key_to_point(key) {
            None => m,
            Some(p) => if action is Press {
                if !m.contains_key(key) && 0 <= spec_note(basis, transpose, p) <= 127 {
                    m.insert(key, spec_note(basis, transpose, p) as u8)
                } else {
                    m
                }
            } else {
                if m.contains_key(key) {
                    m.remove(key)
                } else {
                    m
                }
            },
        }
    }
}

/// The sustain flag after one event.
pub open spec fn spec_next_sustain(sustain: bool, key: Key, action: KeyAction) -> bool {
    if action is Repeat {
        sustain
    } else if key == Key::Space {
        action is Press
    } else {
        sustain
    }
}

/// The map an association sequence denotes: later entries win, though a
/// distinct-key sequence never relies on that.
pub open spec fn assoc_map(s: Seq<(Key, u8)>) -> Map<Key, u8>
    decreases s.len(),
{
    if s.len() == 0 {
        Map::empty()
    } else {
        assoc_map(s.drop_last()).insert(s.last().0, s.last().1)
    }
}

/// Whether the keys of an association sequence are pairwise distinct.
pub open spec fn distinct_keys(s: Seq<(Key, u8)>) -> bool {
    forall|i: int, j: int|
        #![trigger s[i], s[j]]
        0 <= i < j < s.len() ==> s[i].0 != s[j].0
}

/// A key is in the map of a sequence exactly when some entry holds it.
pub proof fn lemma_assoc_map_contains(s: Seq<(Key, u8)>, k: Key)
    ensures
        assoc_map(s).contains_key(k) <==> exists|i: int| 0 <= i < s.len() && (#[trigger] s[i]).0 == k,
    decreases s.len(),
{
    if s.len() == 0 {
    } else {
        lemma_assoc_map_contains(s.drop_last(), k);
        if s.last().0 == k {
            assert(s[s.len() - 1].0 == k);
        } else {
            if assoc_map(s).contains_key(k) {
                let i = choose|i: int| 0 <= i < s.drop_last().len() && (#[trigger] s.drop_last()[i]).0 == k;
                assert(s[i].0 == k);
            }
            if exists|i: int| 0 <= i < s.len() && (#[trigger] s[i]).0 == k {
                let i = choose|i: int| 0 <= i < s.len() && (#[trigger] s[i]).0 == k;
                assert(i < s.len() - 1);
                assert(s.drop_last()[i].0 == k);
            }
        }
    }
}

/// In a distinct-key sequence, the map sends each entry's key to its note.
pub proof fn lemma_assoc_map_value(s: Seq<(Key, u8)>, i: int)
    requires
        distinct_keys(s),
        0 <= i < s.len(),
    ensures
        assoc_map(s).contains_key(s[i].0),
        assoc_map(s)[s[i].0] == s[i].1,
    decreases s.len(),
{
    if i == s.len() - 1 {
    } else {
        assert(distinct_keys(s.drop_last()));
        assert(s.drop_last()[i] == s[i]);
        lemma_assoc_map_value(s.drop_last(), i);
        assert(s[i].0 != s.last().0);
    }
}

/// Appending an entry inserts its key into the map.
pub proof fn lemma_assoc_map_push(s: Seq<(Key, u8)>, k: Key, n: u8)
    ensures
        assoc_map(s.push((k, n))) == assoc_map(s).insert(k, n),
{
    assert(s.push((k, n)).drop_last() =~= s);
    assert(s.push((k, n)).last() == (k, n));
}

/// Removing the entry at `i` from a distinct-key sequence removes its key
/// from the map.
pub proof fn lemma_assoc_map_remove(s: Seq<(Key, u8)>, i: int)
    requires
        distinct_keys(s),
        0 <= i < s.len(),
    ensures
        assoc_map(s.remove(i)) == assoc_map(s).remove(s[i].0),
    decreases s.len(),
{
    if i == s.len() - 1 {
        assert(s.remove(i) =~= s.drop_last());
        lemma_assoc_map_contains(s.drop_last(), s[i].0);
        assert(forall|j: int| 0 <= j < s.drop_last().len() ==> (#[trigger] s.drop_last()[j]).0 != s[i].0);
        assert(!assoc_map(s.drop_last()).contains_key(s[i].0));
        assert(assoc_map(s.drop_last()).insert(s[i].0, s[i].1).remove(s[i].0) =~= assoc_map(
            s.drop_last(),
        ));
    } else {
        let dl = s.drop_last();
        assert(distinct_keys(dl));
        assert(dl[i] == s[i]);
        lemma_assoc_map_remove(dl, i);
        assert(s.remove(i).drop_last() =~= dl.remove(i));
        assert(s.remove(i).last() == s.last());
        assert(s[i].0 != s.last().0);
        assert(assoc_map(s.remove(i)) == assoc_map(dl.remove(i)).insert(s.last().0, s.last().1));
        assert(assoc_map(dl).remove(s[i].0).insert(s.last().0, s.last().1) =~= assoc_map(
            dl,
        ).insert(s.last().0, s.last().1).remove(s[i].0));
    }
}

/// The event translator: per-key sound state, the sustain flag, and the
/// fixed context the run was configured with.
pub struct Translator {
    basis: BasisVector,
    transpose: i8,
    sounding: Vec<(Key, u8)>,
    sustain: bool,
}

impl Translator {
    /// The active canonical basis.
    pub closed spec fn spec_basis(self) -> BasisVector {
        self.basis
    }

    /// The transpose in semitones.
    pub closed spec fn spec_transpose(self) -> i8 {
        self.transpose
    }

    /// The sounding keys and their notes.
    pub closed spec fn sounding_map(self) -> Map<Key, u8> {
        assoc_map(self.sounding@)
    }

    /// The sustain flag.
    pub closed spec fn spec_sustain(self) -> bool {
        self.sustain
    }

    /// Well-formedness: one state machine per key, every stored note in the
    /// MIDI range.
    pub closed spec fn wf(self) -> bool {
        &&& distinct_keys(self.sounding@)
        &&& forall|i: int|
            0 <= i < self.sounding@.len() ==> (#[trigger] self.sounding@[i]).1 <= 127
    }

    /// A fresh translator: nothing sounding, sustain off.
    pub fn new(basis: BasisVector, transpose: i8) -> (t: Translator)
        ensures
            t.wf(),
            t.spec_basis() == basis,
            t.spec_transpose() == transpose,
            t.sounding_map() == Map::<Key, u8>::empty(),
            t.spec_sustain() == false,
    {
        Translator { basis, transpose, sounding: Vec::new(), sustain: false }
    }

    /// Whether the sustain pedal is down.
    pub fn sustain_active(&self) -> (b: bool)
        ensures
            b == self.spec_sustain(),
    {
        self.sustain
    }

    /// The note a key currently sounds, if any.
    pub fn sounding_note(&self, key: Key) -> (r: Option<u8>)
        requires
            self.wf(),
        ensures
            match r {
                Some(n) => self.sounding_map().contains_key(key) && self.sounding_map()[key] == n,
                None => !self.sounding_map().contains_key(key),
            },
    {
        proof {
            lemma_assoc_map_contains(self.sounding@, key);
        }
        match find_key(&self.sounding, key) {
            Some(i) => {
                proof {
                    lemma_assoc_map_value(self.sounding@, i as int);
                }
                Some(self.sounding[i].1)
            },
            None => None,
        }
    }

    /// Drives one `(key, action)` event through the state machine and
    /// returns the message it produces, or why none is due.
    pub fn handle_event(&mut self, key: Key, action: KeyAction) -> (r: Response)
        requires
            old(self).wf(),
        ensures
            final(self).wf(),
            final(self).spec_basis() == old(self).spec_basis(),
            final(self).spec_transpose() == old(self).spec_transpose(),
            r == spec_response(
                old(self).sounding_map(),
                old(self).spec_basis(),
                old(self).spec_transpose(),
                key,
                action,
            ),
            final(self).sounding_map() == spec_next_sounding(
                old(self).sounding_map(),
                old(self).spec_basis(),
                old(self).spec_transpose(),
                key,
                action,
            ),
            final(self).spec_sustain() == spec_next_sustain(old(self).spec_sustain(), key, action),
    {
        match action {
            KeyAction::Repeat => {
                return Response::Skip(SkipReason::RepeatSuppressed);
            },
            _ => {},
        }
        if key == Key::Space {
            match action {
                KeyAction::Press => {
                    self.sustain = true;
                    Response::Emit(
                        MidiMessage::ControlChange { controller: SUSTAIN_CONTROLLER, value: 127 },
                    )
                },
                _ => {
                    self.sustain = false;
                    Response::Emit(
                        MidiMessage::ControlChange { controller: SUSTAIN_CONTROLLER, value: 0 },
                    )
                },
            }
        } else {
            match key_to_point(key) {
                None => Response::Skip(SkipReason::UnmappedKey),
                Some(p) => {
                    proof {
                        lemma_assoc_map_contains(self.sounding@, key);
                    }
                    let idx = find_key(&self.sounding, key);
                    match action {
                        KeyAction::Press => match idx {
                            Some(_) => Response::Skip(SkipReason::AlreadySounding),
                            None => {
                                let note_wide: i32 = compute_note(&self.basis, self.transpose, &p);
                                if 0 <= note_wide && note_wide <= 127 {
                                    let note: u8 = note_wide as u8;
                                    proof {
                                        lemma_assoc_map_push(self.sounding@, key, note);
                                        assert(distinct_keys(self.sounding@.push((key, note))));
                                    }
                                    self.sounding.push((key, note));
                                    Response::Emit(
                                        MidiMessage::NoteOn { note, velocity: NOTE_ON_VELOCITY },
                                    )
                                } else {
                                    Response::Skip(SkipReason::OutOfRange)
                                }
                            },
                        },
                        _ => match idx {
                            Some(i) => {
                                let note: u8 = self.sounding[i].1;
                                proof {
                                    lemma_assoc_map_value(self.sounding@, i as int);
                                    lemma_assoc_map_remove(self.sounding@, i as int);
                                    assert forall|a: int, b: int|
                                        0 <= a < b < self.sounding@.remove(i as int).len() implies (
                                        #[trigger] self.sounding@.remove(i as int)[a]).0 != (
                                        #[trigger] self.sounding@.remove(i as int)[b]).0 by {
                                        assert(self.sounding@.remove(i as int)[a] == if a < i {
                                            self.sounding@[a]
                                        } else {
                                            self.sounding@[a + 1]
                                        });
                                        assert(self.sounding@.remove(i as int)[b] == if b < i {
                                            self.sounding@[b]
                                        } else {
                                            self.sounding@[b + 1]
                                        });
                                    }
                                }
                                self.sounding.remove(i);
                                Response::Emit(MidiMessage::NoteOff { note, velocity: 0 })
                            },
                            None => Response::Skip(SkipReason::NotSounding),
                        },
                    }
                },
            }
        }
    }
}

/// Whether every note a sounding map stores lies in the MIDI range.
pub open spec fn notes_in_range(m: Map<Key, u8>) -> bool {
    forall|k: Key| #[trigger] m.contains_key(k) ==> m[k] <= 127
}

/// Every message emitted from a state whose notes are in range is a valid
/// MIDI message, and the next state's notes are in range again.
pub proof fn lemma_emitted_messages_valid(
    m: Map<Key, u8>,
    basis: BasisVector,
    transpose: i8,
    key: Key,
    action: KeyAction,
)
    requires
        notes_in_range(m),
    ensures
        (spec_response(m, basis, transpose, key, action) matches Response::Emit(msg)
            ==> msg.valid()),
        notes_in_range(spec_next_sounding(m, basis, transpose, key, action)),
{
}

/// Idempotence of presses: once a press of a key has emitted a note-on, a
/// second press of the same key without an intervening release emits
/// nothing and changes nothing, so exactly one note-on is produced.
pub proof fn lemma_press_idempotent(
    m: Map<Key, u8>,
    basis: BasisVector,
    transpose: i8,
    key: Key,
)
    ensures
        ({
            let r1 = spec_response(m, basis, transpose, key, KeyAction::Press);
            let m1 = spec_next_sounding(m, basis, transpose, key, KeyAction::Press);
            (r1 matches Response::Emit(MidiMessage::NoteOn { .. })) ==> {
                &&& spec_response(m1, basis, transpose, key, KeyAction::Press) == Response::Skip(
                    SkipReason::AlreadySounding,
                )
                &&& spec_next_sounding(m1, basis, transpose, key, KeyAction::Press) == m1
            }
        }),
{
}

/// Repeat suppression: a repeat action produces no message and changes no
/// state, whatever the key and however often it arrives.
pub proof fn lemma_repeat_suppressed(
    m: Map<Key, u8>,
    basis: BasisVector,
    transpose: i8,
    sustain: bool,
    key: Key,
)
    ensures
        spec_response(m, basis, transpose, key, KeyAction::Repeat) == Response::Skip(
            SkipReason::RepeatSuppressed,
        ),
        spec_next_sounding(m, basis, transpose, key, KeyAction::Repeat) == m,
        spec_next_sustain(sustain, key, KeyAction::Repeat) == sustain,
{
}

/// Sustain independence: an event of the sustain key never changes the
/// per-key sound state, and its response is a fixed function of the action
/// alone - in particular it does not consult the key-to-point table.
pub proof fn lemma_sustain_independent(
    m: Map<Key, u8>,
    basis: BasisVector,
    transpose: i8,
    sustain: bool,
    action: KeyAction,
)
    ensures
        spec_next_sounding(m, basis, transpose, Key::Space, action) == m,
        action is Press ==> spec_response(m, basis, transpose, Key::Space, action)
            == Response::Emit(
            MidiMessage::ControlChange { controller: SUSTAIN_CONTROLLER, value: 127u8 },
        ),
        action is Release ==> spec_response(m, basis, transpose, Key::Space, action)
            == Response::Emit(
            MidiMessage::ControlChange { controller: SUSTAIN_CONTROLLER, value: 0u8 },
        ),
        action is Repeat ==> spec_response(m, basis, transpose, Key::Space, action)
            == Response::Skip(SkipReason::RepeatSuppressed),
        spec_next_sustain(sustain, Key::Space, action) == (if action is Press {
            true
        } else if action is Release {
            false
        } else {
            sustain
        }),
{
}

/// Locality: an event of one key never changes the sound state of another.
pub proof fn lemma_other_keys_unchanged(
    m: Map<Key, u8>,
    basis: BasisVector,
    transpose: i8,
    key: Key,
    action: KeyAction,
    other: Key,
)
    requires
        other != key,
    ensures
        ({
            let m1 = spec_next_sounding(m, basis, transpose, key, action);
            &&& m1.contains_key(other) == m.contains_key(other)
            &&& m.contains_key(other) ==> m1[other] == m[other]
        }),
{
}

/// The index of a key's entry in the sounding list, if present.
fn find_key(v: &Vec<(Key, u8)>, k: Key) -> (r: Option<usize>)
    ensures
        match r {
            Some(i) => i < v@.len() && v@[i as int].0 == k,
            None => forall|i: int| 0 <= i < v@.len() ==> (#[trigger] v@[i]).0 != k,
        },
{
    let mut i: usize = 0;
    while i < v.len()
        invariant
            i <= v@.len(),
            forall|j: int| 0 <= j < i ==> (#[trigger] v@[j]).0 != k,
        decreases v@.len() - i,
    {
        if v[i].0 == k {
            return Some(i);
        }
        i = i + 1;
    }
    None
}

/// The note of point `p` under `basis` and `transpose`, in wide arithmetic
/// so that extreme bases cannot wrap; the caller checks the MIDI range.
fn compute_note(basis: &BasisVector, transpose: i8, p: &Point) -> (r: i32)
    ensures
        r == spec_note(*basis, transpose, *p),
{
    let bu: i32 = basis.0 as i32;
    let bv: i32 = basis.1 as i32;
    let u: i32 = p.0 as i32;
    let v: i32 = p.1 as i32;
    proof {
        assert(-32768 <= bu * v <= 32768) by (nonlinear_arith)
            requires
                -128 <= bu <= 127,
                -128 <= v <= 127,
        ;
        assert(-65536 <= (bv - bu) * u <= 65536) by (nonlinear_arith)
            requires
                -256 <= bv - bu <= 256,
                -128 <= u <= 127,
        ;
    }
    bu * v + (bv - bu) * u + 60 + (transpose as i32)
}

} // verus!
