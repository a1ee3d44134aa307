//! Melodies: fixed sequences of notes played on the buzzer.

use vstd::prelude::*;
use crate::action::{elapsed, elapsed_upto, fits_display, lemma_elapsed_concat, lemma_fits_concat, Action};

verus! {

/// One note of a melody.
#[derive(Clone, Copy, Debug, PartialEq, Eq)]
pub struct Note {
    /// Tone period; zero denotes silence.
    pub frequency: u32,
    /// How long the note sounds, in milliseconds.
    pub duration: u64,
}

impl Note {
    /// The buzzer call that starts the note: silence for frequency zero,
    /// otherwise the frequency's low sixteen bits at half duty.
    pub open spec fn tone(self) -> Action {
        if self.frequency == 0 {
            Action::ToneOff
        } else {
            Action::SetTone {
                frequency: (self.frequency % 0x10000) as u16,
                duty: ((self.frequency % 0x10000) / 2) as u16,
            }
        }
    }

    /// The two calls that play the note: start the tone, then hold it.
    pub open spec fn script(self) -> Seq<Action> {
        seq![self.tone(), Action::Sleep { millis: self.duration }]
    }

    /// Appends the calls that play the note.
    pub fn play(&self, out: &mut Vec<Action>)
        ensures
            final(out)@ == old(out)@ + self.script(),
    {
        if self.frequency == 0 {
            out.push(Action::ToneOff);
        } else {
            let top: u16 = (self.frequency % 0x10000) as u16;
            out.push(Action::SetTone { frequency: top, duty: top / 2 });
        }
        out.push(Action::Sleep { millis: self.duration });
    }
}

/// Sum of the durations of the first `k` notes.
pub open spec fn duration_upto(notes: Seq<Note>, k: int) -> nat
    decreases k,
{
    if k <= 0 {
        0
    } else {
        duration_upto(notes, k - 1) + notes[k - 1].duration as nat
    }
}

/// Sum of the durations of all notes.
pub open spec fn total_duration(notes: Seq<Note>) -> nat {
    duration_upto(notes, notes.len() as int)
}

/// The calls that play the first `k` notes in order.
pub open spec fn script_upto(notes: Seq<Note>, k: int) -> Seq<Action>
    decreases k,
{
    if k <= 0 {
        Seq::empty()
    } else {
        script_upto(notes, k - 1) + notes[k - 1].script()
    }
}

/// The calls that play all notes in order.
pub open spec fn script(notes: Seq<Note>) -> Seq<Action> {
    script_upto(notes, notes.len() as int)
}

/// The notes of the tune that announces a successful disarm.
pub open spec fn success_notes() -> Seq<Note> {
    seq![
        Note { frequency: 44000, duration: 500 },
        Note { frequency: 44000, duration: 500 },
        Note { frequency: 44000, duration: 500 },
        Note { frequency: 34900, duration: 350 },
        Note { frequency: 52300, duration: 150 },
        Note { frequency: 44000, duration: 500 },
        Note { frequency: 34900, duration: 350 },
        Note { frequency: 52300, duration: 150 },
        Note { frequency: 44000, duration: 650 },
    ]
}

/// A longer prefix of a melody lasts at least as long as a shorter one.
pub proof fn lemma_duration_monotonic(notes: Seq<Note>, i: int, j: int)
    requires
        i <= j,
    ensures
        duration_upto(notes, i) <= duration_upto(notes, j),
    decreases j - i,
{
    if i < j {
        lemma_duration_monotonic(notes, i, j - 1);
    }
}

/// A script plays two calls per note.
pub proof fn lemma_script_len(notes: Seq<Note>, k: int)
    requires
        0 <= k,
    ensures
        script_upto(notes, k).len() == 2 * k,
    decreases k,
{
    if k > 0 {
        lemma_script_len(notes, k - 1);
    }
}

/// Playing a melody takes exactly the sum of its notes' durations: every note
/// is held for its full length and nothing else waits.
pub proof fn lemma_script_elapsed(notes: Seq<Note>, k: int)
    requires
        0 <= k <= notes.len(),
    ensures
        elapsed(script_upto(notes, k)) == duration_upto(notes, k),
    decreases k,
{
    if k > 0 {
        lemma_script_elapsed(notes, k - 1);
        lemma_elapsed_concat(script_upto(notes, k - 1), notes[k - 1].script());
        let s = notes[k - 1].script();
        assert(elapsed(s) == notes[k - 1].duration as nat) by {
            reveal_with_fuel(elapsed_upto, 3);
        }
    }
}

/// Playing a melody never moves the display cursor.
pub proof fn lemma_script_fits_display(notes: Seq<Note>, k: int)
    ensures
        fits_display(script_upto(notes, k)),
    decreases k,
{
    if k > 0 {
        lemma_script_fits_display(notes, k - 1);
        lemma_fits_concat(script_upto(notes, k - 1), notes[k - 1].script());
    }
}

/// The success tune lasts 3650 milliseconds.
pub proof fn lemma_success_duration()
    ensures
        total_duration(success_notes()) == 3650,
{
    reveal_with_fuel(duration_upto, 10);
}

/// A fixed, ordered sequence of notes.
#[derive(Clone, Debug, PartialEq, Eq)]
pub struct Melody {
    notes: Vec<Note>,
}

impl View for Melody {
    type V = Seq<Note>;

    closed spec fn view(&self) -> Seq<Note> {
        self.notes@
    }
}

impl Melody {
    /// A melody of the given notes.
    pub fn new(notes: Vec<Note>) -> (melody: Melody)
        ensures
            melody@ == notes@,
    {
        Melody { notes }
    }

    /// The tune that announces a successful disarm.
    pub fn success() -> (melody: Melody)
        ensures
            melody@ == success_notes(),
    {
        let mut notes: Vec<Note> = Vec::new();
        notes.push(Note { frequency: 44000, duration: 500 });
        notes.push(Note { frequency: 44000, duration: 500 });
        notes.push(Note { frequency: 44000, duration: 500 });
        notes.push(Note { frequency: 34900, duration: 350 });
        notes.push(Note { frequency: 52300, duration: 150 });
        notes.push(Note { frequency: 44000, duration: 500 });
        notes.push(Note { frequency: 34900, duration: 350 });
        notes.push(Note { frequency: 52300, duration: 150 });
        notes.push(Note { frequency: 44000, duration: 650 });
        Melody { notes }
    }

    /// Number of notes.
    pub fn len(&self) -> (n: usize)
        ensures
            n == self@.len(),
    {
        self.notes.len()
    }

    /// The note at a position, if there is one.
    pub fn note(&self, index: usize) -> (note: Option<Note>)
        ensures
            note == if index < self@.len() {
                Some(self@[index as int])
            } else {
                None
            },
    {
        if index < self.notes.len() {
            Some(self.notes[index])
        } else {
            None
        }
    }

    /// Total playing time in milliseconds, or `None` when it does not fit in
    /// 64 bits.
    pub fn total_duration(&self) -> (total: Option<u64>)
        ensures
            match total {
                Some(t) => t == total_duration(self@),
                None => total_duration(self@) > u64::MAX,
            },
    {
        let mut sum: u64 = 0;
        let mut i: usize = 0;
        while i < self.notes.len()
            invariant
                i <= self.notes.len(),
                sum == duration_upto(self.notes@, i as int),
            decreases self.notes.len() - i,
        {
            match sum.checked_add(self.notes[i].duration) {
                Some(next) => {
                    sum = next;
                },
                None => {
                    proof {
                        lemma_duration_monotonic(
                            self.notes@,
                            i as int + 1,
                            self.notes@.len() as int,
                        );
                    }
                    return None;
                },
            }
            i = i + 1;
        }
        Some(sum)
    }

    /// Appends the calls that play the melody from its first note to its
    /// last.
    pub fn play(&self, out: &mut Vec<Action>)
        ensures
            final(out)@ == old(out)@ + script(self@),
    {
        let mut i: usize = 0;
        while i < self.notes.len()
            invariant
                i <= self.notes.len(),
                out@ == old(out)@ + script_upto(self.notes@, i as int),
            decreases self.notes.len() - i,
        {
            self.notes[i].play(out);
            assert(out@ =~= old(out)@ + script_upto(self.notes@, i as int + 1));
            i = i + 1;
        }
    }
}

} // verus!
