//! The track: a cursor over a table of 32 notes, stepped once per tick.

use vstd::prelude::*;

use crate::tone::{tone_sub, ToneParams, ToneRegisters};

verus! {

/// The frequency of each note that a track can play, in Hz, lowest first.
pub const TRACK_NOTES: [u16; 37] = [
    130, 140, 150, 160, 170, 180, 190, 200, 210,
    220, 230, 250, 260, 280, 290, 310, 330, 350,
    370, 390, 410, 440, 460, 490, 520, 550, 600,
    620, 660, 700, 750, 780, 840, 880, 940, 980,
    1000,
];

/// The instruments, each a channel and a waveform mode.
pub const TRACK_INSTRUMENTS: [(u32, u32); 9] = [
    // Channel 2.
    (2, 0),  // Triangle
    // Channel 0.
    (0, 2),  // Square
    (0, 3),  // Pulse wide
    (0, 1),  // Pulse narrow
    (0, 0),  // Sawtooth
    // Channel 1.
    (1, 2),  // Square
    (1, 3),  // Pulse wide
    (1, 1),  // Pulse narrow
    (1, 0),  // Sawtooth
];

/// The note of an empty slot: it plays nothing.
pub const TRACK_OPCODE_EMPTY: u8 = 0xFF;

/// The note that ends a track: it plays nothing and sends the cursor back to
/// the first slot.
pub const TRACK_OPCODE_END: u8 = 0xFE;

/// A sound track: one voice of a piece of music.
///
/// Each slot of `tones` is a note, the number of beats it is held, and a
/// flags byte that is kept and never read.
#[derive(Debug, PartialEq, Eq)]
pub struct Track {
    /// The slot that the next step reads.
    next: usize,
    /// Ticks left before the next slot is read.
    wait: u16,
    /// Ticks per beat.
    ticks: u8,
    /// The instrument, read modulo the length of `TRACK_INSTRUMENTS`.
    instrument: u8,
    /// The volume of every tone of this track.
    volume: u8,
    /// Two bytes reserved for opcodes. Nothing reads them.
    flags: (u8, u8),
    /// The note table.
    tones: [(u8, u8, u8); 32],
}

/// What a track holds, as plain mathematical values.
pub struct TrackView {
    pub next: nat,
    pub wait: nat,
    pub ticks: u8,
    pub instrument: u8,
    pub volume: u8,
    pub flags: (u8, u8),
    pub tones: Seq<(u8, u8, u8)>,
}

/// The place in `TRACK_INSTRUMENTS` that a stored instrument byte selects.
pub open spec fn instrument_index(instrument: u8) -> int {
    instrument as int % TRACK_INSTRUMENTS@.len() as int
}

impl TrackView {
    /// The table has 32 slots and the cursor points at one of them.
    pub open spec fn wf(self) -> bool {
        &&& self.tones.len() == 32
        &&& self.next < self.tones.len()
    }

    /// The slot under the cursor.
    pub open spec fn current(self) -> (u8, u8, u8) {
        self.tones[self.next as int]
    }

    /// The tone that the next step plays: none while the track waits, and
    /// none for a note outside `TRACK_NOTES`.
    pub open spec fn tone(self) -> Option<ToneParams> {
        if self.wait == 0 && self.current().0 < TRACK_NOTES@.len() {
            Some(
                ToneParams {
                    freq1: TRACK_NOTES@[self.current().0 as int] as u32,
                    freq2: 0,
                    attack: 0,
                    decay: 0,
                    sustain: 0,
                    release: (self.current().1 * self.ticks) as u32,
                    volume: self.volume as u32,
                    channel: TRACK_INSTRUMENTS@[instrument_index(self.instrument)].0,
                    mode: TRACK_INSTRUMENTS@[instrument_index(self.instrument)].1,
                },
            )
        } else {
            None
        }
    }

    /// The register values of that tone, as `step` hands them out.
    pub open spec fn registers(self) -> Option<ToneRegisters> {
        match self.tone() {
            Some(params) => Some(params.packed()),
            None => None,
        }
    }

    /// The state after one step. A waiting track counts down by one. Else
    /// the cursor moves on by one slot, round the end of the table, or back
    /// to the start after the end opcode, and the wait is that of the slot
    /// it leaves.
    pub open spec fn step(self) -> TrackView {
        if self.wait > 0 {
            TrackView { wait: (self.wait - 1) as nat, ..self }
        } else {
            TrackView {
                next: if self.current().0 == TRACK_OPCODE_END {
                    0
                } else {
                    (self.next + 1) % self.tones.len()
                },
                wait: self.current().1 as nat,
                ..self
            }
        }
    }

    /// The state after `n` steps.
    pub open spec fn run(self, n: nat) -> TrackView
        decreases n,
    {
        if n == 0 {
            self
        } else {
            self.step().run((n - 1) as nat)
        }
    }
}

impl View for Track {
    type V = TrackView;

    closed spec fn view(&self) -> TrackView {
        TrackView {
            next: self.next as nat,
            wait: self.wait as nat,
            ticks: self.ticks,
            instrument: self.instrument,
            volume: self.volume,
            flags: self.flags,
            tones: self.tones@,
        }
    }
}

impl Track {
    /// Every track is well-formed, at all times.
    #[verifier::type_invariant]
    pub open spec fn inv(&self) -> bool {
        self@.wf()
    }

    /// A track at the start of `tones`, with one tick per beat, the first
    /// instrument and full volume.
    pub fn new(tones: [(u8, u8, u8); 32]) -> (track: Track)
        ensures
            track@ == (TrackView {
                next: 0,
                wait: 0,
                ticks: 1,
                instrument: 0,
                volume: 100,
                flags: (0, 0),
                tones: tones@,
            }),
    {
        Track { next: 0, wait: 0, ticks: 1, instrument: 0, volume: 100, flags: (0, 0), tones }
    }

    /// The slot that the next step reads.
    pub fn next(&self) -> (next: usize)
        ensures
            next == self@.next,
            next < 32,
    {
        proof {
            use_type_invariant(self);
        }
        self.next
    }

    /// Ticks left before the next slot is read.
    pub fn wait(&self) -> (wait: u16)
        ensures
            wait == self@.wait,
    {
        self.wait
    }

    /// Ticks per beat.
    pub fn ticks(&self) -> (ticks: u8)
        ensures
            ticks == self@.ticks,
    {
        self.ticks
    }

    /// The instrument byte, as stored.
    pub fn instrument(&self) -> (instrument: u8)
        ensures
            instrument == self@.instrument,
    {
        self.instrument
    }

    /// The volume of every tone of this track.
    pub fn volume(&self) -> (volume: u8)
        ensures
            volume == self@.volume,
    {
        self.volume
    }

    /// The two bytes reserved for opcodes.
    pub fn flags(&self) -> (flags: (u8, u8))
        ensures
            flags == self@.flags,
    {
        self.flags
    }

    /// The note table.
    pub fn tones(&self) -> (tones: &[(u8, u8, u8); 32])
        ensures
            tones@ == self@.tones,
    {
        &self.tones
    }

    /// Sets the ticks per beat.
    pub fn set_ticks(&mut self, ticks: u8)
        ensures
            final(self)@ == (TrackView { ticks, ..old(self)@ }),
    {
        proof {
            use_type_invariant(&*self);
        }
        self.ticks = ticks;
    }

    /// Sets the instrument. Any byte is taken: a track reads it modulo the
    /// number of instruments.
    pub fn set_instrument(&mut self, instrument: u8)
        ensures
            final(self)@ == (TrackView { instrument, ..old(self)@ }),
    {
        proof {
            use_type_invariant(&*self);
        }
        self.instrument = instrument;
    }

    /// Sets the volume.
    pub fn set_volume(&mut self, volume: u8)
        ensures
            final(self)@ == (TrackView { volume, ..old(self)@ }),
    {
        proof {
            use_type_invariant(&*self);
        }
        self.volume = volume;
    }

    /// Sets the two bytes reserved for opcodes.
    pub fn set_flags(&mut self, flags: (u8, u8))
        ensures
            final(self)@ == (TrackView { flags, ..old(self)@ }),
    {
        proof {
            use_type_invariant(&*self);
        }
        self.flags = flags;
    }

    /// Rewinds the track to its first slot and clears the wait. Nothing
    /// else changes.
    pub fn reset(&mut self)
        ensures
            final(self)@ == (TrackView { next: 0, wait: 0, ..old(self)@ }),
    {
        proof {
            use_type_invariant(&*self);
        }
        self.next = 0;
        self.wait = 0;
    }

    /// Advances the track by one tick. Returns the registers of the tone to
    /// play on this tick, if one is due.
    pub fn step(&mut self) -> (tone: Option<ToneRegisters>)
        ensures
            final(self)@ == old(self)@.step(),
            tone == old(self)@.registers(),
    {
        proof {
            use_type_invariant(&*self);
        }
        if self.wait == 0 {
            let slot: (u8, u8, u8) = self.tones[self.next];
            let note: u8 = slot.0;
            let wait: u8 = slot.1;

            let instrument: usize = (self.instrument as usize) % TRACK_INSTRUMENTS.len();

            let mut tone: Option<ToneRegisters> = None;
            if (note as usize) < TRACK_NOTES.len() {
                // The held time is counted in ticks. As a product of two
                // bytes it fits 16 bits.
                let beats: u32 = wait as u32;
                let ticks: u32 = self.ticks as u32;
                assert(beats * ticks <= 0xFFFF) by (nonlinear_arith)
                    requires
                        beats <= 0xFF,
                        ticks <= 0xFF,
                ;
                tone = Some(
                    tone_sub(
                        ToneParams {
                            freq1: TRACK_NOTES[note as usize] as u32,
                            freq2: 0,
                            attack: 0,
                            decay: 0,
                            sustain: 0,
                            release: beats * ticks,
                            volume: self.volume as u32,
                            channel: TRACK_INSTRUMENTS[instrument].0,
                            mode: TRACK_INSTRUMENTS[instrument].1,
                        },
                    ),
                );
            }

            self.next = (self.next + 1) % self.tones.len();
            self.wait = wait as u16;

            // The end opcode overrides the advance.
            if note == TRACK_OPCODE_END {
                self.next = 0;
            }
            tone
        } else {
            self.wait -= 1;
            None
        }
    }
}

impl Default for Track {
    /// A track of empty notes.
    fn default() -> (track: Track)
        ensures
            track@ == (TrackView {
                next: 0,
                wait: 0,
                ticks: 1,
                instrument: 0,
                volume: 100,
                flags: (0, 0),
                tones: Seq::new(32, |i: int| (TRACK_OPCODE_EMPTY, 255u8, 0u8)),
            }),
    {
        let track: Track = Track::new([(TRACK_OPCODE_EMPTY, 255, 0); 32]);
        assert(track@.tones =~= Seq::new(32, |i: int| (TRACK_OPCODE_EMPTY, 255u8, 0u8)));
        track
    }
}

/// Whatever byte a track holds as its instrument, the place it selects lies
/// within `TRACK_INSTRUMENTS`.
pub proof fn lemma_instrument_index_in_bounds(instrument: u8)
    ensures
        0 <= instrument_index(instrument) < TRACK_INSTRUMENTS@.len(),
{
}

/// A step keeps the cursor within the table.
pub proof fn lemma_step_keeps_wf(track: TrackView)
    requires
        track.wf(),
    ensures
        track.step().wf(),
{
}

/// While a track waits it only counts down: `n` steps, for `n` up to the
/// wait, lower the wait by `n` and change nothing else, and none of them
/// plays a tone.
pub proof fn lemma_wait_counts_down(track: TrackView, n: nat)
    requires
        n <= track.wait,
    ensures
        track.run(n) == (TrackView { wait: (track.wait - n) as nat, ..track }),
        forall|i: nat| i < n ==> (#[trigger] track.run(i)).registers() is None,
    decreases n,
{
    if n > 0 {
        lemma_wait_counts_down(track.step(), (n - 1) as nat);
        assert forall|i: nat| i < n implies (#[trigger] track.run(i)).registers() is None by {
            if i > 0 {
                assert(track.run(i) == track.step().run((i - 1) as nat));
            }
        }
    }
}

/// The registers of the tone that a track plays for a note of
/// `TRACK_NOTES`: the note's frequency alone; the held time, beats times
/// ticks, from bit 8 of the envelope upwards; the track's volume; and the
/// instrument's channel with its mode above it.
pub proof fn lemma_registers_of_note(track: TrackView)
    requires
        track.wait == 0,
        track.current().0 < TRACK_NOTES@.len(),
    ensures
        track.registers() == Some(
            ToneRegisters {
                frequency: TRACK_NOTES@[track.current().0 as int] as u32,
                envelope: (0x100 * (track.current().1 * track.ticks)) as u32,
                volume: track.volume as u32,
                flags: (TRACK_INSTRUMENTS@[instrument_index(track.instrument)].0 + 4
                    * TRACK_INSTRUMENTS@[instrument_index(track.instrument)].1) as u32,
            },
        ),
{
    let params: ToneParams = track.tone()->0;
    let f: u32 = params.freq1;
    assert(f | (0u32 << 16) == f) by (bit_vector);
    let beats: u8 = track.current().1;
    let ticks: u8 = track.ticks;
    assert(0 <= beats * ticks <= 0xFFFF) by (nonlinear_arith)
        requires
            0 <= beats <= 0xFF,
            0 <= ticks <= 0xFF,
    ;
    let r: u32 = params.release;
    assert((0u32 << 24) | (0u32 << 16) | 0u32 | (r << 8) == 0x100 * r) by (bit_vector)
        requires
            r <= 0xFFFF,
    ;
    let c: u32 = params.channel;
    let m: u32 = params.mode;
    assert(c | (m << 2) == c + 4 * m) by (bit_vector)
        requires
            c <= 3,
            m <= 3,
    ;
}

/// A slot that holds the empty opcode never plays a tone.
pub proof fn lemma_empty_note_is_silent(track: TrackView)
    requires
        track.current().0 == TRACK_OPCODE_EMPTY,
    ensures
        track.tone() is None,
        track.registers() is None,
{
}

/// A note at or beyond the end of `TRACK_NOTES` plays no tone, and the
/// track moves on from its slot as from any other.
pub proof fn lemma_note_out_of_range(track: TrackView)
    requires
        track.wait == 0,
        track.current().0 >= TRACK_NOTES@.len(),
    ensures
        track.registers() is None,
        track.step().wait == track.current().1,
        track.current().0 != TRACK_OPCODE_END ==> track.step().next == (track.next + 1)
            % track.tones.len(),
{
}

/// The end opcode plays no tone and takes the cursor back to the start,
/// wherever in the table it stands.
pub proof fn lemma_end_rewinds(track: TrackView)
    requires
        track.wait == 0,
        track.current().0 == TRACK_OPCODE_END,
    ensures
        track.registers() is None,
        track.step().next == 0,
        track.step().wait == track.current().1,
{
}

} // verus!
