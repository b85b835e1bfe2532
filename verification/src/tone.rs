//! The tone encoder: from named tone parameters to the chip's registers.

use vstd::prelude::*;

verus! {

/// The parameters of one tone.
///
/// The encoder takes any values. A value wider than its bit-field spills into
/// the neighbouring fields of the register, as it does on the chip.
#[derive(Clone, Copy, Debug, PartialEq, Eq)]
pub struct ToneParams {
    /// First frequency, 16 bits.
    pub freq1: u32,
    /// Second frequency, the target of a sweep, 16 bits.
    pub freq2: u32,
    /// Attack time, 8 bits.
    pub attack: u32,
    /// Decay time, 8 bits.
    pub decay: u32,
    /// Sustain time. It is laid over the low 16 bits of the envelope
    /// register, whose second byte also holds the release time.
    pub sustain: u32,
    /// Release time, 8 bits.
    pub release: u32,
    /// Volume, 0 to 100.
    pub volume: u32,
    /// Channel: 0 and 1 are the pulse voices, 2 the triangle, 3 the noise.
    pub channel: u32,
    /// Waveform mode. The chip reads it for channels 0 and 1 only.
    pub mode: u32,
}

/// The four values that the chip's tone primitive takes.
#[derive(Clone, Copy, Debug, PartialEq, Eq)]
pub struct ToneRegisters {
    /// `freq1` in the low half, `freq2` in the high half.
    pub frequency: u32,
    /// Attack in the top byte, then decay, release and sustain.
    pub envelope: u32,
    /// The volume, as given.
    pub volume: u32,
    /// The channel in bits 0 and 1, the mode in bits 2 and 3.
    pub flags: u32,
}

impl ToneParams {
    /// The register values for these parameters.
    pub open spec fn packed(self) -> ToneRegisters {
        ToneRegisters {
            frequency: self.freq1 | (self.freq2 << 16),
            envelope: (self.attack << 24) | (self.decay << 16) | self.sustain | (self.release << 8),
            volume: self.volume,
            flags: self.channel | (self.mode << 2),
        }
    }
}

impl ToneRegisters {
    /// The parameters read back from the bit-fields of the registers.
    pub open spec fn unpacked(self) -> ToneParams {
        ToneParams {
            freq1: self.frequency & 0xFFFF,
            freq2: self.frequency >> 16,
            attack: self.envelope >> 24,
            decay: (self.envelope >> 16) & 0xFF,
            sustain: self.envelope & 0xFF,
            release: (self.envelope >> 8) & 0xFF,
            volume: self.volume,
            channel: self.flags & 3,
            mode: (self.flags >> 2) & 3,
        }
    }

    /// Reads the parameters back from the bit-fields of the registers.
    pub fn unpack(&self) -> (params: ToneParams)
        ensures
            params == self.unpacked(),
    {
        ToneParams {
            freq1: self.frequency & 0xFFFF,
            freq2: self.frequency >> 16,
            attack: self.envelope >> 24,
            decay: (self.envelope >> 16) & 0xFF,
            sustain: self.envelope & 0xFF,
            release: (self.envelope >> 8) & 0xFF,
            volume: self.volume,
            channel: self.flags & 3,
            mode: (self.flags >> 2) & 3,
        }
    }
}

impl Default for ToneParams {
    /// A plain tone: 500 Hz, sustained for 30 ticks at full volume on the
    /// first pulse channel.
    fn default() -> (params: ToneParams)
        ensures
            params == (ToneParams {
                freq1: 500,
                freq2: 0,
                attack: 0,
                decay: 0,
                sustain: 30,
                release: 0,
                volume: 100,
                channel: 0,
                mode: 0,
            }),
    {
        ToneParams {
            freq1: 500,
            freq2: 0,
            attack: 0,
            decay: 0,
            sustain: 30,
            release: 0,
            volume: 100,
            channel: 0,
            mode: 0,
        }
    }
}

/// Packs the parameters of a tone into the register values of the tone
/// primitive. Nothing is checked or clamped.
pub fn tone_sub(params: ToneParams) -> (regs: ToneRegisters)
    ensures
        regs == params.packed(),
{
    ToneRegisters {
        frequency: params.freq1 | (params.freq2 << 16),
        envelope: (params.attack << 24) | (params.decay << 16) | params.sustain | (params.release
            << 8),
        volume: params.volume,
        flags: params.channel | (params.mode << 2),
    }
}

/// Where every field lies within its bit-field, with the sustain time in the
/// low byte, no field spills into another and each register is the sum of
/// its fields at their places.
pub proof fn lemma_packed_in_range(params: ToneParams)
    requires
        params.freq1 <= 0xFFFF,
        params.freq2 <= 0xFFFF,
        params.attack <= 0xFF,
        params.decay <= 0xFF,
        params.sustain <= 0xFF,
        params.release <= 0xFF,
        params.channel <= 3,
        params.mode <= 3,
    ensures
        params.packed().frequency == params.freq1 + 0x1_0000 * params.freq2,
        params.packed().envelope == 0x100_0000 * params.attack + 0x1_0000 * params.decay + 0x100
            * params.release + params.sustain,
        params.packed().volume == params.volume,
        params.packed().flags == params.channel + 4 * params.mode,
{
    let f1: u32 = params.freq1;
    let f2: u32 = params.freq2;
    assert(f1 | (f2 << 16) == f1 + 0x1_0000 * f2) by (bit_vector)
        requires
            f1 <= 0xFFFF,
            f2 <= 0xFFFF,
    ;
    let a: u32 = params.attack;
    let d: u32 = params.decay;
    let s: u32 = params.sustain;
    let r: u32 = params.release;
    assert((a << 24) | (d << 16) | s | (r << 8) == 0x100_0000 * a + 0x1_0000 * d + 0x100 * r + s)
        by (bit_vector)
        requires
            a <= 0xFF,
            d <= 0xFF,
            s <= 0xFF,
            r <= 0xFF,
    ;
    let c: u32 = params.channel;
    let m: u32 = params.mode;
    assert(c | (m << 2) == c + 4 * m) by (bit_vector)
        requires
            c <= 3,
            m <= 3,
    ;
}

/// Packing keeps the two frequencies and the four envelope times: where each
/// lies within its bit-field, with the sustain time in the low byte,
/// unpacking gives them back.
pub proof fn lemma_unpack_packed(params: ToneParams)
    requires
        params.freq1 <= 0xFFFF,
        params.freq2 <= 0xFFFF,
        params.attack <= 0xFF,
        params.decay <= 0xFF,
        params.sustain <= 0xFF,
        params.release <= 0xFF,
    ensures
        params.packed().unpacked().freq1 == params.freq1,
        params.packed().unpacked().freq2 == params.freq2,
        params.packed().unpacked().attack == params.attack,
        params.packed().unpacked().decay == params.decay,
        params.packed().unpacked().sustain == params.sustain,
        params.packed().unpacked().release == params.release,
{
    let f1: u32 = params.freq1;
    let f2: u32 = params.freq2;
    assert((f1 | (f2 << 16)) & 0xFFFF == f1 && (f1 | (f2 << 16)) >> 16 == f2) by (bit_vector)
        requires
            f1 <= 0xFFFF,
            f2 <= 0xFFFF,
    ;
    let a: u32 = params.attack;
    let d: u32 = params.decay;
    let s: u32 = params.sustain;
    let r: u32 = params.release;
    assert({
        let e: u32 = (a << 24) | (d << 16) | s | (r << 8);
        &&& e >> 24 == a
        &&& (e >> 16) & 0xFF == d
        &&& e & 0xFF == s
        &&& (e >> 8) & 0xFF == r
    }) by (bit_vector)
        requires
            a <= 0xFF,
            d <= 0xFF,
            s <= 0xFF,
            r <= 0xFF,
    ;
}

/// A sustain time beyond the low byte shares bits with the release time, and
/// does not come back from the envelope register.
pub proof fn lemma_wide_sustain_is_lost(params: ToneParams)
    requires
        params.sustain > 0xFF,
    ensures
        params.packed().unpacked().sustain != params.sustain,
{
    let e: u32 = params.packed().envelope;
    assert(e & 0xFF <= 0xFF) by (bit_vector);
}

/// Packing keeps the volume, and the channel and mode where each lies within
/// its two bits.
pub proof fn lemma_unpack_packed_voice(params: ToneParams)
    requires
        params.channel <= 3,
        params.mode <= 3,
    ensures
        params.packed().unpacked().volume == params.volume,
        params.packed().unpacked().channel == params.channel,
        params.packed().unpacked().mode == params.mode,
{
    let c: u32 = params.channel;
    let m: u32 = params.mode;
    assert((c | (m << 2)) & 3 == c && ((c | (m << 2)) >> 2) & 3 == m) by (bit_vector)
        requires
            c <= 3,
            m <= 3,
    ;
}

} // verus!
