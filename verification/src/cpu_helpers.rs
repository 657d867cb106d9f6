use vstd::prelude::*;

verus! {

/// Directive a handler hands back: how the program counter moves after the
/// instruction has run.
pub enum ProgramCounterKind {
    Next,
    Skip,
    Jump(usize),
}

impl ProgramCounterKind {
    /// `Skip` when the condition holds, `Next` otherwise.
    pub fn skip_if(skip: bool) -> (r: ProgramCounterKind)
        ensures
            r == (if skip {
                ProgramCounterKind::Skip
            } else {
                ProgramCounterKind::Next
            }),
    {
        if skip {
            ProgramCounterKind::Skip
        } else {
            ProgramCounterKind::Next
        }
    }
}

/// The fields of a decoded 16-bit instruction, as mathematical values.
pub ghost struct Decoded {
    /// Top nibble: the opcode family selector.
    pub n0: u8,
    /// Second nibble (bits 8..12).
    pub n1: u8,
    /// Third nibble (bits 4..8).
    pub n2: u8,
    /// Bottom nibble (bits 0..4).
    pub n3: u8,
    /// First register index: bits 8..12.
    pub x: int,
    /// Second register index: bits 4..8.
    pub y: int,
    /// 4-bit literal: bits 0..4.
    pub n: int,
    /// 12-bit address or literal: bits 0..12.
    pub nnn: int,
    /// 8-bit literal: bits 0..8.
    pub kk: u8,
}

/// Splits a 16-bit instruction into its nibbles and derived fields.
pub open spec fn decode(instruction: u16) -> Decoded {
    Decoded {
        n0: ((instruction & 0xF000) >> 12) as u8,
        n1: ((instruction & 0x0F00) >> 8) as u8,
        n2: ((instruction & 0x00F0) >> 4) as u8,
        n3: (instruction & 0x000F) as u8,
        x: ((instruction & 0x0F00) >> 8) as int,
        y: ((instruction & 0x00F0) >> 4) as int,
        n: (instruction & 0x000F) as int,
        nnn: (instruction & 0x0FFF) as int,
        kk: (instruction & 0x00FF) as u8,
    }
}

/// Every decoded field lies in its natural range.
pub proof fn lemma_decode_bounds(instruction: u16)
    ensures
        decode(instruction).n0 < 16,
        decode(instruction).n1 < 16,
        decode(instruction).n2 < 16,
        decode(instruction).n3 < 16,
        0 <= decode(instruction).x < 16,
        0 <= decode(instruction).y < 16,
        0 <= decode(instruction).n < 16,
        0 <= decode(instruction).nnn < 4096,
{
    assert((instruction & 0xF000) >> 12 < 16) by (bit_vector);
    assert((instruction & 0x0F00) >> 8 < 16) by (bit_vector);
    assert((instruction & 0x00F0) >> 4 < 16) by (bit_vector);
    assert(instruction & 0x000F < 16) by (bit_vector);
    assert(instruction & 0x0FFF < 4096) by (bit_vector);
}

/// The decoded parts of one instruction, precomputed for dispatch.
pub struct OpcodeParts {
    pub nibbles: (u8, u8, u8, u8),
    pub x: usize,
    pub y: usize,
    pub n: usize,
    pub nnn: usize,
    pub kk: u8,
}

impl View for OpcodeParts {
    type V = Decoded;

    open spec fn view(&self) -> Decoded {
        Decoded {
            n0: self.nibbles.0,
            n1: self.nibbles.1,
            n2: self.nibbles.2,
            n3: self.nibbles.3,
            x: self.x as int,
            y: self.y as int,
            n: self.n as int,
            nnn: self.nnn as int,
            kk: self.kk,
        }
    }
}

impl OpcodeParts {
    /// Decodes one instruction into its nibbles, register indices and literals.
    pub fn new(instruction: u16) -> (r: OpcodeParts)
        ensures
            r@ == decode(instruction),
    {
        proof {
            lemma_decode_bounds(instruction);
        }
        let nibbles = (
            ((instruction & 0xF000) >> 12) as u8,
            ((instruction & 0x0F00) >> 8) as u8,
            ((instruction & 0x00F0) >> 4) as u8,
            (instruction & 0x000F) as u8,
        );

        let x = nibbles.1 as usize;
        let y = nibbles.2 as usize;
        let n = nibbles.3 as usize;
        let nnn = (instruction & 0x0FFF) as usize;
        let kk = (instruction & 0x00FF) as u8;

        OpcodeParts { nibbles, x, y, n, nnn, kk }
    }

    /// The four nibbles, top first.
    pub fn get_nibbles(&self) -> (r: (u8, u8, u8, u8))
        ensures
            r == (self@.n0, self@.n1, self@.n2, self@.n3),
    {
        self.nibbles
    }
}

/// What one machine step hands back to the host: the framebuffer as flat
/// bytes, and whether the sound timer asks for a beep.
#[derive(Debug)]
pub struct ExecutionResult {
    pub display_state: Vec<u8>,
    pub should_beep: bool,
}

impl ExecutionResult {
    /// Packs a framebuffer snapshot and a beep flag.
    pub fn new(display_state: Vec<u8>, should_beep: bool) -> (r: ExecutionResult)
        ensures
            r.display_state@ == display_state@,
            r.should_beep == should_beep,
    {
        ExecutionResult { display_state, should_beep }
    }
}

} // verus!
