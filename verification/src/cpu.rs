use vstd::prelude::*;
use vstd::slice::slice_subrange;

use crate::cartridge::Cartridge;
use crate::cpu_helpers::{decode, lemma_decode_bounds, Decoded, ExecutionResult, OpcodeParts,
    ProgramCounterKind};
use crate::display::{blit_collision, blit_vram, vram_to_bytes, Display};
use crate::font::{font_seq, font_set};
use crate::gamepad::{key_name_index, lemma_first_pressed_props, spec_first_pressed, Gamepad};
use crate::MEMORY_SIZE;

verus! {

/// A fault raised by a running program. The step that detects one reports it
/// to the host and leaves the machine otherwise as it stood; the core makes
/// no attempt at recovery.
#[derive(Clone, Copy, Debug, PartialEq, Eq, Structural)]
pub enum Fault {
    /// A call was made with the call stack already at its 16-entry capacity.
    StackOverflow,
    /// A return was made with the call stack empty.
    StackUnderflow,
    /// An instruction or data address fell outside the 4096-byte memory.
    MemoryOutOfRange,
}

/// The machine state as mathematical values: what every contract of the
/// processor speaks about.
#[verifier::ext_equal]
pub ghost struct CpuModel {
    /// The 4096 bytes of memory.
    pub mem: Seq<u8>,
    /// The 16 general-purpose registers; register 15 doubles as the flag
    /// register.
    pub regs: Seq<u8>,
    /// The 16-bit index register.
    pub index: u16,
    /// Address of the next instruction.
    pub pc: int,
    /// Return addresses of the calls in flight, deepest first.
    pub stack: Seq<usize>,
    /// The delay timer.
    pub delay: u8,
    /// The sound timer.
    pub sound: u8,
    /// The 64x32 framebuffer, row-major.
    pub vram: Seq<bool>,
    /// The 16 keypad states.
    pub keys: Seq<bool>,
}

/// What one step yields: the machine state after it, and the fault it
/// reports, if any.
#[verifier::ext_equal]
pub ghost struct StepRes {
    pub state: CpuModel,
    pub fault: Option<Fault>,
}

/// A step that ends in state `s` without a fault.
pub open spec fn step_ok(s: CpuModel) -> StepRes {
    StepRes { state: s, fault: None }
}

/// A step that reports fault `f` and leaves state `s`.
pub open spec fn step_fault(s: CpuModel, f: Fault) -> StepRes {
    StepRes { state: s, fault: Some(f) }
}

/// The fixed sizes every machine state keeps.
pub open spec fn model_wf(s: CpuModel) -> bool {
    &&& s.mem.len() == 4096
    &&& s.regs.len() == 16
    &&& s.stack.len() <= 16
    &&& s.vram.len() == 2048
    &&& s.keys.len() == 16
}

/// One timer decrement: down by one, floored at zero.
pub open spec fn dec_timer(t: u8) -> u8 {
    if t > 0 {
        (t - 1) as u8
    } else {
        0u8
    }
}

/// Both timers decremented, floored at zero.
pub open spec fn spec_tick_timers(s: CpuModel) -> CpuModel {
    CpuModel { delay: dec_timer(s.delay), sound: dec_timer(s.sound), ..s }
}

/// Two bytes combined big-endian into one instruction.
pub open spec fn combine(first_byte: u8, second_byte: u8) -> u16 {
    ((first_byte as u16) << 8) | (second_byte as u16)
}

/// The 8-bit wrapping value of a sum or difference of two bytes.
pub open spec fn wrap8(v: int) -> u8 {
    if v < 0 {
        (v + 256) as u8
    } else if v > 255 {
        (v - 256) as u8
    } else {
        v as u8
    }
}

/// The 16-bit wrapping value of a sum of an index and a byte.
pub open spec fn wrap16(v: int) -> u16 {
    if v > 0xFFFF {
        (v - 0x10000) as u16
    } else {
        v as u16
    }
}

/// The program counter after a conditional skip: past the next instruction
/// when the condition holds, to the next instruction otherwise.
pub open spec fn spec_skip(pc: int, cond: bool) -> int {
    if cond {
        pc + 4
    } else {
        pc + 2
    }
}

/// Whether the key with index `v` is pressed; an index beyond the 16 keys is
/// never pressed.
pub open spec fn key_down(keys: Seq<bool>, v: u8) -> bool {
    v < 16 && keys[v as int]
}

/// Memory after registers 0..=x are copied to addresses idx..=idx+x.
pub open spec fn copy_regs_to_mem(mem: Seq<u8>, regs: Seq<u8>, idx: int, x: int) -> Seq<u8> {
    Seq::new(mem.len(), |a: int| if idx <= a <= idx + x {
        regs[a - idx]
    } else {
        mem[a]
    })
}

/// Registers after addresses idx..=idx+x are copied to registers 0..=x.
pub open spec fn copy_mem_to_regs(mem: Seq<u8>, regs: Seq<u8>, idx: int, x: int) -> Seq<u8> {
    Seq::new(regs.len(), |r: int| if 0 <= r <= x {
        mem[idx + r]
    } else {
        regs[r]
    })
}

/// The machine state after the decoded instruction `d` runs on state `s`,
/// with `rnd` the random byte drawn for this step. `s` is the state after the
/// timer decrement; the program counter still names the instruction itself.
/// A pattern no instruction matches is a no-op that advances normally.
pub open spec fn spec_execute(s: CpuModel, d: Decoded, rnd: u8) -> StepRes {
    if d.n0 == 0x0 && d.n1 == 0x0 && d.n2 == 0xE && d.n3 == 0x0 {
        step_ok(CpuModel { vram: Seq::new(2048, |p: int| false), pc: s.pc + 2, ..s })
    } else if d.n0 == 0x0 && d.n1 == 0x0 && d.n2 == 0xE && d.n3 == 0xE {
        if s.stack.len() == 0 {
            step_fault(s, Fault::StackUnderflow)
        } else {
            step_ok(CpuModel { pc: s.stack.last() as int, stack: s.stack.drop_last(), ..s })
        }
    } else if d.n0 == 0x1 {
        step_ok(CpuModel { pc: d.nnn, ..s })
    } else if d.n0 == 0x2 {
        if s.stack.len() >= 16 {
            step_fault(s, Fault::StackOverflow)
        } else {
            step_ok(CpuModel { stack: s.stack.push((s.pc + 2) as usize), pc: d.nnn, ..s })
        }
    } else if d.n0 == 0x3 {
        step_ok(CpuModel { pc: spec_skip(s.pc, s.regs[d.x] == d.kk), ..s })
    } else if d.n0 == 0x4 {
        step_ok(CpuModel { pc: spec_skip(s.pc, s.regs[d.x] != d.kk), ..s })
    } else if d.n0 == 0x5 {
        step_ok(CpuModel { pc: spec_skip(s.pc, s.regs[d.x] == s.regs[d.y]), ..s })
    } else if d.n0 == 0x6 {
        step_ok(CpuModel { regs: s.regs.update(d.x, d.kk), pc: s.pc + 2, ..s })
    } else if d.n0 == 0x7 {
        step_ok(
            CpuModel { regs: s.regs.update(d.x, wrap8(s.regs[d.x] + d.kk)), pc: s.pc + 2, ..s },
        )
    } else if d.n0 == 0x8 && d.n3 == 0x0 {
        step_ok(CpuModel { regs: s.regs.update(d.x, s.regs[d.y]), pc: s.pc + 2, ..s })
    } else if d.n0 == 0x8 && d.n3 == 0x1 {
        step_ok(CpuModel { regs: s.regs.update(d.x, s.regs[d.x] | s.regs[d.y]), pc: s.pc + 2, ..s })
    } else if d.n0 == 0x8 && d.n3 == 0x2 {
        step_ok(CpuModel { regs: s.regs.update(d.x, s.regs[d.x] & s.regs[d.y]), pc: s.pc + 2, ..s })
    } else if d.n0 == 0x8 && d.n3 == 0x3 {
        step_ok(CpuModel { regs: s.regs.update(d.x, s.regs[d.x] ^ s.regs[d.y]), pc: s.pc + 2, ..s })
    } else if d.n0 == 0x8 && d.n3 == 0x4 {
        let total = s.regs[d.x] + s.regs[d.y];
        let r1 = s.regs.update(15, if total > 255 { 1u8 } else { 0u8 });
        step_ok(CpuModel { regs: r1.update(d.x, wrap8(total)), pc: s.pc + 2, ..s })
    } else if d.n0 == 0x8 && d.n3 == 0x5 {
        let vx = s.regs[d.x];
        let vy = s.regs[d.y];
        let r1 = s.regs.update(15, if vx > vy { 1u8 } else { 0u8 });
        step_ok(CpuModel { regs: r1.update(d.x, wrap8(vx - vy)), pc: s.pc + 2, ..s })
    } else if d.n0 == 0x8 && d.n3 == 0x6 {
        let r1 = s.regs.update(15, s.regs[d.x] & 0x1);
        step_ok(CpuModel { regs: r1.update(d.x, r1[d.x] >> 1), pc: s.pc + 2, ..s })
    } else if d.n0 == 0x8 && d.n3 == 0x7 {
        let vx = s.regs[d.x];
        let vy = s.regs[d.y];
        let r1 = s.regs.update(15, if vy > vx { 1u8 } else { 0u8 });
        step_ok(CpuModel { regs: r1.update(d.x, wrap8(vy - vx)), pc: s.pc + 2, ..s })
    } else if d.n0 == 0x8 && d.n3 == 0xE {
        let r1 = s.regs.update(15, (s.regs[d.x] & 0x80) >> 7);
        step_ok(CpuModel { regs: r1.update(d.x, r1[d.x] << 1), pc: s.pc + 2, ..s })
    } else if d.n0 == 0x9 {
        step_ok(CpuModel { pc: spec_skip(s.pc, s.regs[d.x] != s.regs[d.y]), ..s })
    } else if d.n0 == 0xA {
        step_ok(CpuModel { index: d.nnn as u16, pc: s.pc + 2, ..s })
    } else if d.n0 == 0xB {
        step_ok(CpuModel { pc: d.nnn + s.regs[0], ..s })
    } else if d.n0 == 0xC {
        step_ok(CpuModel { regs: s.regs.update(d.x, rnd & d.kk), pc: s.pc + 2, ..s })
    } else if d.n0 == 0xD {
        if s.index + d.n > 4096 {
            step_fault(s, Fault::MemoryOutOfRange)
        } else {
            let sprite = s.mem.subrange(s.index as int, s.index + d.n);
            let vx = s.regs[d.x] as int;
            let vy = s.regs[d.y] as int;
            let col = blit_collision(s.vram, sprite, vx, vy);
            step_ok(
                CpuModel {
                    vram: blit_vram(s.vram, sprite, vx, vy),
                    regs: s.regs.update(15, if col { 1u8 } else { 0u8 }),
                    pc: s.pc + 2,
                    ..s
                },
            )
        }
    } else if d.n0 == 0xE && d.n3 == 0xE {
        step_ok(CpuModel { pc: spec_skip(s.pc, key_down(s.keys, s.regs[d.x])), ..s })
    } else if d.n0 == 0xE && d.n3 == 0x1 {
        step_ok(CpuModel { pc: spec_skip(s.pc, !key_down(s.keys, s.regs[d.x])), ..s })
    } else if d.n0 == 0xF && d.n2 == 0x0 && d.n3 == 0x7 {
        step_ok(CpuModel { regs: s.regs.update(d.x, s.delay), pc: s.pc + 2, ..s })
    } else if d.n0 == 0xF && d.n2 == 0x0 && d.n3 == 0xA {
        match spec_first_pressed(s.keys) {
            Some(k) => step_ok(CpuModel { regs: s.regs.update(d.x, k as u8), pc: s.pc + 2, ..s }),
            None => step_ok(s),
        }
    } else if d.n0 == 0xF && d.n2 == 0x1 && d.n3 == 0x5 {
        step_ok(CpuModel { delay: s.regs[d.x], pc: s.pc + 2, ..s })
    } else if d.n0 == 0xF && d.n2 == 0x1 && d.n3 == 0x8 {
        step_ok(CpuModel { sound: s.regs[d.x], pc: s.pc + 2, ..s })
    } else if d.n0 == 0xF && d.n2 == 0x1 && d.n3 == 0xE {
        step_ok(CpuModel { index: wrap16(s.index + s.regs[d.x]), pc: s.pc + 2, ..s })
    } else if d.n0 == 0xF && d.n2 == 0x2 && d.n3 == 0x9 {
        step_ok(CpuModel { index: (s.regs[d.x] * 5) as u16, pc: s.pc + 2, ..s })
    } else if d.n0 == 0xF && d.n2 == 0x3 && d.n3 == 0x3 {
        if s.index + 2 > 4095 {
            step_fault(s, Fault::MemoryOutOfRange)
        } else {
            let vx = s.regs[d.x];
            let m1 = s.mem.update(s.index as int, vx / 100);
            let m2 = m1.update(s.index + 1, (vx / 10) % 10);
            let m3 = m2.update(s.index + 2, (vx % 100) % 10);
            step_ok(CpuModel { mem: m3, pc: s.pc + 2, ..s })
        }
    } else if d.n0 == 0xF && d.n2 == 0x5 && d.n3 == 0x5 {
        if s.index + d.x > 4095 {
            step_fault(s, Fault::MemoryOutOfRange)
        } else {
            step_ok(
                CpuModel {
                    mem: copy_regs_to_mem(s.mem, s.regs, s.index as int, d.x),
                    pc: s.pc + 2,
                    ..s
                },
            )
        }
    } else if d.n0 == 0xF && d.n2 == 0x6 && d.n3 == 0x5 {
        if s.index + d.x > 4095 {
            step_fault(s, Fault::MemoryOutOfRange)
        } else {
            step_ok(
                CpuModel {
                    regs: copy_mem_to_regs(s.mem, s.regs, s.index as int, d.x),
                    pc: s.pc + 2,
                    ..s
                },
            )
        }
    } else {
        step_ok(CpuModel { pc: s.pc + 2, ..s })
    }
}

/// One whole machine step on state `s` with random byte `rnd`: fetch the two
/// bytes at the program counter (a counter past the last instruction address
/// is a fault that changes nothing), decode them big-endian, decrement both
/// timers, then run the instruction.
pub open spec fn spec_step(s: CpuModel, rnd: u8) -> StepRes {
    if !(0 <= s.pc && s.pc + 1 < 4096) {
        step_fault(s, Fault::MemoryOutOfRange)
    } else {
        let instruction = combine(s.mem[s.pc], s.mem[s.pc + 1]);
        spec_execute(spec_tick_timers(s), decode(instruction), rnd)
    }
}

/// A call and its matching return balance out: a call instruction with room
/// on the stack jumps to its target and pushes the address right after
/// itself, and a return from any later state whose stack is as the call left
/// it jumps to that pushed address and restores the call's stack.
pub proof fn lemma_call_and_return(s: CpuModel, rnd1: u8, t: CpuModel, rnd2: u8)
    requires
        0 <= s.pc <= 4094,
        decode(combine(s.mem[s.pc], s.mem[s.pc + 1])).n0 == 0x2,
        s.stack.len() < 16,
        0 <= t.pc <= 4094,
        ({
            let d = decode(combine(t.mem[t.pc], t.mem[t.pc + 1]));
            d.n0 == 0x0 && d.n1 == 0x0 && d.n2 == 0xE && d.n3 == 0xE
        }),
        t.stack == spec_step(s, rnd1).state.stack,
    ensures
        spec_step(s, rnd1).fault is None,
        spec_step(s, rnd1).state.pc == decode(combine(s.mem[s.pc], s.mem[s.pc + 1])).nnn,
        spec_step(s, rnd1).state.stack == s.stack.push((s.pc + 2) as usize),
        spec_step(t, rnd2).fault is None,
        spec_step(t, rnd2).state.pc == s.pc + 2,
        spec_step(t, rnd2).state.stack == s.stack,
{
    assert(t.stack == s.stack.push((s.pc + 2) as usize));
    assert(t.stack.last() == (s.pc + 2) as usize);
    assert(t.stack.drop_last() =~= s.stack);
}

/// Waiting for a key makes no forward progress while every key is up, and
/// once some key is down the step stores the lowest pressed index in the
/// named register and advances normally.
pub proof fn lemma_wait_for_key(s: CpuModel, rnd: u8)
    requires
        0 <= s.pc <= 4094,
        s.keys.len() == 16,
        ({
            let d = decode(combine(s.mem[s.pc], s.mem[s.pc + 1]));
            d.n0 == 0xF && d.n2 == 0x0 && d.n3 == 0xA
        }),
    ensures
        ((forall|k: int| 0 <= k < 16 ==> !s.keys[k]) <==> spec_first_pressed(s.keys) is None),
        spec_first_pressed(s.keys) is None ==> spec_step(s, rnd).fault is None && spec_step(
            s,
            rnd,
        ).state.pc == s.pc && spec_step(s, rnd).state.regs == s.regs,
        spec_first_pressed(s.keys) matches Some(k) ==> spec_step(s, rnd).fault is None
            && spec_step(s, rnd).state.pc == s.pc + 2 && s.keys[k as int] && (forall|j: int|
            0 <= j < k ==> !s.keys[j]) && spec_step(s, rnd).state.regs == s.regs.update(
            decode(combine(s.mem[s.pc], s.mem[s.pc + 1])).x,
            k as u8,
        ),
{
    lemma_first_pressed_props(s.keys);
}

/// The machine: memory, registers, index, program counter, call stack,
/// timers, and its own framebuffer and keypad. One call of `tick` runs one
/// fetch-decode-execute cycle.
pub struct CPU {
    memory: Vec<u8>,
    display: Display,
    stack: Vec<usize>,
    registers: Vec<u8>,
    index: u16,
    program_counter: usize,
    delay_timer: u8,
    sound_timer: u8,
    gamepad: Gamepad,
}

impl View for CPU {
    type V = CpuModel;

    closed spec fn view(&self) -> CpuModel {
        CpuModel {
            mem: self.memory@,
            regs: self.registers@,
            index: self.index,
            pc: self.program_counter as int,
            stack: self.stack@,
            delay: self.delay_timer,
            sound: self.sound_timer,
            vram: self.display@,
            keys: self.gamepad@,
        }
    }
}

impl CPU {
    /// The fixed sizes the machine keeps at all times.
    pub open spec fn wf(&self) -> bool {
        model_wf(self@)
    }

    /// A machine loaded from a program image: the glyph set at the bottom of
    /// memory, the image from address 0x200 on, zero everywhere else, the
    /// program counter at 0x200, and all registers, timers, stack, pixels
    /// and keys cleared.
    pub fn new(game: Cartridge) -> (r: CPU)
        requires
            game@.len() <= 3584,
        ensures
            r.wf(),
            forall|a: int| 0 <= a < 80 ==> #[trigger] r@.mem[a] == font_seq()[a],
            forall|a: int| 80 <= a < 512 ==> #[trigger] r@.mem[a] == 0,
            forall|a: int|
                512 <= a < 512 + game@.len() ==> #[trigger] r@.mem[a] == game@[a - 512],
            forall|a: int| 512 + game@.len() <= a < 4096 ==> #[trigger] r@.mem[a] == 0,
            forall|i: int| 0 <= i < 16 ==> #[trigger] r@.regs[i] == 0,
            r@.index == 0,
            r@.pc == 0x200,
            r@.stack.len() == 0,
            r@.delay == 0,
            r@.sound == 0,
            forall|p: int| 0 <= p < 2048 ==> !(#[trigger] r@.vram[p]),
            forall|k: int| 0 <= k < 16 ==> !(#[trigger] r@.keys[k]),
    {
        let mut memory: Vec<u8> = vec![0u8; MEMORY_SIZE];
        let font = font_set();
        proof {
            assert(font@.len() == 80);
            assert(memory@.len() == 4096);
        }
        let mut i: usize = 0;
        while i < 80
            invariant
                0 <= i <= 80,
                memory@.len() == 4096,
                font@ == font_seq(),
                forall|a: int| 0 <= a < i ==> #[trigger] memory@[a] == font_seq()[a],
                forall|a: int| i <= a < 4096 ==> #[trigger] memory@[a] == 0,
            decreases 80 - i,
        {
            memory[i] = font[i];
            i = i + 1;
        }
        let game_memory = game.get_memory();
        let mut j: usize = 0;
        while j < game_memory.len()
            invariant
                0 <= j <= game_memory.len(),
                game_memory@ == game@,
                game@.len() <= 3584,
                memory@.len() == 4096,
                forall|a: int| 0 <= a < 80 ==> #[trigger] memory@[a] == font_seq()[a],
                forall|a: int| 80 <= a < 512 ==> #[trigger] memory@[a] == 0,
                forall|a: int| 512 <= a < 512 + j ==> #[trigger] memory@[a] == game@[a - 512],
                forall|a: int| 512 + j <= a < 4096 ==> #[trigger] memory@[a] == 0,
            decreases game_memory.len() - j,
        {
            memory[0x200 + j] = game_memory[j];
            j = j + 1;
        }
        CPU {
            memory,
            stack: Vec::new(),
            display: Display::new(),
            registers: vec![0u8; 16],
            index: 0,
            program_counter: 0x200,
            delay_timer: 0,
            sound_timer: 0,
            gamepad: Gamepad::new(),
        }
    }

    /// Two bytes combined big-endian into one 16-bit instruction.
    pub fn calculate_instruction(first_byte: u8, second_byte: u8) -> (r: u16)
        ensures
            r == combine(first_byte, second_byte),
    {
        ((first_byte as u16) << 8u16) | (second_byte as u16)
    }

    /// Presses the named key on the machine's keypad; an unrecognized name
    /// changes nothing.
    pub fn gamepad_down(&mut self, key: &str)
        requires
            old(self).wf(),
        ensures
            final(self).wf(),
            final(self)@ == (CpuModel {
                keys: match key_name_index(key@) {
                    Some(i) => old(self)@.keys.update(i as int, true),
                    None => old(self)@.keys,
                },
                ..old(self)@
            }),
    {
        self.gamepad.set_key_down(key)
    }

    /// Releases the named key on the machine's keypad; an unrecognized name
    /// changes nothing.
    pub fn gamepad_up(&mut self, key: &str)
        requires
            old(self).wf(),
        ensures
            final(self).wf(),
            final(self)@ == (CpuModel {
                keys: match key_name_index(key@) {
                    Some(i) => old(self)@.keys.update(i as int, false),
                    None => old(self)@.keys,
                },
                ..old(self)@
            }),
    {
        self.gamepad.set_key_up(key)
    }

    fn update_timers(&mut self)
        requires
            old(self).wf(),
        ensures
            final(self).wf(),
            final(self)@ == spec_tick_timers(old(self)@),
    {
        if self.sound_timer > 0 {
            self.sound_timer = self.sound_timer - 1;
        }
        if self.delay_timer > 0 {
            self.delay_timer = self.delay_timer - 1;
        }
    }

    /// The value of general register `idx`.
    pub fn get_register(&self, idx: usize) -> (r: u8)
        requires
            self.wf(),
            idx < 16,
        ensures
            r == self@.regs[idx as int],
    {
        self.registers[idx]
    }

    /// The byte at memory address `addr`.
    pub fn get_memory_byte(&self, addr: usize) -> (r: u8)
        requires
            self.wf(),
            addr < 4096,
        ensures
            r == self@.mem[addr as int],
    {
        self.memory[addr]
    }

    /// The program counter.
    pub fn get_program_counter(&self) -> (r: usize)
        ensures
            r == self@.pc,
    {
        self.program_counter
    }

    /// The index register.
    pub fn get_index(&self) -> (r: u16)
        ensures
            r == self@.index,
    {
        self.index
    }

    /// The sound timer.
    pub fn get_sound_timer(&self) -> (r: u8)
        ensures
            r == self@.sound,
    {
        self.sound_timer
    }

    /// The delay timer.
    pub fn get_delay_timer(&self) -> (r: u8)
        ensures
            r == self@.delay,
    {
        self.delay_timer
    }

    /// Sets the sound timer directly, as a host may between steps.
    pub fn set_sound_timer(&mut self, value: u8)
        requires
            old(self).wf(),
        ensures
            final(self).wf(),
            final(self)@ == (CpuModel { sound: value, ..old(self)@ }),
    {
        self.sound_timer = value;
    }

    /// How many calls are in flight: the depth of the call stack.
    pub fn get_stack_depth(&self) -> (r: usize)
        ensures
            r == self@.stack.len(),
    {
        self.stack.len()
    }

    fn run_00e0(&mut self) -> (r: ProgramCounterKind)
        requires
            old(self).wf(),
        ensures
            final(self).wf(),
            final(self)@ == (CpuModel { vram: Seq::new(2048, |p: int| false), ..old(self)@ }),
            r == ProgramCounterKind::Next,
    {
        self.display.clear();
        ProgramCounterKind::Next
    }

    fn run_00ee(&mut self) -> (r: Result<ProgramCounterKind, Fault>)
        requires
            old(self).wf(),
        ensures
            final(self).wf(),
            (if old(self)@.stack.len() == 0 {
                final(self)@ == old(self)@ && r == Err::<ProgramCounterKind, Fault>(
                    Fault::StackUnderflow,
                )
            } else {
                final(self)@ == (CpuModel { stack: old(self)@.stack.drop_last(), ..old(self)@ })
                    && r == Ok::<ProgramCounterKind, Fault>(
                    ProgramCounterKind::Jump(old(self)@.stack.last()),
                )
            }),
    {
        match self.stack.pop() {
            Some(addr) => Ok(ProgramCounterKind::Jump(addr)),
            None => Err(Fault::StackUnderflow),
        }
    }

    fn run_1nnn(&mut self, nnn: usize) -> (r: ProgramCounterKind)
        requires
            old(self).wf(),
        ensures
            final(self).wf(),
            final(self)@ == old(self)@,
            r == ProgramCounterKind::Jump(nnn),
    {
        ProgramCounterKind::Jump(nnn)
    }

    fn run_2nnn(&mut self, nnn: usize) -> (r: Result<ProgramCounterKind, Fault>)
        requires
            old(self).wf(),
            old(self).program_counter <= 4094,
        ensures
            final(self).wf(),
            (if old(self)@.stack.len() >= 16 {
                final(self)@ == old(self)@ && r == Err::<ProgramCounterKind, Fault>(
                    Fault::StackOverflow,
                )
            } else {
                final(self)@ == (CpuModel {
                    stack: old(self)@.stack.push((old(self)@.pc + 2) as usize),
                    ..old(self)@
                }) && r == Ok::<ProgramCounterKind, Fault>(ProgramCounterKind::Jump(nnn))
            }),
    {
        if self.stack.len() >= 16 {
            return Err(Fault::StackOverflow);
        }
        let ret = self.program_counter + 2;
        self.stack.push(ret);
        Ok(ProgramCounterKind::Jump(nnn))
    }

    fn run_3xkk(&self, x: usize, kk: u8) -> (r: ProgramCounterKind)
        requires
            self.wf(),
            x < 16,
        ensures
            r == (if self@.regs[x as int] == kk {
                ProgramCounterKind::Skip
            } else {
                ProgramCounterKind::Next
            }),
    {
        ProgramCounterKind::skip_if(self.registers[x] == kk)
    }

    fn run_4xkk(&self, x: usize, kk: u8) -> (r: ProgramCounterKind)
        requires
            self.wf(),
            x < 16,
        ensures
            r == (if self@.regs[x as int] != kk {
                ProgramCounterKind::Skip
            } else {
                ProgramCounterKind::Next
            }),
    {
        ProgramCounterKind::skip_if(self.registers[x] != kk)
    }

    fn run_5xy0(&self, x: usize, y: usize) -> (r: ProgramCounterKind)
        requires
            self.wf(),
            x < 16,
            y < 16,
        ensures
            r == (if self@.regs[x as int] == self@.regs[y as int] {
                ProgramCounterKind::Skip
            } else {
                ProgramCounterKind::Next
            }),
    {
        ProgramCounterKind::skip_if(self.registers[x] == self.registers[y])
    }

    fn run_6xkk(&mut self, x: usize, kk: u8) -> (r: ProgramCounterKind)
        requires
            old(self).wf(),
            x < 16,
        ensures
            final(self).wf(),
            final(self)@ == (CpuModel { regs: old(self)@.regs.update(x as int, kk), ..old(self)@ }),
            r == ProgramCounterKind::Next,
    {
        self.registers[x] = kk;
        ProgramCounterKind::Next
    }

    fn run_7xkk(&mut self, x: usize, kk: u8) -> (r: ProgramCounterKind)
        requires
            old(self).wf(),
            x < 16,
        ensures
            final(self).wf(),
            final(self)@ == (CpuModel {
                regs: old(self)@.regs.update(x as int, wrap8(old(self)@.regs[x as int] + kk)),
                ..old(self)@
            }),
            r == ProgramCounterKind::Next,
    {
        self.registers[x] = self.registers[x].wrapping_add(kk);
        ProgramCounterKind::Next
    }

    fn run_8xy0(&mut self, x: usize, y: usize) -> (r: ProgramCounterKind)
        requires
            old(self).wf(),
            x < 16,
            y < 16,
        ensures
            final(self).wf(),
            final(self)@ == (CpuModel {
                regs: old(self)@.regs.update(x as int, old(self)@.regs[y as int]),
                ..old(self)@
            }),
            r == ProgramCounterKind::Next,
    {
        self.registers[x] = self.registers[y];
        ProgramCounterKind::Next
    }

    fn run_8xy1(&mut self, x: usize, y: usize) -> (r: ProgramCounterKind)
        requires
            old(self).wf(),
            x < 16,
            y < 16,
        ensures
            final(self).wf(),
            final(self)@ == (CpuModel {
                regs: old(self)@.regs.update(
                    x as int,
                    old(self)@.regs[x as int] | old(self)@.regs[y as int],
                ),
                ..old(self)@
            }),
            r == ProgramCounterKind::Next,
    {
        self.registers[x] = self.registers[x] | self.registers[y];
        ProgramCounterKind::Next
    }

    fn run_8xy2(&mut self, x: usize, y: usize) -> (r: ProgramCounterKind)
        requires
            old(self).wf(),
            x < 16,
            y < 16,
        ensures
            final(self).wf(),
            final(self)@ == (CpuModel {
                regs: old(self)@.regs.update(
                    x as int,
                    old(self)@.regs[x as int] & old(self)@.regs[y as int],
                ),
                ..old(self)@
            }),
            r == ProgramCounterKind::Next,
    {
        self.registers[x] = self.registers[x] & self.registers[y];
        ProgramCounterKind::Next
    }

    fn run_8xy3(&mut self, x: usize, y: usize) -> (r: ProgramCounterKind)
        requires
            old(self).wf(),
            x < 16,
            y < 16,
        ensures
            final(self).wf(),
            final(self)@ == (CpuModel {
                regs: old(self)@.regs.update(
                    x as int,
                    old(self)@.regs[x as int] ^ old(self)@.regs[y as int],
                ),
                ..old(self)@
            }),
            r == ProgramCounterKind::Next,
    {
        self.registers[x] = self.registers[x] ^ self.registers[y];
        ProgramCounterKind::Next
    }

    fn run_8xy4(&mut self, x: usize, y: usize) -> (r: ProgramCounterKind)
        requires
            old(self).wf(),
            x < 16,
            y < 16,
        ensures
            final(self).wf(),
            final(self)@ == (CpuModel {
                regs: old(self)@.regs.update(
                    15,
                    if old(self)@.regs[x as int] + old(self)@.regs[y as int] > 255 {
                        1u8
                    } else {
                        0u8
                    },
                ).update(x as int, wrap8(old(self)@.regs[x as int] + old(self)@.regs[y as int])),
                ..old(self)@
            }),
            r == ProgramCounterKind::Next,
    {
        let total: u16 = self.registers[x] as u16 + self.registers[y] as u16;
        self.registers[0xF] = if total > 0xFF {
            1
        } else {
            0
        };
        self.registers[x] = (total % 256) as u8;
        ProgramCounterKind::Next
    }

    fn run_8xy5(&mut self, x: usize, y: usize) -> (r: ProgramCounterKind)
        requires
            old(self).wf(),
            x < 16,
            y < 16,
        ensures
            final(self).wf(),
            final(self)@ == (CpuModel {
                regs: old(self)@.regs.update(
                    15,
                    if old(self)@.regs[x as int] > old(self)@.regs[y as int] {
                        1u8
                    } else {
                        0u8
                    },
                ).update(
                    x as int,
                    wrap8(old(self)@.regs[x as int] - old(self)@.regs[y as int]),
                ),
                ..old(self)@
            }),
            r == ProgramCounterKind::Next,
    {
        let vx = self.registers[x];
        let vy = self.registers[y];
        self.registers[0xF] = if vx > vy {
            1
        } else {
            0
        };
        self.registers[x] = vx.wrapping_sub(vy);
        ProgramCounterKind::Next
    }

    fn run_8xy6(&mut self, x: usize) -> (r: ProgramCounterKind)
        requires
            old(self).wf(),
            x < 16,
        ensures
            final(self).wf(),
            final(self)@ == (CpuModel {
                regs: ({
                    let r1 = old(self)@.regs.update(15, old(self)@.regs[x as int] & 0x1);
                    r1.update(x as int, r1[x as int] >> 1u8)
                }),
                ..old(self)@
            }),
            r == ProgramCounterKind::Next,
    {
        self.registers[0xF] = self.registers[x] & 0x1;
        let shifted = self.registers[x] >> 1u8;
        self.registers[x] = shifted;
        ProgramCounterKind::Next
    }

    fn run_8xy7(&mut self, x: usize, y: usize) -> (r: ProgramCounterKind)
        requires
            old(self).wf(),
            x < 16,
            y < 16,
        ensures
            final(self).wf(),
            final(self)@ == (CpuModel {
                regs: old(self)@.regs.update(
                    15,
                    if old(self)@.regs[y as int] > old(self)@.regs[x as int] {
                        1u8
                    } else {
                        0u8
                    },
                ).update(
                    x as int,
                    wrap8(old(self)@.regs[y as int] - old(self)@.regs[x as int]),
                ),
                ..old(self)@
            }),
            r == ProgramCounterKind::Next,
    {
        let vx = self.registers[x];
        let vy = self.registers[y];
        self.registers[0xF] = if vy > vx {
            1
        } else {
            0
        };
        self.registers[x] = vy.wrapping_sub(vx);
        ProgramCounterKind::Next
    }

    fn run_8xye(&mut self, x: usize) -> (r: ProgramCounterKind)
        requires
            old(self).wf(),
            x < 16,
        ensures
            final(self).wf(),
            final(self)@ == (CpuModel {
                regs: ({
                    let r1 = old(self)@.regs.update(15, (old(self)@.regs[x as int] & 0x80) >> 7u8);
                    r1.update(x as int, r1[x as int] << 1u8)
                }),
                ..old(self)@
            }),
            r == ProgramCounterKind::Next,
    {
        self.registers[0xF] = (self.registers[x] & 0x80) >> 7u8;
        let shifted = self.registers[x] << 1u8;
        self.registers[x] = shifted;
        ProgramCounterKind::Next
    }

    fn run_9xy0(&self, x: usize, y: usize) -> (r: ProgramCounterKind)
        requires
            self.wf(),
            x < 16,
            y < 16,
        ensures
            r == (if self@.regs[x as int] != self@.regs[y as int] {
                ProgramCounterKind::Skip
            } else {
                ProgramCounterKind::Next
            }),
    {
        ProgramCounterKind::skip_if(self.registers[x] != self.registers[y])
    }

    fn run_annn(&mut self, nnn: usize) -> (r: ProgramCounterKind)
        requires
            old(self).wf(),
            nnn < 4096,
        ensures
            final(self).wf(),
            final(self)@ == (CpuModel { index: nnn as u16, ..old(self)@ }),
            r == ProgramCounterKind::Next,
    {
        self.index = nnn as u16;
        ProgramCounterKind::Next
    }

    fn run_bnnn(&self, nnn: usize) -> (r: ProgramCounterKind)
        requires
            self.wf(),
            nnn < 4096,
        ensures
            r == ProgramCounterKind::Jump((nnn + self@.regs[0]) as usize),
    {
        ProgramCounterKind::Jump(nnn + self.registers[0] as usize)
    }

    fn run_cxkk(&mut self, x: usize, kk: u8, random_byte: u8) -> (r: ProgramCounterKind)
        requires
            old(self).wf(),
            x < 16,
        ensures
            final(self).wf(),
            final(self)@ == (CpuModel {
                regs: old(self)@.regs.update(x as int, random_byte & kk),
                ..old(self)@
            }),
            r == ProgramCounterKind::Next,
    {
        self.registers[x] = random_byte & kk;
        ProgramCounterKind::Next
    }

    fn run_dxyn(&mut self, x: usize, y: usize, n: usize) -> (r: Result<ProgramCounterKind, Fault>)
        requires
            old(self).wf(),
            x < 16,
            y < 16,
            n < 16,
        ensures
            final(self).wf(),
            (if old(self)@.index + n > 4096 {
                final(self)@ == old(self)@ && r == Err::<ProgramCounterKind, Fault>(
                    Fault::MemoryOutOfRange,
                )
            } else {
                ({
                    let sprite = old(self)@.mem.subrange(
                        old(self)@.index as int,
                        old(self)@.index + n,
                    );
                    let vx = old(self)@.regs[x as int] as int;
                    let vy = old(self)@.regs[y as int] as int;
                    let col = blit_collision(old(self)@.vram, sprite, vx, vy);
                    final(self)@ == (CpuModel {
                        vram: blit_vram(old(self)@.vram, sprite, vx, vy),
                        regs: old(self)@.regs.update(15, if col {
                            1u8
                        } else {
                            0u8
                        }),
                        ..old(self)@
                    }) && r == Ok::<ProgramCounterKind, Fault>(ProgramCounterKind::Next)
                })
            }),
    {
        let vx = self.registers[x] as usize;
        let vy = self.registers[y] as usize;
        let idx = self.index as usize;
        if idx + n > MEMORY_SIZE {
            return Err(Fault::MemoryOutOfRange);
        }
        let sprite = slice_subrange(self.memory.as_slice(), idx, idx + n);
        let collision = self.display.draw_sprite(vx, vy, sprite);
        self.registers[0xF] = if collision {
            1
        } else {
            0
        };
        Ok(ProgramCounterKind::Next)
    }

    fn run_ex9e(&self, x: usize) -> (r: ProgramCounterKind)
        requires
            self.wf(),
            x < 16,
        ensures
            r == (if key_down(self@.keys, self@.regs[x as int]) {
                ProgramCounterKind::Skip
            } else {
                ProgramCounterKind::Next
            }),
    {
        let vx = self.registers[x];
        let pressed = vx < 16 && self.gamepad.is_key_idx_pressed(vx as usize);
        ProgramCounterKind::skip_if(pressed)
    }

    fn run_exa1(&self, x: usize) -> (r: ProgramCounterKind)
        requires
            self.wf(),
            x < 16,
        ensures
            r == (if !key_down(self@.keys, self@.regs[x as int]) {
                ProgramCounterKind::Skip
            } else {
                ProgramCounterKind::Next
            }),
    {
        let vx = self.registers[x];
        let pressed = vx < 16 && self.gamepad.is_key_idx_pressed(vx as usize);
        ProgramCounterKind::skip_if(!pressed)
    }

    fn run_fx07(&mut self, x: usize) -> (r: ProgramCounterKind)
        requires
            old(self).wf(),
            x < 16,
        ensures
            final(self).wf(),
            final(self)@ == (CpuModel {
                regs: old(self)@.regs.update(x as int, old(self)@.delay),
                ..old(self)@
            }),
            r == ProgramCounterKind::Next,
    {
        self.registers[x] = self.delay_timer;
        ProgramCounterKind::Next
    }

    fn run_fx0a(&mut self, x: usize) -> (r: ProgramCounterKind)
        requires
            old(self).wf(),
            x < 16,
        ensures
            final(self).wf(),
            (match spec_first_pressed(old(self)@.keys) {
                Some(k) => final(self)@ == (CpuModel {
                    regs: old(self)@.regs.update(x as int, k as u8),
                    ..old(self)@
                }) && r == ProgramCounterKind::Next,
                None => final(self)@ == old(self)@ && r == ProgramCounterKind::Jump(
                    old(self).program_counter,
                ),
            }),
    {
        proof {
            lemma_first_pressed_props(self@.keys);
        }
        match self.gamepad.get_first_pressed_key_idx() {
            Some(idx) => {
                self.registers[x] = idx as u8;
                ProgramCounterKind::Next
            },
            None => ProgramCounterKind::Jump(self.program_counter),
        }
    }

    fn run_fx15(&mut self, x: usize) -> (r: ProgramCounterKind)
        requires
            old(self).wf(),
            x < 16,
        ensures
            final(self).wf(),
            final(self)@ == (CpuModel { delay: old(self)@.regs[x as int], ..old(self)@ }),
            r == ProgramCounterKind::Next,
    {
        self.delay_timer = self.registers[x];
        ProgramCounterKind::Next
    }

    fn run_fx18(&mut self, x: usize) -> (r: ProgramCounterKind)
        requires
            old(self).wf(),
            x < 16,
        ensures
            final(self).wf(),
            final(self)@ == (CpuModel { sound: old(self)@.regs[x as int], ..old(self)@ }),
            r == ProgramCounterKind::Next,
    {
        self.sound_timer = self.registers[x];
        ProgramCounterKind::Next
    }

    fn run_fx1e(&mut self, x: usize) -> (r: ProgramCounterKind)
        requires
            old(self).wf(),
            x < 16,
        ensures
            final(self).wf(),
            final(self)@ == (CpuModel {
                index: wrap16(old(self)@.index + old(self)@.regs[x as int]),
                ..old(self)@
            }),
            r == ProgramCounterKind::Next,
    {
        self.index = self.index.wrapping_add(self.registers[x] as u16);
        ProgramCounterKind::Next
    }

    fn run_fx29(&mut self, x: usize) -> (r: ProgramCounterKind)
        requires
            old(self).wf(),
            x < 16,
        ensures
            final(self).wf(),
            final(self)@ == (CpuModel {
                index: (old(self)@.regs[x as int] * 5) as u16,
                ..old(self)@
            }),
            r == ProgramCounterKind::Next,
    {
        self.index = (self.registers[x] as u16) * 5;
        ProgramCounterKind::Next
    }

    fn run_fx33(&mut self, x: usize) -> (r: Result<ProgramCounterKind, Fault>)
        requires
            old(self).wf(),
            x < 16,
        ensures
            final(self).wf(),
            (if old(self)@.index + 2 > 4095 {
                final(self)@ == old(self)@ && r == Err::<ProgramCounterKind, Fault>(
                    Fault::MemoryOutOfRange,
                )
            } else {
                ({
                    let vx = old(self)@.regs[x as int];
                    let m1 = old(self)@.mem.update(old(self)@.index as int, vx / 100);
                    let m2 = m1.update(old(self)@.index + 1, (vx / 10) % 10);
                    let m3 = m2.update(old(self)@.index + 2, (vx % 100) % 10);
                    final(self)@ == (CpuModel { mem: m3, ..old(self)@ }) && r == Ok::<
                        ProgramCounterKind,
                        Fault,
                    >(ProgramCounterKind::Next)
                })
            }),
    {
        let idx = self.index as usize;
        if idx + 2 > 4095 {
            return Err(Fault::MemoryOutOfRange);
        }
        let vx = self.registers[x];
        self.memory[idx] = vx / 100;
        self.memory[idx + 1] = (vx / 10) % 10;
        self.memory[idx + 2] = (vx % 100) % 10;
        Ok(ProgramCounterKind::Next)
    }

    fn run_fx55(&mut self, x: usize) -> (r: Result<ProgramCounterKind, Fault>)
        requires
            old(self).wf(),
            x < 16,
        ensures
            final(self).wf(),
            (if old(self)@.index + x > 4095 {
                final(self)@ == old(self)@ && r == Err::<ProgramCounterKind, Fault>(
                    Fault::MemoryOutOfRange,
                )
            } else {
                final(self)@ == (CpuModel {
                    mem: copy_regs_to_mem(
                        old(self)@.mem,
                        old(self)@.regs,
                        old(self)@.index as int,
                        x as int,
                    ),
                    ..old(self)@
                }) && r == Ok::<ProgramCounterKind, Fault>(ProgramCounterKind::Next)
            }),
    {
        let idx = self.index as usize;
        if idx + x > 4095 {
            return Err(Fault::MemoryOutOfRange);
        }
        let mut i: usize = 0;
        while i < x + 1
            invariant
                self.wf(),
                x < 16,
                idx + x <= 4095,
                idx == old(self)@.index,
                0 <= i <= x + 1,
                self.registers@ == old(self)@.regs,
                self.memory@.len() == 4096,
                forall|a: int|
                    0 <= a < 4096 ==> #[trigger] self.memory@[a] == (if idx <= a < idx + i {
                        old(self)@.regs[a - idx]
                    } else {
                        old(self)@.mem[a]
                    }),
                self@ == (CpuModel { mem: self.memory@, ..old(self)@ }),
            decreases x + 1 - i,
        {
            self.memory[idx + i] = self.registers[i];
            i = i + 1;
        }
        proof {
            assert(self.memory@ =~= copy_regs_to_mem(
                old(self)@.mem,
                old(self)@.regs,
                idx as int,
                x as int,
            ));
        }
        Ok(ProgramCounterKind::Next)
    }

    fn run_fx65(&mut self, x: usize) -> (r: Result<ProgramCounterKind, Fault>)
        requires
            old(self).wf(),
            x < 16,
        ensures
            final(self).wf(),
            (if old(self)@.index + x > 4095 {
                final(self)@ == old(self)@ && r == Err::<ProgramCounterKind, Fault>(
                    Fault::MemoryOutOfRange,
                )
            } else {
                final(self)@ == (CpuModel {
                    regs: copy_mem_to_regs(
                        old(self)@.mem,
                        old(self)@.regs,
                        old(self)@.index as int,
                        x as int,
                    ),
                    ..old(self)@
                }) && r == Ok::<ProgramCounterKind, Fault>(ProgramCounterKind::Next)
            }),
    {
        let idx = self.index as usize;
        if idx + x > 4095 {
            return Err(Fault::MemoryOutOfRange);
        }
        let mut i: usize = 0;
        while i < x + 1
            invariant
                self.wf(),
                x < 16,
                idx + x <= 4095,
                idx == old(self)@.index,
                0 <= i <= x + 1,
                self.memory@ == old(self)@.mem,
                self.registers@.len() == 16,
                forall|t: int|
                    0 <= t < 16 ==> #[trigger] self.registers@[t] == (if 0 <= t < i {
                        old(self)@.mem[idx + t]
                    } else {
                        old(self)@.regs[t]
                    }),
                self@ == (CpuModel { regs: self.registers@, ..old(self)@ }),
            decreases x + 1 - i,
        {
            self.registers[i] = self.memory[idx + i];
            i = i + 1;
        }
        proof {
            assert(self.registers@ =~= copy_mem_to_regs(
                old(self)@.mem,
                old(self)@.regs,
                idx as int,
                x as int,
            ));
        }
        Ok(ProgramCounterKind::Next)
    }

    fn execute_instruction(&mut self, parts: &OpcodeParts, random_byte: u8) -> (r: Result<
        (),
        Fault,
    >)
        requires
            old(self).wf(),
            old(self).program_counter <= 4094,
            parts@.x < 16,
            parts@.y < 16,
            parts@.n < 16,
            parts@.nnn < 4096,
        ensures
            final(self).wf(),
            final(self)@ == spec_execute(old(self)@, parts@, random_byte).state,
            (match r {
                Ok(u) => spec_execute(old(self)@, parts@, random_byte).fault is None,
                Err(f) => spec_execute(old(self)@, parts@, random_byte).fault == Some(f),
            }),
    {
        let next_program_count = match parts.get_nibbles() {
            (0x0, 0x0, 0xE, 0x0) => self.run_00e0(),
            (0x0, 0x0, 0xE, 0xE) => match self.run_00ee() {
                Ok(p) => p,
                Err(f) => {
                    return Err(f);
                },
            },
            (0x1, _, _, _) => self.run_1nnn(parts.nnn),
            (0x2, _, _, _) => match self.run_2nnn(parts.nnn) {
                Ok(p) => p,
                Err(f) => {
                    return Err(f);
                },
            },
            (0x3, _, _, _) => self.run_3xkk(parts.x, parts.kk),
            (0x4, _, _, _) => self.run_4xkk(parts.x, parts.kk),
            (0x5, _, _, _) => self.run_5xy0(parts.x, parts.y),
            (0x6, _, _, _) => self.run_6xkk(parts.x, parts.kk),
            (0x7, _, _, _) => self.run_7xkk(parts.x, parts.kk),
            (0x8, _, _, 0x0) => self.run_8xy0(parts.x, parts.y),
            (0x8, _, _, 0x1) => self.run_8xy1(parts.x, parts.y),
            (0x8, _, _, 0x2) => self.run_8xy2(parts.x, parts.y),
            (0x8, _, _, 0x3) => self.run_8xy3(parts.x, parts.y),
            (0x8, _, _, 0x4) => self.run_8xy4(parts.x, parts.y),
            (0x8, _, _, 0x5) => self.run_8xy5(parts.x, parts.y),
            (0x8, _, _, 0x6) => self.run_8xy6(parts.x),
            (0x8, _, _, 0x7) => self.run_8xy7(parts.x, parts.y),
            (0x8, _, _, 0xE) => self.run_8xye(parts.x),
            (0x9, _, _, _) => self.run_9xy0(parts.x, parts.y),
            (0xA, _, _, _) => self.run_annn(parts.nnn),
            (0xB, _, _, _) => self.run_bnnn(parts.nnn),
            (0xC, _, _, _) => self.run_cxkk(parts.x, parts.kk, random_byte),
            (0xD, _, _, _) => match self.run_dxyn(parts.x, parts.y, parts.n) {
                Ok(p) => p,
                Err(f) => {
                    return Err(f);
                },
            },
            (0xE, _, _, 0xE) => self.run_ex9e(parts.x),
            (0xE, _, _, 0x1) => self.run_exa1(parts.x),
            (0xF, _, 0x0, 0x7) => self.run_fx07(parts.x),
            (0xF, _, 0x0, 0xA) => self.run_fx0a(parts.x),
            (0xF, _, 0x1, 0x5) => self.run_fx15(parts.x),
            (0xF, _, 0x1, 0x8) => self.run_fx18(parts.x),
            (0xF, _, 0x1, 0xE) => self.run_fx1e(parts.x),
            (0xF, _, 0x2, 0x9) => self.run_fx29(parts.x),
            (0xF, _, 0x3, 0x3) => match self.run_fx33(parts.x) {
                Ok(p) => p,
                Err(f) => {
                    return Err(f);
                },
            },
            (0xF, _, 0x5, 0x5) => match self.run_fx55(parts.x) {
                Ok(p) => p,
                Err(f) => {
                    return Err(f);
                },
            },
            (0xF, _, 0x6, 0x5) => match self.run_fx65(parts.x) {
                Ok(p) => p,
                Err(f) => {
                    return Err(f);
                },
            },
            _ => ProgramCounterKind::Next,
        };

        match next_program_count {
            ProgramCounterKind::Next => self.program_counter = self.program_counter + 2,
            ProgramCounterKind::Skip => self.program_counter = self.program_counter + 4,
            ProgramCounterKind::Jump(n) => self.program_counter = n,
        }
        Ok(())
    }

    /// One fetch-decode-execute cycle. The two bytes at the program counter
    /// are combined big-endian and decoded; both timers are decremented,
    /// floored at zero; the instruction runs and the program counter moves as
    /// it directs. The step hands back the framebuffer and whether the sound
    /// timer still asks for a beep, or reports the fault it detected, leaving
    /// the machine as it stood at the point of detection.
    pub fn tick(&mut self, random_byte: u8) -> (r: Result<ExecutionResult, Fault>)
        requires
            old(self).wf(),
        ensures
            final(self).wf(),
            final(self)@ == spec_step(old(self)@, random_byte).state,
            (match r {
                Ok(out) => spec_step(old(self)@, random_byte).fault is None && out.should_beep == (
                final(self)@.sound > 0) && out.display_state@ == vram_to_bytes(final(self)@.vram),
                Err(f) => spec_step(old(self)@, random_byte).fault == Some(f),
            }),
    {
        if self.program_counter >= MEMORY_SIZE - 1 {
            return Err(Fault::MemoryOutOfRange);
        }
        let pc = self.program_counter;
        let instruction = CPU::calculate_instruction(self.memory[pc], self.memory[pc + 1]);
        let parts = OpcodeParts::new(instruction);
        proof {
            lemma_decode_bounds(instruction);
        }
        self.update_timers();
        match self.execute_instruction(&parts, random_byte) {
            Ok(u) => Ok(
                ExecutionResult::new(self.display.get_vram_copy(), self.sound_timer > 0),
            ),
            Err(f) => Err(f),
        }
    }
}

} // verus!
