use vstd::prelude::*;

verus! {

use crate::decode::{decode, lemma_decode_wf, spec_decode, Instr};
use crate::draw::draw_effect;
use crate::font::{font_seq, font_table};

/// A fault surfaced to the host. Every fault leaves the machine state
/// exactly as it was before the faulting operation; the host decides
/// whether to halt or reset. An opcode that matches no defined
/// instruction is treated as a fault (the halt policy), never as a no-op.
#[derive(Clone, Copy, PartialEq, Eq, Structural, Debug)]
pub enum Fault {
    /// The fetched opcode matches no defined instruction.
    UnknownOpcode,
    /// A call was executed with the stack pointer already at 16.
    StackOverflow,
    /// A return was executed with the stack pointer at 0.
    StackUnderflow,
    /// A memory access resolved to an address outside [0, 4095].
    OutOfBounds,
    /// A store instruction targeted the reserved font region below 0x50,
    /// which program logic may read but never overwrite.
    ReservedWrite,
    /// The program image would extend past the end of memory.
    ProgramTooLarge,
}

/// The state of one emulated machine: memory, register file, index
/// register, program counter, framebuffer, timers, call stack, keypad,
/// and the pseudo-random generator state used by the random instruction.
///
/// Two behaviours the architecture leaves open are fixed here and used
/// consistently throughout: the index register and the program counter
/// are kept masked to 12 bits (arithmetic on them wraps modulo 4096),
/// and sprite drawing wraps at the screen edges rather than clipping.
pub struct Cpu {
    /// 4096 bytes; the font glyphs live at 0x000..0x050, programs at
    /// 0x200. The font region is reserved: store instructions fault
    /// rather than write below 0x50, though reads of it stay free.
    pub memory: Vec<u8>,
    /// The sixteen 8-bit registers V0..VF; VF doubles as the flag output.
    pub register: Vec<u8>,
    /// The 16-bit index register I, kept below 4096.
    pub address_register: u16,
    /// The program counter, kept below 4096.
    pub program_counter: u16,
    /// The 64x32 framebuffer, row-major, one byte per pixel, each 0 or 1.
    pub graphics: Vec<u8>,
    /// Delay timer, decremented only by the external tick.
    pub delay_timer: u8,
    /// Sound timer, decremented only by the external tick.
    pub sound_timer: u8,
    /// Sixteen 16-bit return addresses.
    pub stack: Vec<u16>,
    /// Number of occupied stack slots, in [0, 16].
    pub stack_pointer: u16,
    /// Sixteen key-press flags, written by the host between steps.
    pub key: Vec<bool>,
    /// State of the linear congruential generator behind the random
    /// instruction, kept below 2^31.
    pub rng: u32,
}

/// Decrement a timer, floored at zero.
pub open spec fn timer_dec(t: u8) -> u8 {
    if t > 0 {
        (t - 1) as u8
    } else {
        0
    }
}

/// The next state of the pseudo-random generator: a linear congruential
/// step with the classic constants, reduced modulo 2^31.
pub open spec fn rng_next(s: u32) -> int {
    (s * 1103515245 + 12345) % 2147483648
}

/// The byte the random instruction draws from a generator state: bits
/// 16 to 23 of the successor state.
pub open spec fn rng_byte(s: u32) -> u8 {
    ((rng_next(s) / 65536) % 256) as u8
}

/// The program counter after advancing by `d` bytes, wrapping modulo 4096.
pub open spec fn advance(pc: u16, d: int) -> u16 {
    ((pc + d) % 4096) as u16
}

/// The 16-bit opcode at the program counter: the byte at PC is the most
/// significant half, the byte at PC + 1 the least.
pub open spec fn fetch16(c: Cpu) -> u16 {
    (c.memory@[c.program_counter as int] * 256 + c.memory@[c.program_counter as int + 1]) as u16
}

/// The smallest pressed key index at or above `i`, or 16 if none is.
pub open spec fn first_key_from(keys: Seq<bool>, i: int) -> int
    decreases 16 - i,
{
    if i < 0 || i >= 16 {
        16
    } else if keys[i] {
        i
    } else {
        first_key_from(keys, i + 1)
    }
}

/// The smallest pressed key index, or 16 if no key is pressed.
pub open spec fn first_key(keys: Seq<bool>) -> int {
    first_key_from(keys, 0)
}

proof fn lemma_first_key_from(keys: Seq<bool>, i: int, k: int)
    requires
        0 <= i <= k < 16,
        keys[k],
        forall|j: int| i <= j < k ==> !keys[j],
    ensures
        first_key_from(keys, i) == k,
    decreases k - i,
{
    if i < k {
        lemma_first_key_from(keys, i + 1, k);
    }
}

impl Cpu {
    /// Structural well-formedness: every sequence has its fixed length,
    /// the program counter, index register and stacked return addresses
    /// are 12-bit values, the stack pointer is in [0, 16], each pixel is
    /// 0 or 1, and the generator state is below its modulus.
    pub open spec fn wf(self) -> bool {
        &&& self.memory@.len() == 4096
        &&& self.register@.len() == 16
        &&& self.graphics@.len() == 2048
        &&& self.stack@.len() == 16
        &&& self.key@.len() == 16
        &&& self.program_counter < 4096
        &&& self.address_register < 4096
        &&& self.stack_pointer <= 16
        &&& self.rng < 2147483648
        &&& (forall|i: int| 0 <= i < 2048 ==> self.graphics@[i] <= 1)
        &&& (forall|i: int| 0 <= i < 16 ==> self.stack@[i] < 4096)
    }

    /// The state a machine is created in: font preloaded at the base of
    /// memory, all other memory zero, all registers, timers, stack slots
    /// and key flags zeroed, the program counter at 0x200, and the
    /// generator at its fixed seed.
    pub open spec fn is_initial(self) -> bool {
        &&& self.memory@.len() == 4096
        &&& (forall|i: int| 0 <= i < 80 ==> self.memory@[i] == font_seq()[i])
        &&& (forall|i: int| 80 <= i < 4096 ==> self.memory@[i] == 0)
        &&& self.register@ == Seq::new(16, |i: int| 0u8)
        &&& self.address_register == 0
        &&& self.program_counter == 0x200
        &&& self.graphics@ == Seq::new(2048, |i: int| 0u8)
        &&& self.delay_timer == 0
        &&& self.sound_timer == 0
        &&& self.stack@ == Seq::new(16, |i: int| 0u16)
        &&& self.stack_pointer == 0
        &&& self.key@ == Seq::new(16, |i: int| false)
        &&& self.rng == 0x2A5F163
    }
}

/// 00E0: the framebuffer is zeroed; nothing else changes but the program
/// counter, which advances by 2.
pub open spec fn clear_effect(pre: Cpu, post: Cpu) -> bool {
    &&& post == (Cpu { graphics: post.graphics, program_counter: advance(pre.program_counter, 2), ..pre })
    &&& post.graphics@ == Seq::new(2048, |i: int| 0u8)
}

/// 00EE: with an empty stack the return faults and nothing changes;
/// otherwise the stack pointer drops by one and the program counter
/// becomes the popped address plus the normal 2-byte advance.
pub open spec fn return_effect(pre: Cpu, post: Cpu, r: Result<(), Fault>) -> bool {
    if pre.stack_pointer == 0 {
        &&& r == Err::<(), Fault>(Fault::StackUnderflow)
        &&& post == pre
    } else {
        &&& r == Ok::<(), Fault>(())
        &&& post == (Cpu {
            stack_pointer: (pre.stack_pointer - 1) as u16,
            program_counter: advance(pre.stack@[pre.stack_pointer - 1], 2),
            ..pre
        })
    }
}

/// 1NNN: the program counter becomes NNN; nothing else changes.
pub open spec fn jump_effect(pre: Cpu, post: Cpu, nnn: u16) -> bool {
    post == (Cpu { program_counter: nnn, ..pre })
}

/// 2NNN: with a full stack the call faults and nothing changes; otherwise
/// the current program counter is pushed, the stack pointer rises by one,
/// and the program counter becomes NNN.
pub open spec fn call_effect(pre: Cpu, post: Cpu, nnn: u16, r: Result<(), Fault>) -> bool {
    if pre.stack_pointer == 16 {
        &&& r == Err::<(), Fault>(Fault::StackOverflow)
        &&& post == pre
    } else {
        &&& r == Ok::<(), Fault>(())
        &&& post == (Cpu {
            stack: post.stack,
            stack_pointer: (pre.stack_pointer + 1) as u16,
            program_counter: nnn,
            ..pre
        })
        &&& post.stack@ == pre.stack@.update(pre.stack_pointer as int, pre.program_counter)
    }
}

/// 3XNN: the program counter advances by 4 if VX == NN, else by 2.
pub open spec fn skip_eq_imm_effect(pre: Cpu, post: Cpu, x: int, nn: u8) -> bool {
    post == (Cpu {
        program_counter: advance(pre.program_counter, if pre.register@[x] == nn { 4int } else { 2int }),
        ..pre
    })
}

/// 4XNN: the program counter advances by 4 if VX != NN, else by 2.
pub open spec fn skip_ne_imm_effect(pre: Cpu, post: Cpu, x: int, nn: u8) -> bool {
    post == (Cpu {
        program_counter: advance(pre.program_counter, if pre.register@[x] != nn { 4int } else { 2int }),
        ..pre
    })
}

/// 5XY0: the program counter advances by 4 if VX == VY, else by 2.
pub open spec fn skip_eq_reg_effect(pre: Cpu, post: Cpu, x: int, y: int) -> bool {
    post == (Cpu {
        program_counter: advance(
            pre.program_counter,
            if pre.register@[x] == pre.register@[y] { 4int } else { 2int },
        ),
        ..pre
    })
}

/// 9XY0: the program counter advances by 4 if VX != VY, else by 2.
pub open spec fn skip_ne_reg_effect(pre: Cpu, post: Cpu, x: int, y: int) -> bool {
    post == (Cpu {
        program_counter: advance(
            pre.program_counter,
            if pre.register@[x] != pre.register@[y] { 4int } else { 2int },
        ),
        ..pre
    })
}

/// 6XNN: VX becomes NN; the program counter advances by 2.
pub open spec fn set_imm_effect(pre: Cpu, post: Cpu, x: int, nn: u8) -> bool {
    &&& post == (Cpu { register: post.register, program_counter: advance(pre.program_counter, 2), ..pre })
    &&& post.register@ == pre.register@.update(x, nn)
}

/// 7XNN: VX becomes VX + NN reduced modulo 256; no flag effect.
pub open spec fn add_imm_effect(pre: Cpu, post: Cpu, x: int, nn: u8) -> bool {
    &&& post == (Cpu { register: post.register, program_counter: advance(pre.program_counter, 2), ..pre })
    &&& post.register@ == pre.register@.update(x, ((pre.register@[x] + nn) % 256) as u8)
}

/// 8XY0: VX becomes VY.
pub open spec fn copy_effect(pre: Cpu, post: Cpu, x: int, y: int) -> bool {
    &&& post == (Cpu { register: post.register, program_counter: advance(pre.program_counter, 2), ..pre })
    &&& post.register@ == pre.register@.update(x, pre.register@[y])
}

/// 8XY1: VX becomes VX | VY.
pub open spec fn or_effect(pre: Cpu, post: Cpu, x: int, y: int) -> bool {
    &&& post == (Cpu { register: post.register, program_counter: advance(pre.program_counter, 2), ..pre })
    &&& post.register@ == pre.register@.update(x, pre.register@[x] | pre.register@[y])
}

/// 8XY2: VX becomes VX & VY.
pub open spec fn and_effect(pre: Cpu, post: Cpu, x: int, y: int) -> bool {
    &&& post == (Cpu { register: post.register, program_counter: advance(pre.program_counter, 2), ..pre })
    &&& post.register@ == pre.register@.update(x, pre.register@[x] & pre.register@[y])
}

/// 8XY3: VX becomes VX ^ VY.
pub open spec fn xor_effect(pre: Cpu, post: Cpu, x: int, y: int) -> bool {
    &&& post == (Cpu { register: post.register, program_counter: advance(pre.program_counter, 2), ..pre })
    &&& post.register@ == pre.register@.update(x, pre.register@[x] ^ pre.register@[y])
}

/// 8XY4: VX becomes VX + VY modulo 256; then VF becomes 1 exactly when the
/// unreduced sum exceeds 255. The flag write is last, so it wins when VF
/// is the destination.
pub open spec fn add_reg_effect(pre: Cpu, post: Cpu, x: int, y: int) -> bool {
    let sum = pre.register@[x] + pre.register@[y];
    &&& post == (Cpu { register: post.register, program_counter: advance(pre.program_counter, 2), ..pre })
    &&& post.register@ == pre.register@.update(x, (sum % 256) as u8).update(
        15,
        if 255 < sum { 1u8 } else { 0u8 },
    )
}

/// 8XY5: VX becomes VX - VY modulo 256; then VF becomes 1 exactly when
/// VX >= VY held before the subtraction (no borrow).
pub open spec fn sub_reg_effect(pre: Cpu, post: Cpu, x: int, y: int) -> bool {
    let vx = pre.register@[x];
    let vy = pre.register@[y];
    &&& post == (Cpu { register: post.register, program_counter: advance(pre.program_counter, 2), ..pre })
    &&& post.register@ == pre.register@.update(x, ((vx - vy) % 256) as u8).update(
        15,
        if vx >= vy { 1u8 } else { 0u8 },
    )
}

/// 8XY6: VX becomes VX >> 1; then VF becomes the shifted-out low bit, as
/// 0 or 1.
pub open spec fn shr_effect(pre: Cpu, post: Cpu, x: int) -> bool {
    let vx = pre.register@[x];
    &&& post == (Cpu { register: post.register, program_counter: advance(pre.program_counter, 2), ..pre })
    &&& post.register@ == pre.register@.update(x, (vx / 2) as u8).update(15, (vx % 2) as u8)
}

/// 8XY7: VX becomes VY - VX modulo 256; then VF becomes 1 exactly when
/// VY >= VX held before the subtraction.
pub open spec fn sub_rev_effect(pre: Cpu, post: Cpu, x: int, y: int) -> bool {
    let vx = pre.register@[x];
    let vy = pre.register@[y];
    &&& post == (Cpu { register: post.register, program_counter: advance(pre.program_counter, 2), ..pre })
    &&& post.register@ == pre.register@.update(x, ((vy - vx) % 256) as u8).update(
        15,
        if vy >= vx { 1u8 } else { 0u8 },
    )
}

/// 8XYE: VX becomes VX << 1 modulo 256; then VF becomes the shifted-out
/// high bit, normalized to 0 or 1.
pub open spec fn shl_effect(pre: Cpu, post: Cpu, x: int) -> bool {
    let vx = pre.register@[x];
    &&& post == (Cpu { register: post.register, program_counter: advance(pre.program_counter, 2), ..pre })
    &&& post.register@ == pre.register@.update(x, ((vx * 2) % 256) as u8).update(15, (vx / 128) as u8)
}

/// ANNN: the index register becomes NNN; the program counter advances by 2.
pub open spec fn set_index_effect(pre: Cpu, post: Cpu, nnn: u16) -> bool {
    post == (Cpu { address_register: nnn, program_counter: advance(pre.program_counter, 2), ..pre })
}

/// BNNN: the program counter becomes NNN + V0, wrapped modulo 4096.
pub open spec fn jump_v0_effect(pre: Cpu, post: Cpu, nnn: u16) -> bool {
    post == (Cpu { program_counter: ((nnn + pre.register@[0]) % 4096) as u16, ..pre })
}

/// CXNN: the generator steps once and VX becomes the drawn byte masked
/// with NN; the program counter advances by 2.
pub open spec fn rand_effect(pre: Cpu, post: Cpu, x: int, nn: u8) -> bool {
    &&& post == (Cpu {
        register: post.register,
        rng: rng_next(pre.rng) as u32,
        program_counter: advance(pre.program_counter, 2),
        ..pre
    })
    &&& post.register@ == pre.register@.update(x, rng_byte(pre.rng) & nn)
}

/// EX9E / EXA1: the key indexed by the low nibble of VX is tested; the
/// program counter advances by 4 when its pressed state equals `want`,
/// else by 2.
pub open spec fn skip_key_effect(pre: Cpu, post: Cpu, x: int, want: bool) -> bool {
    let k = pre.register@[x] as int % 16;
    post == (Cpu {
        program_counter: advance(pre.program_counter, if pre.key@[k] == want { 4int } else { 2int }),
        ..pre
    })
}

/// FX07: VX becomes the delay timer; the program counter advances by 2.
pub open spec fn read_delay_effect(pre: Cpu, post: Cpu, x: int) -> bool {
    &&& post == (Cpu { register: post.register, program_counter: advance(pre.program_counter, 2), ..pre })
    &&& post.register@ == pre.register@.update(x, pre.delay_timer)
}

/// FX0A: with no key pressed the instruction does not retire: the state
/// is exactly what it was, the program counter included, so the same
/// instruction is presented again on the next step. Once a key is
/// pressed, VX becomes the smallest pressed index and the program
/// counter advances by 2.
pub open spec fn wait_key_effect(pre: Cpu, post: Cpu, x: int) -> bool {
    if exists|k: int| 0 <= k < 16 && pre.key@[k] {
        &&& post == (Cpu { register: post.register, program_counter: advance(pre.program_counter, 2), ..pre })
        &&& post.register@ == pre.register@.update(x, first_key(pre.key@) as u8)
    } else {
        post == pre
    }
}

/// FX15: the delay timer becomes VX; the program counter advances by 2.
pub open spec fn set_delay_effect(pre: Cpu, post: Cpu, x: int) -> bool {
    post == (Cpu { delay_timer: pre.register@[x], program_counter: advance(pre.program_counter, 2), ..pre })
}

/// FX18: the sound timer becomes VX; the program counter advances by 2.
pub open spec fn set_sound_effect(pre: Cpu, post: Cpu, x: int) -> bool {
    post == (Cpu { sound_timer: pre.register@[x], program_counter: advance(pre.program_counter, 2), ..pre })
}

/// FX1E: the index register becomes I + VX wrapped modulo 4096, keeping
/// it a 12-bit address; no flag effect.
pub open spec fn add_index_effect(pre: Cpu, post: Cpu, x: int) -> bool {
    post == (Cpu {
        address_register: ((pre.address_register + pre.register@[x]) % 4096) as u16,
        program_counter: advance(pre.program_counter, 2),
        ..pre
    })
}

/// FX29: the index register becomes the base address of the 5-byte font
/// glyph for the low nibble of VX.
pub open spec fn font_addr_effect(pre: Cpu, post: Cpu, x: int) -> bool {
    post == (Cpu {
        address_register: (5 * (pre.register@[x] as int % 16)) as u16,
        program_counter: advance(pre.program_counter, 2),
        ..pre
    })
}

/// FX33: the decimal digits of VX are stored at I, I + 1 and I + 2. A
/// store that would reach past the end of memory, or whose range starts
/// inside the reserved font region below 0x50, faults and changes
/// nothing.
pub open spec fn bcd_effect(pre: Cpu, post: Cpu, x: int, r: Result<(), Fault>) -> bool {
    let i0 = pre.address_register as int;
    let vx = pre.register@[x];
    if i0 + 3 > 4096 {
        &&& r == Err::<(), Fault>(Fault::OutOfBounds)
        &&& post == pre
    } else if i0 < 0x50 {
        &&& r == Err::<(), Fault>(Fault::ReservedWrite)
        &&& post == pre
    } else {
        &&& r == Ok::<(), Fault>(())
        &&& post == (Cpu { memory: post.memory, program_counter: advance(pre.program_counter, 2), ..pre })
        &&& post.memory@ == pre.memory@.update(i0, (vx / 100) as u8).update(
            i0 + 1,
            ((vx / 10) % 10) as u8,
        ).update(i0 + 2, (vx % 10) as u8)
    }
}

/// FX55: V0..VX inclusive are stored into memory at I..I+X. A store
/// that would reach past the end of memory, or whose range starts
/// inside the reserved font region below 0x50, faults and changes
/// nothing. The index register itself is left unchanged by the
/// transfer.
pub open spec fn store_regs_effect(pre: Cpu, post: Cpu, x: int, r: Result<(), Fault>) -> bool {
    let i0 = pre.address_register as int;
    if i0 + x + 1 > 4096 {
        &&& r == Err::<(), Fault>(Fault::OutOfBounds)
        &&& post == pre
    } else if i0 < 0x50 {
        &&& r == Err::<(), Fault>(Fault::ReservedWrite)
        &&& post == pre
    } else {
        &&& r == Ok::<(), Fault>(())
        &&& post == (Cpu { memory: post.memory, program_counter: advance(pre.program_counter, 2), ..pre })
        &&& post.memory@.len() == 4096
        &&& (forall|j: int| 0 <= j <= x ==> post.memory@[i0 + j] == pre.register@[j])
        &&& (forall|j: int| 0 <= j < 4096 && !(i0 <= j <= i0 + x) ==> post.memory@[j] == pre.memory@[j])
    }
}

/// FX65: memory at I..I+X is loaded into V0..VX inclusive; an access past
/// the end of memory faults and changes nothing. The index register
/// itself is left unchanged by the transfer.
pub open spec fn load_regs_effect(pre: Cpu, post: Cpu, x: int, r: Result<(), Fault>) -> bool {
    let i0 = pre.address_register as int;
    if i0 + x + 1 > 4096 {
        &&& r == Err::<(), Fault>(Fault::OutOfBounds)
        &&& post == pre
    } else {
        &&& r == Ok::<(), Fault>(())
        &&& post == (Cpu { register: post.register, program_counter: advance(pre.program_counter, 2), ..pre })
        &&& post.register@.len() == 16
        &&& (forall|j: int| 0 <= j <= x ==> post.register@[j] == pre.memory@[i0 + j])
        &&& (forall|j: int| x < j < 16 ==> post.register@[j] == pre.register@[j])
    }
}

/// The external 60 Hz tick: both timers drop by one, floored at zero.
/// It is never invoked by the instruction cycle.
pub open spec fn tick_effect(pre: Cpu, post: Cpu) -> bool {
    post == (Cpu {
        delay_timer: timer_dec(pre.delay_timer),
        sound_timer: timer_dec(pre.sound_timer),
        ..pre
    })
}

/// Loading a program image: the bytes land at 0x200 onwards and nothing
/// else changes; an image that would run past the end of memory is
/// rejected whole, before anything is written.
pub open spec fn load_program_effect(pre: Cpu, post: Cpu, prog: Seq<u8>, r: Result<(), Fault>) -> bool {
    if prog.len() > 3584 {
        &&& r == Err::<(), Fault>(Fault::ProgramTooLarge)
        &&& post == pre
    } else {
        &&& r == Ok::<(), Fault>(())
        &&& post == (Cpu { memory: post.memory, ..pre })
        &&& post.memory@.len() == 4096
        &&& (forall|j: int| 0 <= j < prog.len() ==> post.memory@[0x200 + j] == prog[j])
        &&& (forall|j: int|
            0 <= j < 4096 && !(0x200 <= j < 0x200 + prog.len()) ==> post.memory@[j] == pre.memory@[j])
    }
}

/// What one decoded instruction does to the machine: the dispatch map
/// from instruction to its effect relation. Handlers that cannot fault
/// return `Ok`; an opcode with no defined instruction faults and leaves
/// the state untouched (the halt policy).
pub open spec fn instr_effect(i: Instr, pre: Cpu, post: Cpu, r: Result<(), Fault>) -> bool {
    match i {
        Instr::ClearScreen => r == Ok::<(), Fault>(()) && clear_effect(pre, post),
        Instr::Return => return_effect(pre, post, r),
        Instr::Jump { nnn } => r == Ok::<(), Fault>(()) && jump_effect(pre, post, nnn),
        Instr::Call { nnn } => call_effect(pre, post, nnn, r),
        Instr::SkipEqImm { x, nn } => r == Ok::<(), Fault>(()) && skip_eq_imm_effect(
            pre,
            post,
            x as int,
            nn,
        ),
        Instr::SkipNeImm { x, nn } => r == Ok::<(), Fault>(()) && skip_ne_imm_effect(
            pre,
            post,
            x as int,
            nn,
        ),
        Instr::SkipEqReg { x, y } => r == Ok::<(), Fault>(()) && skip_eq_reg_effect(
            pre,
            post,
            x as int,
            y as int,
        ),
        Instr::SetImm { x, nn } => r == Ok::<(), Fault>(()) && set_imm_effect(pre, post, x as int, nn),
        Instr::AddImm { x, nn } => r == Ok::<(), Fault>(()) && add_imm_effect(pre, post, x as int, nn),
        Instr::Copy { x, y } => r == Ok::<(), Fault>(()) && copy_effect(pre, post, x as int, y as int),
        Instr::BitOr { x, y } => r == Ok::<(), Fault>(()) && or_effect(pre, post, x as int, y as int),
        Instr::BitAnd { x, y } => r == Ok::<(), Fault>(()) && and_effect(pre, post, x as int, y as int),
        Instr::BitXor { x, y } => r == Ok::<(), Fault>(()) && xor_effect(pre, post, x as int, y as int),
        Instr::AddReg { x, y } => r == Ok::<(), Fault>(()) && add_reg_effect(
            pre,
            post,
            x as int,
            y as int,
        ),
        Instr::SubReg { x, y } => r == Ok::<(), Fault>(()) && sub_reg_effect(
            pre,
            post,
            x as int,
            y as int,
        ),
        Instr::ShiftRight { x } => r == Ok::<(), Fault>(()) && shr_effect(pre, post, x as int),
        Instr::SubRev { x, y } => r == Ok::<(), Fault>(()) && sub_rev_effect(
            pre,
            post,
            x as int,
            y as int,
        ),
        Instr::ShiftLeft { x } => r == Ok::<(), Fault>(()) && shl_effect(pre, post, x as int),
        Instr::SkipNeReg { x, y } => r == Ok::<(), Fault>(()) && skip_ne_reg_effect(
            pre,
            post,
            x as int,
            y as int,
        ),
        Instr::SetIndex { nnn } => r == Ok::<(), Fault>(()) && set_index_effect(pre, post, nnn),
        Instr::JumpV0 { nnn } => r == Ok::<(), Fault>(()) && jump_v0_effect(pre, post, nnn),
        Instr::Rand { x, nn } => r == Ok::<(), Fault>(()) && rand_effect(pre, post, x as int, nn),
        Instr::Draw { x, y, n } => draw_effect(pre, post, x as int, y as int, n as int, r),
        Instr::SkipKey { x } => r == Ok::<(), Fault>(()) && skip_key_effect(pre, post, x as int, true),
        Instr::SkipNoKey { x } => r == Ok::<(), Fault>(()) && skip_key_effect(
            pre,
            post,
            x as int,
            false,
        ),
        Instr::ReadDelay { x } => r == Ok::<(), Fault>(()) && read_delay_effect(pre, post, x as int),
        Instr::WaitKey { x } => r == Ok::<(), Fault>(()) && wait_key_effect(pre, post, x as int),
        Instr::SetDelay { x } => r == Ok::<(), Fault>(()) && set_delay_effect(pre, post, x as int),
        Instr::SetSound { x } => r == Ok::<(), Fault>(()) && set_sound_effect(pre, post, x as int),
        Instr::AddIndex { x } => r == Ok::<(), Fault>(()) && add_index_effect(pre, post, x as int),
        Instr::FontAddr { x } => r == Ok::<(), Fault>(()) && font_addr_effect(pre, post, x as int),
        Instr::StoreBcd { x } => bcd_effect(pre, post, x as int, r),
        Instr::StoreRegs { x } => store_regs_effect(pre, post, x as int, r),
        Instr::LoadRegs { x } => load_regs_effect(pre, post, x as int, r),
        Instr::Unknown => r == Err::<(), Fault>(Fault::UnknownOpcode) && post == pre,
    }
}

/// What one execution step does: a fetch whose second byte would lie
/// past the end of memory faults with the state untouched; otherwise the
/// opcode at the program counter is decoded and its instruction's effect
/// holds between the old and the new state.
pub open spec fn cycle_effect(pre: Cpu, post: Cpu, r: Result<(), Fault>) -> bool {
    if pre.program_counter >= 4095 {
        &&& r == Err::<(), Fault>(Fault::OutOfBounds)
        &&& post == pre
    } else {
        instr_effect(spec_decode(fetch16(pre)), pre, post, r)
    }
}

impl Cpu {
    /// Creates a machine in its initial state: font preloaded, all else
    /// zeroed, program counter at 0x200.
    pub fn new() -> (cpu: Cpu)
        ensures
            cpu.wf(),
            cpu.is_initial(),
    {
        let font: Vec<u8> = font_table();
        let mut memory: Vec<u8> = Vec::new();
        let mut i: usize = 0;
        while i < 4096
            invariant
                i <= 4096,
                memory@.len() == i,
                forall|j: int| 0 <= j < i ==> memory@[j] == 0,
            decreases 4096 - i,
        {
            memory.push(0);
            i = i + 1;
        }
        let mut k: usize = 0;
        while k < 80
            invariant
                k <= 80,
                font@ == font_seq(),
                memory@.len() == 4096,
                forall|j: int| 0 <= j < k ==> memory@[j] == font_seq()[j],
                forall|j: int| k <= j < 4096 ==> memory@[j] == 0,
            decreases 80 - k,
        {
            memory[k] = font[k];
            k = k + 1;
        }
        let cpu = Cpu {
            memory,
            register: vec![0u8, 0, 0, 0, 0, 0, 0, 0, 0, 0, 0, 0, 0, 0, 0, 0],
            address_register: 0,
            program_counter: 0x200,
            graphics: Vec::new(),
            delay_timer: 0,
            sound_timer: 0,
            stack: vec![0u16, 0, 0, 0, 0, 0, 0, 0, 0, 0, 0, 0, 0, 0, 0, 0],
            stack_pointer: 0,
            key: vec![
                false, false, false, false, false, false, false, false, false, false, false, false,
                false, false, false, false,
            ],
            rng: 0x2A5F163,
        };
        let mut cpu = cpu;
        let mut g: usize = 0;
        while g < 2048
            invariant
                g <= 2048,
                cpu.graphics@.len() == g,
                forall|j: int| 0 <= j < g ==> cpu.graphics@[j] == 0,
                cpu.memory@.len() == 4096,
                forall|j: int| 0 <= j < 80 ==> cpu.memory@[j] == font_seq()[j],
                forall|j: int| 80 <= j < 4096 ==> cpu.memory@[j] == 0,
                cpu.register@ == Seq::new(16, |i: int| 0u8),
                cpu.address_register == 0,
                cpu.program_counter == 0x200,
                cpu.delay_timer == 0,
                cpu.sound_timer == 0,
                cpu.stack@ == Seq::new(16, |i: int| 0u16),
                cpu.stack_pointer == 0,
                cpu.key@ == Seq::new(16, |i: int| false),
                cpu.rng == 0x2A5F163,
            decreases 2048 - g,
        {
            cpu.graphics.push(0);
            g = g + 1;
        }
        proof {
            assert(cpu.register@ =~= Seq::new(16, |i: int| 0u8));
            assert(cpu.graphics@ =~= Seq::new(2048, |i: int| 0u8));
            assert(cpu.stack@ =~= Seq::new(16, |i: int| 0u16));
            assert(cpu.key@ =~= Seq::new(16, |i: int| false));
        }
        cpu
    }

    /// One fetch-decode-execute cycle: read the opcode at the program
    /// counter, decode it, run its handler. Handlers that redirect
    /// control flow set the program counter themselves; every other
    /// handler advances it by 2. A fault leaves the machine exactly as
    /// it was and is returned to the host.
    pub fn cycle(&mut self) -> (r: Result<(), Fault>)
        requires
            old(self).wf(),
        ensures
            final(self).wf(),
            cycle_effect(*old(self), *final(self), r),
    {
        let op = match self.fetch_opcode() {
            Ok(o) => o,
            Err(f) => {
                return Err(f);
            },
        };
        let i = decode(op);
        proof {
            lemma_decode_wf(op);
        }
        match i {
            Instr::ClearScreen => {
                self.clear_screen();
                Ok(())
            },
            Instr::Return => self.cpu_return(),
            Instr::Jump { nnn } => {
                self.jump(nnn);
                Ok(())
            },
            Instr::Call { nnn } => self.call(nnn),
            Instr::SkipEqImm { x, nn } => {
                self.skip_equal(x, nn);
                Ok(())
            },
            Instr::SkipNeImm { x, nn } => {
                self.skip_not_equal(x, nn);
                Ok(())
            },
            Instr::SkipEqReg { x, y } => {
                self.skip_regs_equal(x, y);
                Ok(())
            },
            Instr::SetImm { x, nn } => {
                self.set_vx_num(x, nn);
                Ok(())
            },
            Instr::AddImm { x, nn } => {
                self.add_vx_num(x, nn);
                Ok(())
            },
            Instr::Copy { x, y } => {
                self.set_vx_vy(x, y);
                Ok(())
            },
            Instr::BitOr { x, y } => {
                self.set_vx_or(x, y);
                Ok(())
            },
            Instr::BitAnd { x, y } => {
                self.set_vx_and(x, y);
                Ok(())
            },
            Instr::BitXor { x, y } => {
                self.set_vx_xor(x, y);
                Ok(())
            },
            Instr::AddReg { x, y } => {
                self.add_vx_vy(x, y);
                Ok(())
            },
            Instr::SubReg { x, y } => {
                self.sub_vx_vy(x, y);
                Ok(())
            },
            Instr::ShiftRight { x } => {
                self.shr_vx(x);
                Ok(())
            },
            Instr::SubRev { x, y } => {
                self.sub_vy_vx(x, y);
                Ok(())
            },
            Instr::ShiftLeft { x } => {
                self.shl_vx(x);
                Ok(())
            },
            Instr::SkipNeReg { x, y } => {
                self.skip_regs_not_equal(x, y);
                Ok(())
            },
            Instr::SetIndex { nnn } => {
                self.set_adr_reg(nnn);
                Ok(())
            },
            Instr::JumpV0 { nnn } => {
                self.jump_add(nnn);
                Ok(())
            },
            Instr::Rand { x, nn } => {
                self.rand_vx(x, nn);
                Ok(())
            },
            Instr::Draw { x, y, n } => self.draw(x, y, n),
            Instr::SkipKey { x } => {
                self.skip_key_press(x, true);
                Ok(())
            },
            Instr::SkipNoKey { x } => {
                self.skip_key_press(x, false);
                Ok(())
            },
            Instr::ReadDelay { x } => {
                self.set_vx_delay(x);
                Ok(())
            },
            Instr::WaitKey { x } => {
                self.set_vx_key(x);
                Ok(())
            },
            Instr::SetDelay { x } => {
                self.set_delay_vx(x);
                Ok(())
            },
            Instr::SetSound { x } => {
                self.set_sound_vx(x);
                Ok(())
            },
            Instr::AddIndex { x } => {
                self.add_adr_reg(x);
                Ok(())
            },
            Instr::FontAddr { x } => {
                self.font_adr_reg(x);
                Ok(())
            },
            Instr::StoreBcd { x } => self.store_bcd(x),
            Instr::StoreRegs { x } => self.store_regs(x),
            Instr::LoadRegs { x } => self.load_regs(x),
            Instr::Unknown => Err(Fault::UnknownOpcode),
        }
    }

    /// Reads the two bytes at the program counter, most significant
    /// first, as one 16-bit opcode; a fetch whose second byte would lie
    /// past the end of memory faults.
    pub fn fetch_opcode(&self) -> (r: Result<u16, Fault>)
        requires
            self.wf(),
        ensures
            r == (if self.program_counter >= 4095 {
                Err::<u16, Fault>(Fault::OutOfBounds)
            } else {
                Ok::<u16, Fault>(fetch16(*self))
            }),
    {
        if self.program_counter >= 4095 {
            return Err(Fault::OutOfBounds);
        }
        let hi = self.memory[self.program_counter as usize];
        let lo = self.memory[self.program_counter as usize + 1];
        Ok((hi as u16) * 256 + (lo as u16))
    }

    /// 00E0: clear the screen.
    pub fn clear_screen(&mut self)
        requires
            old(self).wf(),
        ensures
            final(self).wf(),
            clear_effect(*old(self), *final(self)),
    {
        let mut i: usize = 0;
        while i < 2048
            invariant
                i <= 2048,
                old(self).wf(),
                self.graphics@.len() == 2048,
                forall|j: int| 0 <= j < i ==> self.graphics@[j] == 0,
                forall|j: int| i <= j < 2048 ==> self.graphics@[j] == old(self).graphics@[j],
                *self == (Cpu { graphics: self.graphics, ..*old(self) }),
            decreases 2048 - i,
        {
            self.graphics[i] = 0;
            i = i + 1;
        }
        self.program_counter = (self.program_counter + 2) % 4096;
        proof {
            assert(self.graphics@ =~= Seq::new(2048, |i: int| 0u8));
        }
    }

    /// 00EE: return from a call.
    pub fn cpu_return(&mut self) -> (r: Result<(), Fault>)
        requires
            old(self).wf(),
        ensures
            final(self).wf(),
            return_effect(*old(self), *final(self), r),
    {
        if self.stack_pointer == 0 {
            return Err(Fault::StackUnderflow);
        }
        self.stack_pointer = self.stack_pointer - 1;
        let target = self.stack[self.stack_pointer as usize];
        self.program_counter = (target + 2) % 4096;
        Ok(())
    }

    /// 1NNN: jump.
    pub fn jump(&mut self, nnn: u16)
        requires
            old(self).wf(),
            nnn < 4096,
        ensures
            final(self).wf(),
            jump_effect(*old(self), *final(self), nnn),
    {
        self.program_counter = nnn;
    }

    /// 2NNN: call a subroutine.
    pub fn call(&mut self, nnn: u16) -> (r: Result<(), Fault>)
        requires
            old(self).wf(),
            nnn < 4096,
        ensures
            final(self).wf(),
            call_effect(*old(self), *final(self), nnn, r),
    {
        if self.stack_pointer == 16 {
            return Err(Fault::StackOverflow);
        }
        let sp = self.stack_pointer as usize;
        self.stack[sp] = self.program_counter;
        self.stack_pointer = self.stack_pointer + 1;
        self.program_counter = nnn;
        Ok(())
    }

    /// 3XNN: skip the next instruction if VX == NN.
    pub fn skip_equal(&mut self, x: usize, nn: u8)
        requires
            old(self).wf(),
            x < 16,
        ensures
            final(self).wf(),
            skip_eq_imm_effect(*old(self), *final(self), x as int, nn),
    {
        if self.register[x] == nn {
            self.program_counter = (self.program_counter + 4) % 4096;
        } else {
            self.program_counter = (self.program_counter + 2) % 4096;
        }
    }

    /// 4XNN: skip the next instruction if VX != NN.
    pub fn skip_not_equal(&mut self, x: usize, nn: u8)
        requires
            old(self).wf(),
            x < 16,
        ensures
            final(self).wf(),
            skip_ne_imm_effect(*old(self), *final(self), x as int, nn),
    {
        if self.register[x] != nn {
            self.program_counter = (self.program_counter + 4) % 4096;
        } else {
            self.program_counter = (self.program_counter + 2) % 4096;
        }
    }

    /// 5XY0: skip the next instruction if VX == VY.
    pub fn skip_regs_equal(&mut self, x: usize, y: usize)
        requires
            old(self).wf(),
            x < 16,
            y < 16,
        ensures
            final(self).wf(),
            skip_eq_reg_effect(*old(self), *final(self), x as int, y as int),
    {
        if self.register[x] == self.register[y] {
            self.program_counter = (self.program_counter + 4) % 4096;
        } else {
            self.program_counter = (self.program_counter + 2) % 4096;
        }
    }

    /// 9XY0: skip the next instruction if VX != VY.
    pub fn skip_regs_not_equal(&mut self, x: usize, y: usize)
        requires
            old(self).wf(),
            x < 16,
            y < 16,
        ensures
            final(self).wf(),
            skip_ne_reg_effect(*old(self), *final(self), x as int, y as int),
    {
        if self.register[x] != self.register[y] {
            self.program_counter = (self.program_counter + 4) % 4096;
        } else {
            self.program_counter = (self.program_counter + 2) % 4096;
        }
    }

    /// 6XNN: set VX to NN.
    pub fn set_vx_num(&mut self, x: usize, nn: u8)
        requires
            old(self).wf(),
            x < 16,
        ensures
            final(self).wf(),
            set_imm_effect(*old(self), *final(self), x as int, nn),
    {
        self.register[x] = nn;
        self.program_counter = (self.program_counter + 2) % 4096;
    }

    /// 7XNN: add NN to VX, wrapping modulo 256, with no flag effect.
    pub fn add_vx_num(&mut self, x: usize, nn: u8)
        requires
            old(self).wf(),
            x < 16,
        ensures
            final(self).wf(),
            add_imm_effect(*old(self), *final(self), x as int, nn),
    {
        let sum: u16 = self.register[x] as u16 + nn as u16;
        self.register[x] = (sum % 256) as u8;
        self.program_counter = (self.program_counter + 2) % 4096;
    }

    /// 8XY0: set VX to VY.
    pub fn set_vx_vy(&mut self, x: usize, y: usize)
        requires
            old(self).wf(),
            x < 16,
            y < 16,
        ensures
            final(self).wf(),
            copy_effect(*old(self), *final(self), x as int, y as int),
    {
        let v = self.register[y];
        self.register[x] = v;
        self.program_counter = (self.program_counter + 2) % 4096;
    }

    /// 8XY1: set VX to VX | VY.
    pub fn set_vx_or(&mut self, x: usize, y: usize)
        requires
            old(self).wf(),
            x < 16,
            y < 16,
        ensures
            final(self).wf(),
            or_effect(*old(self), *final(self), x as int, y as int),
    {
        let v = self.register[x] | self.register[y];
        self.register[x] = v;
        self.program_counter = (self.program_counter + 2) % 4096;
    }

    /// 8XY2: set VX to VX & VY.
    pub fn set_vx_and(&mut self, x: usize, y: usize)
        requires
            old(self).wf(),
            x < 16,
            y < 16,
        ensures
            final(self).wf(),
            and_effect(*old(self), *final(self), x as int, y as int),
    {
        let v = self.register[x] & self.register[y];
        self.register[x] = v;
        self.program_counter = (self.program_counter + 2) % 4096;
    }

    /// 8XY3: set VX to VX ^ VY.
    pub fn set_vx_xor(&mut self, x: usize, y: usize)
        requires
            old(self).wf(),
            x < 16,
            y < 16,
        ensures
            final(self).wf(),
            xor_effect(*old(self), *final(self), x as int, y as int),
    {
        let v = self.register[x] ^ self.register[y];
        self.register[x] = v;
        self.program_counter = (self.program_counter + 2) % 4096;
    }

    /// 8XY4: add VY to VX modulo 256, recording the carry in VF.
    pub fn add_vx_vy(&mut self, x: usize, y: usize)
        requires
            old(self).wf(),
            x < 16,
            y < 16,
        ensures
            final(self).wf(),
            add_reg_effect(*old(self), *final(self), x as int, y as int),
    {
        let sum: u16 = self.register[x] as u16 + self.register[y] as u16;
        self.register[x] = (sum % 256) as u8;
        let carry: u8 = if sum > 255 {
            1
        } else {
            0
        };
        self.register[15] = carry;
        self.program_counter = (self.program_counter + 2) % 4096;
    }

    /// 8XY5: subtract VY from VX modulo 256, recording no-borrow in VF.
    pub fn sub_vx_vy(&mut self, x: usize, y: usize)
        requires
            old(self).wf(),
            x < 16,
            y < 16,
        ensures
            final(self).wf(),
            sub_reg_effect(*old(self), *final(self), x as int, y as int),
    {
        let vx = self.register[x];
        let vy = self.register[y];
        let diff: u8 = if vx >= vy {
            vx - vy
        } else {
            ((256 + vx as u16) - vy as u16) as u8
        };
        let flag: u8 = if vx >= vy {
            1
        } else {
            0
        };
        self.register[x] = diff;
        self.register[15] = flag;
        self.program_counter = (self.program_counter + 2) % 4096;
    }

    /// 8XY6: shift VX right by one, recording the old low bit in VF.
    pub fn shr_vx(&mut self, x: usize)
        requires
            old(self).wf(),
            x < 16,
        ensures
            final(self).wf(),
            shr_effect(*old(self), *final(self), x as int),
    {
        let vx = self.register[x];
        self.register[x] = vx / 2;
        self.register[15] = vx % 2;
        self.program_counter = (self.program_counter + 2) % 4096;
    }

    /// 8XY7: set VX to VY - VX modulo 256, recording no-borrow in VF.
    pub fn sub_vy_vx(&mut self, x: usize, y: usize)
        requires
            old(self).wf(),
            x < 16,
            y < 16,
        ensures
            final(self).wf(),
            sub_rev_effect(*old(self), *final(self), x as int, y as int),
    {
        let vx = self.register[x];
        let vy = self.register[y];
        let diff: u8 = if vy >= vx {
            vy - vx
        } else {
            ((256 + vy as u16) - vx as u16) as u8
        };
        let flag: u8 = if vy >= vx {
            1
        } else {
            0
        };
        self.register[x] = diff;
        self.register[15] = flag;
        self.program_counter = (self.program_counter + 2) % 4096;
    }

    /// 8XYE: shift VX left by one modulo 256, recording the old high bit
    /// in VF as 0 or 1.
    pub fn shl_vx(&mut self, x: usize)
        requires
            old(self).wf(),
            x < 16,
        ensures
            final(self).wf(),
            shl_effect(*old(self), *final(self), x as int),
    {
        let vx = self.register[x];
        let doubled: u16 = vx as u16 * 2;
        self.register[x] = (doubled % 256) as u8;
        self.register[15] = vx / 128;
        self.program_counter = (self.program_counter + 2) % 4096;
    }

    /// ANNN: set the index register.
    pub fn set_adr_reg(&mut self, nnn: u16)
        requires
            old(self).wf(),
            nnn < 4096,
        ensures
            final(self).wf(),
            set_index_effect(*old(self), *final(self), nnn),
    {
        self.address_register = nnn;
        self.program_counter = (self.program_counter + 2) % 4096;
    }

    /// BNNN: jump to NNN + V0, wrapped modulo 4096.
    pub fn jump_add(&mut self, nnn: u16)
        requires
            old(self).wf(),
            nnn < 4096,
        ensures
            final(self).wf(),
            jump_v0_effect(*old(self), *final(self), nnn),
    {
        self.program_counter = (nnn + self.register[0] as u16) % 4096;
    }

    /// CXNN: draw a byte from the pseudo-random generator, mask it with
    /// NN, and store it in VX. The generator is a fixed linear
    /// congruential sequence seeded at initialization, so the machine is
    /// deterministic; a host that wants entropy can reseed by
    /// constructing a fresh machine state.
    pub fn rand_vx(&mut self, x: usize, nn: u8)
        requires
            old(self).wf(),
            x < 16,
        ensures
            final(self).wf(),
            rand_effect(*old(self), *final(self), x as int, nn),
    {
        let next: u64 = (self.rng as u64 * 1103515245 + 12345) % 2147483648;
        self.rng = next as u32;
        let byte: u8 = ((next / 65536) % 256) as u8;
        self.register[x] = byte & nn;
        self.program_counter = (self.program_counter + 2) % 4096;
    }

    /// EX9E / EXA1: skip the next instruction if the key indexed by the
    /// low nibble of VX is pressed (`want` true) or not pressed (`want`
    /// false).
    pub fn skip_key_press(&mut self, x: usize, want: bool)
        requires
            old(self).wf(),
            x < 16,
        ensures
            final(self).wf(),
            skip_key_effect(*old(self), *final(self), x as int, want),
    {
        let k = (self.register[x] % 16) as usize;
        if self.key[k] == want {
            self.program_counter = (self.program_counter + 4) % 4096;
        } else {
            self.program_counter = (self.program_counter + 2) % 4096;
        }
    }

    /// FX07: set VX to the delay timer.
    pub fn set_vx_delay(&mut self, x: usize)
        requires
            old(self).wf(),
            x < 16,
        ensures
            final(self).wf(),
            read_delay_effect(*old(self), *final(self), x as int),
    {
        let t = self.delay_timer;
        self.register[x] = t;
        self.program_counter = (self.program_counter + 2) % 4096;
    }

    /// FX0A: wait for a key. With no key pressed the machine state is
    /// left untouched, the program counter included, so the host's next
    /// step re-presents this same instruction; once a key is pressed, VX
    /// receives the smallest pressed index and the instruction retires.
    pub fn set_vx_key(&mut self, x: usize)
        requires
            old(self).wf(),
            x < 16,
        ensures
            final(self).wf(),
            wait_key_effect(*old(self), *final(self), x as int),
    {
        let mut k: usize = 0;
        while k < 16
            invariant
                k <= 16,
                old(self).wf(),
                x < 16,
                *self == *old(self),
                forall|j: int| 0 <= j < k ==> !self.key@[j],
            decreases 16 - k,
        {
            if self.key[k] {
                proof {
                    lemma_first_key_from(self.key@, 0, k as int);
                    assert(self.key@[k as int]);
                }
                self.register[x] = k as u8;
                self.program_counter = (self.program_counter + 2) % 4096;
                return;
            }
            k = k + 1;
        }
    }

    /// FX15: set the delay timer to VX.
    pub fn set_delay_vx(&mut self, x: usize)
        requires
            old(self).wf(),
            x < 16,
        ensures
            final(self).wf(),
            set_delay_effect(*old(self), *final(self), x as int),
    {
        let v = self.register[x];
        self.delay_timer = v;
        self.program_counter = (self.program_counter + 2) % 4096;
    }

    /// FX18: set the sound timer to VX.
    pub fn set_sound_vx(&mut self, x: usize)
        requires
            old(self).wf(),
            x < 16,
        ensures
            final(self).wf(),
            set_sound_effect(*old(self), *final(self), x as int),
    {
        let v = self.register[x];
        self.sound_timer = v;
        self.program_counter = (self.program_counter + 2) % 4096;
    }

    /// FX1E: add VX to the index register, wrapped modulo 4096 so that I
    /// stays a 12-bit address; no flag effect.
    pub fn add_adr_reg(&mut self, x: usize)
        requires
            old(self).wf(),
            x < 16,
        ensures
            final(self).wf(),
            add_index_effect(*old(self), *final(self), x as int),
    {
        self.address_register = (self.address_register + self.register[x] as u16) % 4096;
        self.program_counter = (self.program_counter + 2) % 4096;
    }

    /// FX29: point the index register at the font glyph for the low
    /// nibble of VX; each glyph is five bytes, so glyph g lives at 5 * g.
    pub fn font_adr_reg(&mut self, x: usize)
        requires
            old(self).wf(),
            x < 16,
        ensures
            final(self).wf(),
            font_addr_effect(*old(self), *final(self), x as int),
    {
        let g: u16 = (self.register[x] % 16) as u16;
        self.address_register = 5 * g;
        self.program_counter = (self.program_counter + 2) % 4096;
    }

    /// FX33: store the hundreds, tens and units digits of VX at I, I + 1
    /// and I + 2. The reserved font region below 0x50 may not be written.
    pub fn store_bcd(&mut self, x: usize) -> (r: Result<(), Fault>)
        requires
            old(self).wf(),
            x < 16,
        ensures
            final(self).wf(),
            bcd_effect(*old(self), *final(self), x as int, r),
    {
        if self.address_register as usize + 3 > 4096 {
            return Err(Fault::OutOfBounds);
        }
        if self.address_register < 0x50 {
            return Err(Fault::ReservedWrite);
        }
        let i0 = self.address_register as usize;
        let vx = self.register[x];
        self.memory[i0] = vx / 100;
        self.memory[i0 + 1] = (vx / 10) % 10;
        self.memory[i0 + 2] = vx % 10;
        self.program_counter = (self.program_counter + 2) % 4096;
        Ok(())
    }

    /// FX55: store V0..VX inclusive into memory starting at I. The
    /// reserved font region below 0x50 may not be written.
    pub fn store_regs(&mut self, x: usize) -> (r: Result<(), Fault>)
        requires
            old(self).wf(),
            x < 16,
        ensures
            final(self).wf(),
            store_regs_effect(*old(self), *final(self), x as int, r),
    {
        if self.address_register as usize + x + 1 > 4096 {
            return Err(Fault::OutOfBounds);
        }
        if self.address_register < 0x50 {
            return Err(Fault::ReservedWrite);
        }
        let i0 = self.address_register as usize;
        let mut j: usize = 0;
        while j <= x
            invariant
                old(self).wf(),
                x < 16,
                j <= x + 1,
                i0 == old(self).address_register as usize,
                i0 + x + 1 <= 4096,
                self.memory@.len() == 4096,
                forall|t: int| 0 <= t < j ==> self.memory@[i0 + t] == old(self).register@[t],
                forall|t: int|
                    0 <= t < 4096 && !(i0 <= t < i0 + j) ==> self.memory@[t] == old(self).memory@[t],
                *self == (Cpu { memory: self.memory, ..*old(self) }),
            decreases x + 1 - j,
        {
            let v = self.register[j];
            self.memory[i0 + j] = v;
            j = j + 1;
        }
        self.program_counter = (self.program_counter + 2) % 4096;
        Ok(())
    }

    /// FX65: load memory starting at I into V0..VX inclusive.
    pub fn load_regs(&mut self, x: usize) -> (r: Result<(), Fault>)
        requires
            old(self).wf(),
            x < 16,
        ensures
            final(self).wf(),
            load_regs_effect(*old(self), *final(self), x as int, r),
    {
        if self.address_register as usize + x + 1 > 4096 {
            return Err(Fault::OutOfBounds);
        }
        let i0 = self.address_register as usize;
        let mut j: usize = 0;
        while j <= x
            invariant
                old(self).wf(),
                x < 16,
                j <= x + 1,
                i0 == old(self).address_register as usize,
                i0 + x + 1 <= 4096,
                self.register@.len() == 16,
                forall|t: int| 0 <= t < j ==> self.register@[t] == old(self).memory@[i0 + t],
                forall|t: int| j <= t < 16 ==> self.register@[t] == old(self).register@[t],
                *self == (Cpu { register: self.register, ..*old(self) }),
            decreases x + 1 - j,
        {
            let v = self.memory[i0 + j];
            self.register[j] = v;
            j = j + 1;
        }
        self.program_counter = (self.program_counter + 2) % 4096;
        Ok(())
    }

    /// The host's fixed-rate tick: decrement both timers, floored at
    /// zero. This is never called by the instruction cycle.
    pub fn tick_timers(&mut self)
        requires
            old(self).wf(),
        ensures
            final(self).wf(),
            tick_effect(*old(self), *final(self)),
    {
        if self.delay_timer > 0 {
            self.delay_timer = self.delay_timer - 1;
        }
        if self.sound_timer > 0 {
            self.sound_timer = self.sound_timer - 1;
        }
    }

    /// Writes a program image into memory starting at 0x200. An image
    /// that would run past the end of the 4096-byte space is rejected
    /// whole and nothing is written.
    pub fn load_program(&mut self, prog: &Vec<u8>) -> (r: Result<(), Fault>)
        requires
            old(self).wf(),
        ensures
            final(self).wf(),
            load_program_effect(*old(self), *final(self), prog@, r),
    {
        if prog.len() > 3584 {
            return Err(Fault::ProgramTooLarge);
        }
        let mut j: usize = 0;
        while j < prog.len()
            invariant
                old(self).wf(),
                prog@.len() <= 3584,
                j <= prog@.len(),
                self.memory@.len() == 4096,
                forall|t: int| 0 <= t < j ==> self.memory@[0x200 + t] == prog@[t],
                forall|t: int|
                    0 <= t < 4096 && !(0x200 <= t < 0x200 + j) ==> self.memory@[t] == old(self).memory@[t],
                *self == (Cpu { memory: self.memory, ..*old(self) }),
            decreases prog@.len() - j,
        {
            let v = prog[j];
            self.memory[512 + j] = v;
            j = j + 1;
        }
        Ok(())
    }

    /// Overwrites one key-press flag; the host calls this between steps
    /// to mirror the physical keyboard.
    pub fn set_key(&mut self, k: usize, pressed: bool)
        requires
            old(self).wf(),
            k < 16,
        ensures
            final(self).wf(),
            *final(self) == (Cpu { key: final(self).key, ..*old(self) }),
            final(self).key@ == old(self).key@.update(k as int, pressed),
    {
        self.key[k] = pressed;
    }
}

} // verus!
