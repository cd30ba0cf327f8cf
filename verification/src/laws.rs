use vstd::prelude::*;

verus! {

use crate::cpu::{
    add_imm_effect, add_reg_effect, advance, call_effect, cycle_effect, fetch16, first_key,
    return_effect, shl_effect, shr_effect, skip_eq_imm_effect, skip_eq_reg_effect, skip_key_effect,
    skip_ne_imm_effect, skip_ne_reg_effect, sub_reg_effect, sub_rev_effect, wait_key_effect, Cpu,
    Fault,
};
use crate::decode::{spec_decode, Instr};
use crate::draw::{draw_effect, draw_fb};
use crate::font::font_seq;

/// Register arithmetic wraps. After any arithmetic register operation —
/// add-immediate, add-with-carry, either subtraction, or either shift —
/// every register holds a value in [0, 255]: overflow wraps modulo 256
/// (as each effect relation states) and never yields an out-of-range
/// value.
pub proof fn lemma_reg_ops_in_range(pre: Cpu, post: Cpu, x: int, y: int, nn: u8)
    requires
        pre.wf(),
        0 <= x < 16,
        0 <= y < 16,
        add_imm_effect(pre, post, x, nn) || add_reg_effect(pre, post, x, y) || sub_reg_effect(
            pre,
            post,
            x,
            y,
        ) || sub_rev_effect(pre, post, x, y) || shl_effect(pre, post, x) || shr_effect(
            pre,
            post,
            x,
        ),
    ensures
        post.register@.len() == 16,
        forall|i: int| 0 <= i < 16 ==> 0 <= #[trigger] post.register@[i] <= 255,
{
}

/// Skip instructions move the program counter by exactly 2 or exactly 4
/// (modulo the 4096-byte address space), never any other amount; by 4
/// exactly when the instruction's condition holds.
pub proof fn lemma_skip_delta(pre: Cpu, post: Cpu, x: int, y: int, nn: u8, want: bool)
    requires
        pre.wf(),
        0 <= x < 16,
        0 <= y < 16,
        skip_eq_imm_effect(pre, post, x, nn) || skip_ne_imm_effect(pre, post, x, nn)
            || skip_eq_reg_effect(pre, post, x, y) || skip_ne_reg_effect(pre, post, x, y)
            || skip_key_effect(pre, post, x, want),
    ensures
        post.program_counter == advance(pre.program_counter, 2) || post.program_counter == advance(
            pre.program_counter,
            4,
        ),
        pre.program_counter + 4 < 4096 ==> (post.program_counter == pre.program_counter + 2
            || post.program_counter == pre.program_counter + 4),
        skip_eq_imm_effect(pre, post, x, nn) ==> (post.program_counter == advance(
            pre.program_counter,
            4,
        ) <==> pre.register@[x] == nn),
        skip_ne_imm_effect(pre, post, x, nn) ==> (post.program_counter == advance(
            pre.program_counter,
            4,
        ) <==> pre.register@[x] != nn),
        skip_eq_reg_effect(pre, post, x, y) ==> (post.program_counter == advance(
            pre.program_counter,
            4,
        ) <==> pre.register@[x] == pre.register@[y]),
        skip_ne_reg_effect(pre, post, x, y) ==> (post.program_counter == advance(
            pre.program_counter,
            4,
        ) <==> pre.register@[x] != pre.register@[y]),
        skip_key_effect(pre, post, x, want) ==> (post.program_counter == advance(
            pre.program_counter,
            4,
        ) <==> pre.key@[pre.register@[x] as int % 16] == want),
{
    assert(advance(pre.program_counter, 2) != advance(pre.program_counter, 4));
}

/// A call followed immediately by a return restores the program counter
/// to its pre-call value plus the normal 2-byte advance. This holds at
/// every stack depth with room for the call — up to 15 frames already
/// pushed — and the pair disturbs nothing but the stack slot the call
/// wrote.
pub proof fn lemma_call_then_return(
    pre: Cpu,
    mid: Cpu,
    post: Cpu,
    nnn: u16,
    r1: Result<(), Fault>,
    r2: Result<(), Fault>,
)
    requires
        pre.wf(),
        pre.stack_pointer < 16,
        nnn < 4096,
        call_effect(pre, mid, nnn, r1),
        return_effect(mid, post, r2),
    ensures
        r1 == Ok::<(), Fault>(()),
        r2 == Ok::<(), Fault>(()),
        post.program_counter == advance(pre.program_counter, 2),
        post.stack_pointer == pre.stack_pointer,
        post.stack@ == pre.stack@.update(pre.stack_pointer as int, pre.program_counter),
        post.memory == pre.memory,
        post.register == pre.register,
        post.graphics == pre.graphics,
        post.address_register == pre.address_register,
        post.delay_timer == pre.delay_timer,
        post.sound_timer == pre.sound_timer,
        post.key == pre.key,
{
}

/// A call with the stack already holding its sixteen frames faults with
/// a stack overflow and leaves the machine untouched.
pub proof fn lemma_call_overflow(pre: Cpu, post: Cpu, nnn: u16, r: Result<(), Fault>)
    requires
        pre.wf(),
        pre.stack_pointer == 16,
        call_effect(pre, post, nnn, r),
    ensures
        r == Err::<(), Fault>(Fault::StackOverflow),
        post == pre,
{
}

/// A return with an empty stack faults with a stack underflow and leaves
/// the machine untouched.
pub proof fn lemma_return_underflow(pre: Cpu, post: Cpu, r: Result<(), Fault>)
    requires
        pre.wf(),
        pre.stack_pointer == 0,
        return_effect(pre, post, r),
    ensures
        r == Err::<(), Fault>(Fault::StackUnderflow),
        post == pre,
{
}

/// The XOR blit is self-inverse: drawing any sprite at any position
/// twice returns a framebuffer of 0/1 pixels to exactly its original
/// contents.
pub proof fn lemma_draw_twice_restores(fb: Seq<u8>, sprite: Seq<u8>, vx: int, vy: int)
    requires
        forall|i: int| 0 <= i < fb.len() ==> fb[i] <= 1,
    ensures
        draw_fb(draw_fb(fb, sprite, vx, vy), sprite, vx, vy) == fb,
{
    let once = draw_fb(fb, sprite, vx, vy);
    assert(draw_fb(once, sprite, vx, vy) =~= fb);
}

/// Executing the draw instruction twice with the same selectors restores
/// the framebuffer (and each execution's VF reports that application's
/// own collisions, as the draw effect states). The coordinate registers
/// must not be VF itself, since the first draw overwrites VF.
pub proof fn lemma_draw_twice_machine(
    pre: Cpu,
    mid: Cpu,
    post: Cpu,
    x: int,
    y: int,
    n: int,
    r1: Result<(), Fault>,
    r2: Result<(), Fault>,
)
    requires
        pre.wf(),
        0 <= x < 15,
        0 <= y < 15,
        0 <= n < 16,
        pre.address_register + n <= 4096,
        draw_effect(pre, mid, x, y, n, r1),
        draw_effect(mid, post, x, y, n, r2),
    ensures
        r1 == Ok::<(), Fault>(()),
        r2 == Ok::<(), Fault>(()),
        post.graphics@ == pre.graphics@,
{
    let i0 = pre.address_register as int;
    let sprite = pre.memory@.subrange(i0, i0 + n);
    let vx = pre.register@[x] as int;
    let vy = pre.register@[y] as int;
    assert(mid.memory@ == pre.memory@);
    assert(mid.register@[x] == pre.register@[x]);
    assert(mid.register@[y] == pre.register@[y]);
    lemma_draw_twice_restores(pre.graphics@, sprite, vx, vy);
}

/// The reserved font region is never overwritten by program logic: a
/// step that does not fault leaves the 80 bytes below 0x50 exactly as
/// they were — the store instructions fault on that region instead of
/// writing it — so a machine whose font is intact keeps it intact
/// across every non-faulting cycle. Reads of the region (the
/// font-address, draw and register-load instructions) remain free.
pub proof fn lemma_cycle_preserves_font(pre: Cpu, post: Cpu, r: Result<(), Fault>)
    requires
        pre.wf(),
        cycle_effect(pre, post, r),
        r == Ok::<(), Fault>(()),
    ensures
        forall|i: int| 0 <= i < 80 ==> #[trigger] post.memory@[i] == pre.memory@[i],
        (forall|i: int| 0 <= i < 80 ==> pre.memory@[i] == font_seq()[i]) ==> (forall|i: int|
            0 <= i < 80 ==> #[trigger] post.memory@[i] == font_seq()[i]),
{
    let instr = spec_decode(fetch16(pre));
    match instr {
        Instr::StoreBcd { x } => {
            assert(pre.address_register >= 0x50);
        },
        Instr::StoreRegs { x } => {
            assert(pre.address_register >= 0x50);
        },
        _ => {},
    }
}

/// Wait-for-key re-presents itself. With no key pressed the step leaves
/// the whole machine — program counter included — exactly as it was, so
/// the next step fetches this same instruction again; once some key is
/// pressed the instruction completes in that one step, storing the
/// smallest pressed key index in VX and advancing the program counter
/// normally.
pub proof fn lemma_wait_key(pre: Cpu, post: Cpu, x: int)
    requires
        pre.wf(),
        0 <= x < 16,
        wait_key_effect(pre, post, x),
    ensures
        (forall|k: int| 0 <= k < 16 ==> !pre.key@[k]) ==> post == pre,
        (exists|k: int| 0 <= k < 16 && pre.key@[k]) ==> post.program_counter == advance(
            pre.program_counter,
            2,
        ) && post.register@ == pre.register@.update(x, first_key(pre.key@) as u8) && post.memory
            == pre.memory && post.graphics == pre.graphics && post.key == pre.key,
{
}

} // verus!

