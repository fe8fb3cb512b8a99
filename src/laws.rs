use vstd::prelude::*;

use crate::cpu::{is_nibbles, is_recognized, Cpu, CpuView, Fault, NextPc};

verus! {

/// SUB never wraps around: with Vx = 5 and Vy = 9, Vx stays 5 and VF becomes 0.
/// With Vx = 9 and Vy = 5, Vx becomes 4 and VF becomes 1. Neither register is VF.
pub proof fn sub_vx_vy_does_not_wrap(c: Cpu, x: u8, y: u8)
    requires
        x < 15,
        y < 15,
    ensures
        c.v[x as int] == 5 && c.v[y as int] == 9 ==> {
            let s = c@.sub_vx_vy(x, y).0;
            s.v[x as int] == 5 && s.v[0xF] == 0
        },
        c.v[x as int] == 9 && c.v[y as int] == 5 ==> {
            let s = c@.sub_vx_vy(x, y).0;
            s.v[x as int] == 4 && s.v[0xF] == 1
        },
{
}

/// SHR of 0b00000011 leaves 0b00000001 with VF = 1; SHL of 0b10000001 leaves
/// 0b00000010 with VF = 1, the high bit dropped. Vx is not VF.
pub proof fn shifts_set_flag_from_dropped_bit(c: Cpu, x: u8, y: u8)
    requires
        x < 15,
    ensures
        c.v[x as int] == 0b00000011 ==> {
            let s = c@.shr_vx_vy(x, y).0;
            s.v[x as int] == 0b00000001 && s.v[0xF] == 1
        },
        c.v[x as int] == 0b10000001 ==> {
            let s = c@.shl_vx_vy(x, y).0;
            s.v[x as int] == 0b00000010 && s.v[0xF] == 1
        },
{
}

/// JP 0x123 puts 0x123 into the program counter, whatever it held before.
pub proof fn jump_overrides_advance(c: Cpu, rnd: u8)
    ensures
        ({
            let (s, next) = c@.step((0x1, 0x1, 0x2, 0x3), rnd);
            &&& next == NextPc::Jump(0x123)
            &&& s.can_advance(next)
            &&& s.advance(next).pc == 0x123
        }),
{
}

/// A program of LD V0, 5 then ADD V0, 3, loaded at the program start, leaves
/// V0 = 8 and `pc` past both instructions after two cycles, whatever byte RND
/// would draw.
pub proof fn load_then_add_runs_in_two_cycles(c: Cpu, r1: u8, r2: u8)
    requires
        c.pc == 0x200,
        c.ram[0x200] == 0x60,
        c.ram[0x201] == 0x05,
        c.ram[0x202] == 0x70,
        c.ram[0x203] == 0x03,
    ensures
        ({
            let s1 = c@.cycle(r1);
            let s2 = s1.0.cycle(r2);
            &&& c@.fault() == None::<Fault>
            &&& s1.0.fault() == None::<Fault>
            &&& s2.0.v[0] == 8
            &&& s2.0.pc == 0x204
        }),
{
}

/// CALL stores no return address, so a RET right after it jumps to whatever the
/// slot above the old stack pointer already held, not to the call site, and
/// leaves the rest of the state as it was before the CALL.
pub proof fn ret_after_call_reads_stale_slot(c: Cpu, n1: u8, n2: u8, n3: u8, rnd: u8)
    requires
        n1 < 16,
        n2 < 16,
        n3 < 16,
        c.sp < 15,
    ensures
        ({
            let (s1, _) = c@.step((0x2, n1, n2, n3), rnd);
            let (s2, next) = s1.step((0x0, 0x0, 0xE, 0xE), rnd);
            &&& s1.can_execute((0x0, 0x0, 0xE, 0xE))
            &&& next == NextPc::Jump(c.stack[c.sp + 1])
            &&& s2 == c@
        }),
{
}

/// An instruction that no rule matches changes no register and moves the program
/// counter on by 2.
pub proof fn unrecognized_is_ignored(c: Cpu, op: (u8, u8, u8, u8), rnd: u8)
    requires
        is_nibbles(op),
        !is_recognized(op),
    ensures
        c@.step(op, rnd) == (c@, NextPc::Next),
        c@.can_fetch() && c@.fetch() == op ==> c@.cycle(rnd) == ((CpuView {
            pc: (c.pc + 2) as u16,
            ..c@
        }), NextPc::Next),
{
}

} // verus!
