use vstd::prelude::*;

use crate::addressing::{advance_pc, operand_word, same_page_next, AddressingMode};
use crate::bus::{bus_read, pop_value, pop_word_value, popped, pushed, pushed_word, BusView};
use crate::cpu::{interrupted, step, tick, CpuView};
use crate::instruction::{carry_in, compared, rmw, Instruction};
use crate::memory::{high_byte, low_byte, word_of};
use crate::register::{
    flag_of, with_flag, with_zn, CpuRegisters, P_FLAGS_B, P_FLAGS_C, P_FLAGS_D, P_FLAGS_I, P_FLAGS_N,
    P_FLAGS_U, P_FLAGS_V, P_FLAGS_Z,
};
use crate::stack::stack_slot;

verus! {

/// Every register of a machine that a step reaches holds a value of its width: SP in
/// `0..=255` and PC in `0..=65535`.
pub proof fn lemma_step_registers_in_range(s: BusView)
    ensures
        step(s) matches Ok((s2, _)) ==> 0 <= s2.regs.sp <= 255 && 0 <= s2.regs.pc <= 65535,
{
}

/// Setting Z and N from a value: Z holds exactly when the value is 0, N exactly when its
/// bit 7 is set, and every other flag keeps its value.
pub proof fn lemma_zn_flags(p: u8, v: u8)
    ensures
        flag_of(with_zn(p, v), P_FLAGS_Z) <==> v == 0,
        flag_of(with_zn(p, v), P_FLAGS_N) <==> v & 0x80 != 0,
        flag_of(with_zn(p, v), P_FLAGS_C) == flag_of(p, P_FLAGS_C),
        flag_of(with_zn(p, v), P_FLAGS_I) == flag_of(p, P_FLAGS_I),
        flag_of(with_zn(p, v), P_FLAGS_D) == flag_of(p, P_FLAGS_D),
        flag_of(with_zn(p, v), P_FLAGS_B) == flag_of(p, P_FLAGS_B),
        flag_of(with_zn(p, v), P_FLAGS_U) == flag_of(p, P_FLAGS_U),
        flag_of(with_zn(p, v), P_FLAGS_V) == flag_of(p, P_FLAGS_V),
{
    let z = v == 0;
    let n = v >= 0x80;
    assert(n <==> v & 0x80 != 0) by (bit_vector)
        requires
            n == (v >= 0x80),
    ;
    let q = with_zn(p, v);
    assert(q == with_flag(with_flag(p, 0x02, z), 0x80, n));
    assert(({
        let q1 = if z {
            p | 0x02
        } else {
            p & !0x02u8
        };
        let q2 = if n {
            q1 | 0x80
        } else {
            q1 & !0x80u8
        };
        &&& (q2 & 0x02 == 0x02) == z
        &&& (q2 & 0x80 == 0x80) == n
        &&& (q2 & 0x01 == 0x01) == (p & 0x01 == 0x01)
        &&& (q2 & 0x04 == 0x04) == (p & 0x04 == 0x04)
        &&& (q2 & 0x08 == 0x08) == (p & 0x08 == 0x08)
        &&& (q2 & 0x10 == 0x10) == (p & 0x10 == 0x10)
        &&& (q2 & 0x20 == 0x20) == (p & 0x20 == 0x20)
        &&& (q2 & 0x40 == 0x40) == (p & 0x40 == 0x40)
    })) by (bit_vector);
}

/// The register that holds the result of an instruction that loads, transfers or
/// computes into a register.
pub open spec fn result_register(ins: Instruction, s: BusView) -> u8 {
    match ins {
        Instruction::Ldx | Instruction::Tax | Instruction::Tsx | Instruction::Inx
        | Instruction::Dex => s.regs.x,
        Instruction::Ldy | Instruction::Tay | Instruction::Iny | Instruction::Dey => s.regs.y,
        _ => s.regs.a,
    }
}

/// The instructions whose result lands in a register and defines Z and N.
pub open spec fn defines_zn_in_register(ins: Instruction) -> bool {
    ins is Lda || ins is Ldx || ins is Ldy || ins is Lax || ins is And || ins is Ora || ins is Eor
        || ins is Adc || ins is Sbc || ins is Pla || ins is Tax || ins is Tay || ins is Txa
        || ins is Tya || ins is Tsx || ins is Inx || ins is Iny || ins is Dex || ins is Dey
}

/// After an instruction that computes into a register, Z says whether that register is 0
/// and N copies its bit 7.
pub proof fn lemma_result_flags(ins: Instruction, mode: AddressingMode, s: BusView, operand: u16)
    requires
        defines_zn_in_register(ins),
    ensures
        ins.semantics(mode, s, operand) matches Ok((s2, _)) ==> {
            &&& flag_of(s2.regs.p, P_FLAGS_Z) <==> result_register(ins, s2) == 0
            &&& flag_of(s2.regs.p, P_FLAGS_N) <==> result_register(ins, s2) & 0x80 != 0
        },
{
    reveal(Instruction::semantics);
    if let Ok((s2, _)) = ins.semantics(mode, s, operand) {
        let v = result_register(ins, s2);
        let r = s.regs;
        let p0 = match ins {
            Instruction::Adc => {
                let sum = r.a + mode.load(s, operand)->Ok_0 + crate::instruction::carry_in(r.p);
                let res = (sum % 256) as u8;
                let vf = (r.a >= 0x80) == (mode.load(s, operand)->Ok_0 >= 0x80) && (r.a >= 0x80)
                    != (res >= 0x80);
                with_flag(with_flag(r.p, P_FLAGS_V, vf), P_FLAGS_C, sum > 0xFF)
            },
            Instruction::Sbc => {
                let m = mode.load(s, operand)->Ok_0;
                let diff = r.a - m - (1 - crate::instruction::carry_in(r.p));
                let res = (diff % 256) as u8;
                let vf = (r.a >= 0x80 && res < 0x80) || (r.a < 0x80 && m >= 0x80 && res >= 0x80);
                with_flag(with_flag(r.p, P_FLAGS_V, vf), P_FLAGS_C, diff >= 0)
            },
            Instruction::Pla => popped(s).regs.p,
            _ => r.p,
        };
        assert(s2.regs.p == with_zn(p0, v));
        lemma_zn_flags(p0, v);
    }
}

/// The value that a read-modify-write instruction stores back, from the byte it read and
/// the flags before it.
pub open spec fn stored_result(ins: Instruction, m: u8, p: u8) -> u8 {
    match ins {
        Instruction::Inc => m.wrapping_add(1),
        Instruction::Dec => m.wrapping_sub(1),
        Instruction::Asl => (m as int * 2 % 256) as u8,
        Instruction::Lsr => m / 2,
        Instruction::Rol => (m as int * 2 % 256 + carry_in(p)) as u8,
        _ => (m / 2 + if flag_of(p, P_FLAGS_C) {
            0x80int
        } else {
            0
        }) as u8,
    }
}

/// After a shift, rotate, increment or decrement, Z says whether the value stored back is
/// 0 and N copies its bit 7.
pub proof fn lemma_read_modify_write_flags(
    ins: Instruction,
    mode: AddressingMode,
    s: BusView,
    operand: u16,
)
    requires
        ins is Inc || ins is Dec || ins is Asl || ins is Lsr || ins is Rol || ins is Ror,
    ensures
        ins.semantics(mode, s, operand) matches Ok((s2, _)) ==> (mode.load(s, operand) matches Ok(
            m,
        ) && (flag_of(s2.regs.p, P_FLAGS_Z) <==> stored_result(ins, m, s.regs.p) == 0) && (
        flag_of(s2.regs.p, P_FLAGS_N) <==> stored_result(ins, m, s.regs.p) & 0x80 != 0)),
{
    reveal(Instruction::semantics);
    if let Ok((s2, _)) = ins.semantics(mode, s, operand) {
        let m = mode.load(s, operand)->Ok_0;
        let r = s.regs;
        let v = stored_result(ins, m, r.p);
        let p0 = match ins {
            Instruction::Inc | Instruction::Dec => r.p,
            Instruction::Asl | Instruction::Rol => with_flag(r.p, P_FLAGS_C, m >= 0x80),
            _ => with_flag(r.p, P_FLAGS_C, m % 2 == 1),
        };
        let regs = CpuRegisters { p: with_zn(p0, v), ..r };
        assert(ins.semantics(mode, s, operand) == rmw(mode, s, operand, regs, v));
        if !(mode is Accumulator) {
            assert(s2.regs == regs);
        }
        lemma_zn_flags(p0, v);
    }
}

/// A comparison of `reg` with `m` sets C exactly when `reg >= m`, Z exactly when they are
/// equal, and N from bit 7 of `reg - m`.
pub proof fn lemma_compare_flags(r: CpuRegisters, reg: u8, m: u8)
    ensures
        flag_of(compared(r, reg, m).p, P_FLAGS_C) <==> reg >= m,
        flag_of(compared(r, reg, m).p, P_FLAGS_Z) <==> reg == m,
        flag_of(compared(r, reg, m).p, P_FLAGS_N) <==> reg.wrapping_sub(m) & 0x80 != 0,
{
    let w = reg >= m;
    let p0 = with_flag(r.p, P_FLAGS_C, w);
    let p = r.p;
    assert((if w {
        p | 0x01
    } else {
        p & !0x01u8
    }) & 0x01 == 0x01 <==> w) by (bit_vector);
    lemma_zn_flags(p0, reg.wrapping_sub(m));
}

/// A pushed byte is what the next pop returns, and the pop puts SP back.
pub proof fn lemma_push_pop(s: BusView, b: u8)
    requires
        s.wf(),
    ensures
        pop_value(pushed(s, b)) == b,
        popped(pushed(s, b)).regs == s.regs,
{
    lemma_wrapping_inverse(s.regs.sp);
}

/// A pushed word is what the next word pop returns, and the pops put SP back.
pub proof fn lemma_push_pop_word(s: BusView, w: u16)
    requires
        s.wf(),
    ensures
        pop_word_value(pushed_word(s, w)) == w,
        popped(popped(pushed_word(s, w))).regs == s.regs,
{
    let sp = s.regs.sp;
    lemma_wrapping_inverse(sp);
    lemma_wrapping_inverse(sp.wrapping_sub(1));
    lemma_word_bytes(w);
    assert(stack_slot(sp) != stack_slot(sp.wrapping_sub(1)));
}

/// Moving SP down then up, or up then down, gives it back.
pub proof fn lemma_wrapping_inverse(sp: u8)
    ensures
        sp.wrapping_sub(1).wrapping_add(1) == sp,
        sp.wrapping_add(1).wrapping_sub(1) == sp,
        sp.wrapping_sub(1) != sp,
{
}

/// A word is rebuilt from its low and high bytes.
pub proof fn lemma_word_bytes(w: u16)
    ensures
        word_of(low_byte(w), high_byte(w)) == w,
{
}

/// `PHA` then `PLA` gives A back, sets Z and N from it, and restores SP.
pub proof fn lemma_pha_pla(s: BusView, operand: u16, operand2: u16)
    requires
        s.wf(),
    ensures
        Instruction::Pha.semantics(AddressingMode::Implicit, s, operand) matches Ok((s1, _))
            && Instruction::Pla.semantics(AddressingMode::Implicit, s1, operand2) matches Ok((s2, _))
            && s2.regs.a == s.regs.a && s2.regs.p == with_zn(s.regs.p, s.regs.a)
            && s2.regs.sp == s.regs.sp,
{
    reveal(Instruction::semantics);
    lemma_push_pop(s, s.regs.a);
}

/// `PHP` then `PLP` gives P back, except that U ends set and B ends clear.
pub proof fn lemma_php_plp(s: BusView, operand: u16, operand2: u16)
    requires
        s.wf(),
    ensures
        Instruction::Php.semantics(AddressingMode::Implicit, s, operand) matches Ok((s1, _))
            && Instruction::Plp.semantics(AddressingMode::Implicit, s1, operand2) matches Ok((s2, _))
            && s2.regs.sp == s.regs.sp && flag_of(s2.regs.p, P_FLAGS_U) && !flag_of(
            s2.regs.p,
            P_FLAGS_B,
        ) && flag_of(s2.regs.p, P_FLAGS_C) == flag_of(s.regs.p, P_FLAGS_C) && flag_of(
            s2.regs.p,
            P_FLAGS_Z,
        ) == flag_of(s.regs.p, P_FLAGS_Z) && flag_of(s2.regs.p, P_FLAGS_I) == flag_of(
            s.regs.p,
            P_FLAGS_I,
        ) && flag_of(s2.regs.p, P_FLAGS_D) == flag_of(s.regs.p, P_FLAGS_D) && flag_of(
            s2.regs.p,
            P_FLAGS_V,
        ) == flag_of(s.regs.p, P_FLAGS_V) && flag_of(s2.regs.p, P_FLAGS_N) == flag_of(
            s.regs.p,
            P_FLAGS_N,
        ),
{
    reveal(Instruction::semantics);
    let p = s.regs.p;
    lemma_push_pop(s, p | P_FLAGS_U | P_FLAGS_B);
    let q = with_flag(with_flag(p | 0x20 | 0x10, 0x20, true), 0x10, false);
    assert(q == ((((p | 0x20) | 0x10) | 0x20) & !0x10u8));
    assert({
        let q = ((((p | 0x20) | 0x10) | 0x20) & !0x10u8);
        &&& q & 0x20 == 0x20
        &&& q & 0x10 != 0x10
        &&& (q & 0x01 == 0x01) == (p & 0x01 == 0x01)
        &&& (q & 0x02 == 0x02) == (p & 0x02 == 0x02)
        &&& (q & 0x04 == 0x04) == (p & 0x04 == 0x04)
        &&& (q & 0x08 == 0x08) == (p & 0x08 == 0x08)
        &&& (q & 0x40 == 0x40) == (p & 0x40 == 0x40)
        &&& (q & 0x80 == 0x80) == (p & 0x80 == 0x80)
    }) by (bit_vector);
}

/// `JSR` then `RTS` comes back to the byte right after the JSR instruction: `s` is the
/// machine once JSR's opcode and operand were fetched, so its PC is that byte.
pub proof fn lemma_jsr_rts(s: BusView, target: u16, operand2: u16)
    requires
        s.wf(),
    ensures
        match Instruction::Jsr.semantics(AddressingMode::Absolute, s, target) {
            Ok((s1, _)) => s1.regs.pc == target && match Instruction::Rts.semantics(
                AddressingMode::Implicit,
                s1,
                operand2,
            ) {
                Ok((s2, _)) => s2.regs.pc == s.regs.pc && s2.regs.sp == s.regs.sp,
                Err(_) => false,
            },
            Err(_) => false,
        },
{
    reveal(Instruction::semantics);
    let w = s.regs.pc.wrapping_sub(1);
    lemma_push_pop_word(s, w);
    let s1 = pushed_word(s, w);
    let s1j = s1.with_regs(crate::instruction::jumped(s1.regs, target));
    assert(pop_word_value(s1j) == pop_word_value(s1));
}

/// `RTI` right after an interrupt entry restores PC as it was, with no increment, and the
/// flags as they were, except that U ends set and B ends clear (the interrupt pushed P with
/// B clear).
pub proof fn lemma_interrupt_rti(s: BusView, target: u16, operand: u16)
    requires
        s.wf(),
    ensures
        Instruction::Rti.semantics(AddressingMode::Implicit, interrupted(s, target), operand) matches Ok((s2, _))
            && s2.regs.pc == s.regs.pc && s2.regs.sp == s.regs.sp && flag_of(s2.regs.p, P_FLAGS_U)
            && !flag_of(s2.regs.p, P_FLAGS_B) && flag_of(s2.regs.p, P_FLAGS_C) == flag_of(
            s.regs.p,
            P_FLAGS_C,
        ) && flag_of(s2.regs.p, P_FLAGS_Z) == flag_of(s.regs.p, P_FLAGS_Z) && flag_of(
            s2.regs.p,
            P_FLAGS_I,
        ) == flag_of(s.regs.p, P_FLAGS_I) && flag_of(s2.regs.p, P_FLAGS_D) == flag_of(
            s.regs.p,
            P_FLAGS_D,
        ) && flag_of(s2.regs.p, P_FLAGS_V) == flag_of(s.regs.p, P_FLAGS_V) && flag_of(
            s2.regs.p,
            P_FLAGS_N,
        ) == flag_of(s.regs.p, P_FLAGS_N),
{
    reveal(Instruction::semantics);
    let p = s.regs.p;
    let sp = s.regs.sp;
    let pb = (p | P_FLAGS_U) & !P_FLAGS_B;
    let s0 = pushed_word(s, s.regs.pc);
    let s1 = pushed(s0, pb);
    lemma_push_pop_word(s, s.regs.pc);
    lemma_push_pop(s0, pb);
    lemma_wrapping_inverse(sp);
    lemma_wrapping_inverse(sp.wrapping_sub(1));
    lemma_wrapping_inverse(sp.wrapping_sub(1).wrapping_sub(1));
    let t = interrupted(s, target);
    assert(t.ram == s1.ram);
    assert(pop_value(t) == pb);
    assert(popped(t).ram == s1.ram);
    assert(stack_slot(sp.wrapping_sub(1).wrapping_sub(1)) != stack_slot(sp));
    assert(stack_slot(sp.wrapping_sub(1).wrapping_sub(1)) != stack_slot(sp.wrapping_sub(1)));
    assert(pop_word_value(popped(t)) == pop_word_value(popped(s1)));
    assert(pop_word_value(popped(s1)) == pop_word_value(s0));
    let q = pb | P_FLAGS_U;
    assert({
        let q = ((p | 0x20) & !0x10u8) | 0x20;
        &&& q & 0x20 == 0x20
        &&& q & 0x10 != 0x10
        &&& (q & 0x01 == 0x01) == (p & 0x01 == 0x01)
        &&& (q & 0x02 == 0x02) == (p & 0x02 == 0x02)
        &&& (q & 0x04 == 0x04) == (p & 0x04 == 0x04)
        &&& (q & 0x08 == 0x08) == (p & 0x08 == 0x08)
        &&& (q & 0x40 == 0x40) == (p & 0x40 == 0x40)
        &&& (q & 0x80 == 0x80) == (p & 0x80 == 0x80)
    }) by (bit_vector);
}

/// The zero-page modes only ever address page zero.
pub proof fn lemma_zero_page_wraps(s: BusView)
    ensures
        AddressingMode::ZeroPage.resolve(s) matches Ok((_, a, _)) ==> a <= 0xFF,
        AddressingMode::ZeroPageX.resolve(s) matches Ok((_, a, _)) ==> a <= 0xFF,
        AddressingMode::ZeroPageY.resolve(s) matches Ok((_, a, _)) ==> a <= 0xFF,
{
}

/// The indirect-jump bug: with a pointer at `$XXFF`, the high byte of the target comes
/// from `$XX00`, not from `$(XX+1)00`.
pub proof fn lemma_indirect_jump_page_wrap(s: BusView, base: u16, low: u8, high: u8)
    requires
        operand_word(s) == Ok::<u16, crate::memory::MemoryError>(base),
        base % 256 == 0xFF,
        bus_read(s, (base - 0xFF) as u16) == Ok::<u8, crate::memory::MemoryError>(high),
        bus_read(s, base) == Ok::<u8, crate::memory::MemoryError>(low),
    ensures
        same_page_next(base) == base - 0xFF,
        AddressingMode::Indirect.resolve(s) == Ok::<(BusView, u16, bool), crate::memory::MemoryError>(
            (advance_pc(s, 2), word_of(low, high), false),
        ),
{
    assert(base % 256 == 0xFF ==> (base & 0xFF00) | ((((base & 0x00FF) + 1) as u16) & 0x00FF)
        == base - 0xFF) by (bit_vector);
}

/// Every tick adds exactly one to the cycle count.
pub proof fn lemma_tick_counts_one_cycle(v: CpuView)
    requires
        v.cycles < u64::MAX,
    ensures
        tick(v) matches Ok(v2) ==> v2.cycles == v.cycles + 1,
{
}

/// A tick fetches and runs exactly one instruction when nothing is owed, and leaves the
/// machine alone otherwise.
pub proof fn lemma_tick_fetches_when_idle(v: CpuView)
    ensures
        v.defer_cycles > 0 ==> (tick(v) matches Ok(v2) && v2.bus == v.bus && v2.defer_cycles
            == v.defer_cycles - 1),
        v.defer_cycles == 0 ==> match step(v.bus) {
            Ok((s, cycles)) => (tick(v) matches Ok(v2) && v2.bus == s && v2.defer_cycles == cycles
                - 1),
            Err(e) => tick(v) == Err::<CpuView, crate::error::CpuError>(e),
        },
{
}

} // verus!
