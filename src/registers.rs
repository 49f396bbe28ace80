//! The processor's register file: paired 8-bit lanes, flag bits, the clock.
use vstd::prelude::*;

verus! {

/// The 16-bit value of a pair whose high (most significant) lane is `hi` and low lane is `lo`.
pub open spec fn compose(hi: u8, lo: u8) -> u16 {
    (hi as int * 256 + lo as int) as u16
}

/// The most significant byte of `v`.
pub open spec fn high_byte(v: u16) -> u8 {
    (v as int / 256) as u8
}

/// The least significant byte of `v`.
pub open spec fn low_byte(v: u16) -> u8 {
    (v as int % 256) as u8
}

/// Two 8-bit lanes that can also be read and written as one 16-bit value.
///
/// The first lane is the high byte of the 16-bit value (B of BC, A of AF, ...), the second the low byte.
#[derive(Clone, Copy)]
pub struct RegisterPair {
    hi: u8,
    lo: u8,
}

impl View for RegisterPair {
    /// (high lane, low lane)
    type V = (u8, u8);

    closed spec fn view(&self) -> (u8, u8) {
        (self.hi, self.lo)
    }
}

impl RegisterPair {
    /// A pair with both lanes zero.
    pub fn new() -> (r: RegisterPair)
        ensures
            r@ == (0u8, 0u8),
    {
        RegisterPair { hi: 0, lo: 0 }
    }

    /// The 16-bit value of the pair: high lane times 256 plus low lane.
    pub fn as_u16(&self) -> (r: u16)
        ensures
            r == compose(self@.0, self@.1),
    {
        (self.hi as u16) * 256 + (self.lo as u16)
    }

    /// Splits `v` over the two lanes: its high byte into the high lane, its low byte into the low lane.
    pub fn write_u16(&mut self, v: u16)
        ensures
            final(self)@ == (high_byte(v), low_byte(v)),
    {
        self.hi = (v / 256) as u8;
        self.lo = (v % 256) as u8;
    }
}

/// Writing a value into a pair and reading the pair back gives that value, for every 16-bit value:
/// a pair whose lanes are the bytes that `write_u16(v)` stores composes to `v` again.
pub proof fn lemma_pair_round_trip(lanes: (u8, u8), v: u16)
    requires
        lanes == (high_byte(v), low_byte(v)),
    ensures
        compose(lanes.0, lanes.1) == v,
{
}

/// Timing state: coarse machine cycles and fine clock ticks (four ticks per machine cycle).
///
/// Both counters only grow; they stop at their largest value instead of wrapping.
#[derive(Clone, Copy)]
pub struct Clock {
    m: u64,
    t: u64,
}

impl View for Clock {
    /// (machine cycles, clock ticks)
    type V = (u64, u64);

    closed spec fn view(&self) -> (u64, u64) {
        (self.m, self.t)
    }
}

/// `x + y`, or `u64::MAX` where the sum does not fit.
pub open spec fn saturating_sum(x: u64, y: u64) -> u64 {
    if x + y > u64::MAX {
        u64::MAX
    } else {
        (x + y) as u64
    }
}

/// The clock after `cycles` more machine cycles have elapsed.
pub open spec fn clock_after(clock: (u64, u64), cycles: u8) -> (u64, u64) {
    (saturating_sum(clock.0, cycles as u64), saturating_sum(clock.1, (4 * cycles as int) as u64))
}

impl Clock {
    /// A clock with both counters zero.
    pub fn new() -> (r: Clock)
        ensures
            r@ == (0u64, 0u64),
    {
        Clock { m: 0, t: 0 }
    }

    /// Machine cycles elapsed so far.
    pub fn machine_cycles(&self) -> (r: u64)
        ensures
            r == self@.0,
    {
        self.m
    }

    /// Clock ticks elapsed so far.
    pub fn clock_ticks(&self) -> (r: u64)
        ensures
            r == self@.1,
    {
        self.t
    }

    /// Accounts for `cycles` machine cycles (and four clock ticks for each).
    pub fn tick(&mut self, cycles: u8)
        ensures
            final(self)@ == clock_after(old(self)@, cycles),
            final(self)@.0 >= old(self)@.0,
            final(self)@.1 >= old(self)@.1,
    {
        self.m = self.m.saturating_add(cycles as u64);
        self.t = self.t.saturating_add(4 * (cycles as u64));
    }
}

/// Identifies one 8-bit lane of the register file.
#[derive(Clone, Copy, Debug, PartialEq, Eq, Structural)]
pub enum SmallWidthRegister {
    B,
    C,
    A,
    F,
    D,
    E,
    H,
    L,
}

/// Identifies one 16-bit register: the two scalar registers and the four lane pairs.
#[derive(Clone, Copy, Debug, PartialEq, Eq, Structural)]
pub enum WideRegister {
    PC,
    SP,
    BC,
    AF,
    DE,
    HL,
}

/// Mask of the zero flag in the F lane.
pub const ZERO_BIT: u8 = 0x80;

/// Mask of the subtract flag in the F lane.
pub const SUBTRACT_BIT: u8 = 0x40;

/// Mask of the half-carry flag in the F lane.
pub const HALF_CARRY_BIT: u8 = 0x20;

/// Mask of the carry flag in the F lane (bit 4, as on the Game Boy's processor).
pub const CARRY_BIT: u8 = 0x10;

/// The mathematical model of the register file.
pub ghost struct RegisterState {
    pub pc: u16,
    pub sp: u16,
    pub b: u8,
    pub c: u8,
    pub a: u8,
    pub f: u8,
    pub d: u8,
    pub e: u8,
    pub h: u8,
    pub l: u8,
    /// (machine cycles, clock ticks)
    pub clock: (u64, u64),
    pub interrupts_enabled: bool,
}

impl RegisterState {
    /// The state of a freshly built register file: everything zero, interrupts disabled.
    pub open spec fn zeroed() -> RegisterState {
        RegisterState {
            pc: 0,
            sp: 0,
            b: 0,
            c: 0,
            a: 0,
            f: 0,
            d: 0,
            e: 0,
            h: 0,
            l: 0,
            clock: (0, 0),
            interrupts_enabled: false,
        }
    }

    /// The value of lane `r`.
    pub open spec fn lane(self, r: SmallWidthRegister) -> u8 {
        match r {
            SmallWidthRegister::B => self.b,
            SmallWidthRegister::C => self.c,
            SmallWidthRegister::A => self.a,
            SmallWidthRegister::F => self.f,
            SmallWidthRegister::D => self.d,
            SmallWidthRegister::E => self.e,
            SmallWidthRegister::H => self.h,
            SmallWidthRegister::L => self.l,
        }
    }

    /// This state with lane `r` holding `v` and everything else as it was.
    pub open spec fn with_lane(self, r: SmallWidthRegister, v: u8) -> RegisterState {
        match r {
            SmallWidthRegister::B => RegisterState { b: v, ..self },
            SmallWidthRegister::C => RegisterState { c: v, ..self },
            SmallWidthRegister::A => RegisterState { a: v, ..self },
            SmallWidthRegister::F => RegisterState { f: v, ..self },
            SmallWidthRegister::D => RegisterState { d: v, ..self },
            SmallWidthRegister::E => RegisterState { e: v, ..self },
            SmallWidthRegister::H => RegisterState { h: v, ..self },
            SmallWidthRegister::L => RegisterState { l: v, ..self },
        }
    }

    /// The value of the 16-bit register `r`.
    pub open spec fn wide(self, r: WideRegister) -> u16 {
        match r {
            WideRegister::PC => self.pc,
            WideRegister::SP => self.sp,
            WideRegister::BC => compose(self.b, self.c),
            WideRegister::AF => compose(self.a, self.f),
            WideRegister::DE => compose(self.d, self.e),
            WideRegister::HL => compose(self.h, self.l),
        }
    }

    /// This state with the 16-bit register `r` holding `v` and everything else as it was.
    pub open spec fn with_wide(self, r: WideRegister, v: u16) -> RegisterState {
        match r {
            WideRegister::PC => RegisterState { pc: v, ..self },
            WideRegister::SP => RegisterState { sp: v, ..self },
            WideRegister::BC => RegisterState { b: high_byte(v), c: low_byte(v), ..self },
            WideRegister::AF => RegisterState { a: high_byte(v), f: low_byte(v), ..self },
            WideRegister::DE => RegisterState { d: high_byte(v), e: low_byte(v), ..self },
            WideRegister::HL => RegisterState { h: high_byte(v), l: low_byte(v), ..self },
        }
    }

    /// Whether the carry bit of the F lane is set.
    pub open spec fn carry_flag(self) -> bool {
        self.f & CARRY_BIT != 0
    }
}

/// `after` is `before` with the carry bit of F set to `state`, every other bit of F and every other
/// register unchanged.
pub open spec fn carry_written(before: RegisterState, after: RegisterState, state: bool) -> bool {
    &&& after == before.with_lane(SmallWidthRegister::F, after.f)
    &&& after.carry_flag() == state
    &&& after.f & !CARRY_BIT == before.f & !CARRY_BIT
}

/// Register file of the processor: four lane pairs, program counter, stack pointer, clock and
/// interrupt-enable flag.
pub struct Registers {
    pc: u16,
    sp: u16,
    bc: RegisterPair,
    af: RegisterPair,
    de: RegisterPair,
    hl: RegisterPair,
    clock: Clock,
    interrupts_enabled: bool,
}

impl View for Registers {
    type V = RegisterState;

    closed spec fn view(&self) -> RegisterState {
        RegisterState {
            pc: self.pc,
            sp: self.sp,
            b: self.bc@.0,
            c: self.bc@.1,
            a: self.af@.0,
            f: self.af@.1,
            d: self.de@.0,
            e: self.de@.1,
            h: self.hl@.0,
            l: self.hl@.1,
            clock: self.clock@,
            interrupts_enabled: self.interrupts_enabled,
        }
    }
}

impl Registers {
    /// A register file with every register and counter zero and interrupts disabled.
    pub fn new() -> (r: Registers)
        ensures
            r@ == RegisterState::zeroed(),
    {
        Registers {
            pc: 0,
            sp: 0,
            bc: RegisterPair::new(),
            af: RegisterPair::new(),
            de: RegisterPair::new(),
            hl: RegisterPair::new(),
            clock: Clock::new(),
            interrupts_enabled: false,
        }
    }

    /// The program counter.
    pub fn pc(&self) -> (r: u16)
        ensures
            r == self@.pc,
    {
        self.read_r16(WideRegister::PC)
    }

    /// The stack pointer.
    pub fn sp(&self) -> (r: u16)
        ensures
            r == self@.sp,
    {
        self.read_r16(WideRegister::SP)
    }

    /// Advances the program counter by `by`, wrapping modulo 65536.
    pub fn inc_pc(&mut self, by: u16)
        ensures
            final(self)@ == old(self)@.with_wide(
                WideRegister::PC,
                ((old(self)@.pc as int + by as int) % 65536) as u16,
            ),
    {
        let next = self.read_r16(WideRegister::PC).wrapping_add(by);
        self.write_r16(WideRegister::PC, next);
    }

    /// The value of lane `reg`.
    pub fn read_r8(&self, reg: SmallWidthRegister) -> (r: u8)
        ensures
            r == self@.lane(reg),
    {
        match reg {
            SmallWidthRegister::B => self.bc.hi,
            SmallWidthRegister::C => self.bc.lo,
            SmallWidthRegister::A => self.af.hi,
            SmallWidthRegister::F => self.af.lo,
            SmallWidthRegister::D => self.de.hi,
            SmallWidthRegister::E => self.de.lo,
            SmallWidthRegister::H => self.hl.hi,
            SmallWidthRegister::L => self.hl.lo,
        }
    }

    /// Stores `val` in lane `reg`, leaving every other register as it was.
    pub fn write_r8(&mut self, reg: SmallWidthRegister, val: u8)
        ensures
            final(self)@ == old(self)@.with_lane(reg, val),
    {
        match reg {
            SmallWidthRegister::B => self.bc.hi = val,
            SmallWidthRegister::C => self.bc.lo = val,
            SmallWidthRegister::A => self.af.hi = val,
            SmallWidthRegister::F => self.af.lo = val,
            SmallWidthRegister::D => self.de.hi = val,
            SmallWidthRegister::E => self.de.lo = val,
            SmallWidthRegister::H => self.hl.hi = val,
            SmallWidthRegister::L => self.hl.lo = val,
        }
    }

    /// The value of the 16-bit register `reg`; a pair reads as high lane times 256 plus low lane.
    pub fn read_r16(&self, reg: WideRegister) -> (r: u16)
        ensures
            r == self@.wide(reg),
    {
        match reg {
            WideRegister::PC => self.pc,
            WideRegister::SP => self.sp,
            WideRegister::BC => self.bc.as_u16(),
            WideRegister::AF => self.af.as_u16(),
            WideRegister::DE => self.de.as_u16(),
            WideRegister::HL => self.hl.as_u16(),
        }
    }

    /// Stores `val` in the 16-bit register `reg`, leaving every other register as it was.
    pub fn write_r16(&mut self, reg: WideRegister, val: u16)
        ensures
            final(self)@ == old(self)@.with_wide(reg, val),
    {
        match reg {
            WideRegister::PC => self.pc = val,
            WideRegister::SP => self.sp = val,
            WideRegister::BC => self.bc.write_u16(val),
            WideRegister::AF => self.af.write_u16(val),
            WideRegister::DE => self.de.write_u16(val),
            WideRegister::HL => self.hl.write_u16(val),
        }
    }

    /// Whether the carry bit of the F lane is set.
    pub fn carry(&self) -> (r: bool)
        ensures
            r == self@.carry_flag(),
    {
        self.read_r8(SmallWidthRegister::F) & CARRY_BIT != 0
    }

    /// Sets or clears the carry bit of the F lane, leaving its other bits and every other register
    /// as they were.
    pub fn set_carry(&mut self, state: bool)
        ensures
            carry_written(old(self)@, final(self)@, state),
    {
        let current: u8 = self.read_r8(SmallWidthRegister::F);
        let flags: u8 = if state {
            current | CARRY_BIT
        } else {
            current & !CARRY_BIT
        };
        assert((flags & CARRY_BIT != 0) == state && flags & !CARRY_BIT == current & !CARRY_BIT)
            by (bit_vector)
            requires
                flags == (if state { current | 0x10u8 } else { current & !0x10u8 }),
        ;
        self.write_r8(SmallWidthRegister::F, flags);
    }

    /// Whether interrupts are enabled.
    pub fn interrupts_enabled(&self) -> (r: bool)
        ensures
            r == self@.interrupts_enabled,
    {
        self.interrupts_enabled
    }

    /// Enables or disables interrupts, leaving every other register as it was.
    pub fn set_interrupts_enabled(&mut self, enabled: bool)
        ensures
            final(self)@ == (RegisterState { interrupts_enabled: enabled, ..old(self)@ }),
    {
        self.interrupts_enabled = enabled;
    }

    /// The clock.
    pub fn clock(&self) -> (r: &Clock)
        ensures
            r@ == self@.clock,
    {
        &self.clock
    }

    /// Accounts for `cycles` machine cycles on the clock, leaving every other register as it was.
    pub fn tick(&mut self, cycles: u8)
        ensures
            final(self)@ == (RegisterState { clock: clock_after(old(self)@.clock, cycles), ..old(self)@ }),
    {
        self.clock.tick(cycles);
    }
}

} // verus!

verus! {

/// Whether bit `i` (0 the least significant) of `x` is set.
pub open spec fn bit_set(x: u8, i: u8) -> bool {
    (x >> i) & 1 == 1
}

/// Writing lane `r` and reading it back gives the written value, and any other lane `other`
/// reads as before the write.
pub proof fn lemma_lane_independence(
    before: RegisterState,
    r: SmallWidthRegister,
    other: SmallWidthRegister,
    v: u8,
)
    requires
        other != r,
    ensures
        before.with_lane(r, v).lane(r) == v,
        before.with_lane(r, v).lane(other) == before.lane(other),
{
}

/// Writing the carry flag and reading it back gives the written state; every bit of F other than
/// the carry bit keeps its value, so setting the flag sets that one bit and clearing it clears that
/// one bit.
pub proof fn lemma_flag_isolation(before: RegisterState, after: RegisterState, state: bool)
    requires
        carry_written(before, after, state),
    ensures
        after.carry_flag() == state,
        forall|i: u8| i < 8 && i != 4 ==> bit_set(after.f, i) == bit_set(before.f, i),
        state ==> after.f == before.f | CARRY_BIT,
        !state ==> after.f == before.f & !CARRY_BIT,
{
    let x = before.f;
    let y = after.f;
    assert(forall|i: u8| i < 8 && i != 4 ==> #[trigger] ((y >> i) & 1) == (x >> i) & 1)
        by (bit_vector)
        requires
            y & !0x10u8 == x & !0x10u8,
    ;
    assert(state ==> y == x | 0x10u8) by (bit_vector)
        requires
            y & !0x10u8 == x & !0x10u8,
            (y & 0x10u8 != 0) == state,
    ;
    assert(!state ==> y == x & !0x10u8) by (bit_vector)
        requires
            y & !0x10u8 == x & !0x10u8,
            (y & 0x10u8 != 0) == state,
    ;
}

} // verus!
