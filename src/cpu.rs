use vstd::prelude::*;

verus! {

/// Number of bytes of addressable memory.
pub const RAM_SIZE: usize = 0xFFF;

/// Offset at which a program is loaded.
pub const PROGRAM_START: u16 = 0x200;

/// Index of the flag register VF.
pub const FLAG: usize = 0xF;

/// The CPU state: register file, memory, call stack and timers.
///
/// All arithmetic on registers wraps: 8 bits for V0 to VF, 16 bits for I.
pub struct Cpu {
    /// General registers V0 to VF; VF doubles as the flag register.
    pub v: [u8; 16],
    /// Index register; only its low 12 bits address memory.
    pub i: u16,
    /// Delay timer. Nothing counts it down: it is plain storage.
    pub delay: u8,
    /// Sound timer. Nothing counts it down: it is plain storage.
    pub sound: u8,
    /// Address of the next instruction.
    pub pc: u16,
    /// Index of the current slot of `stack`; 0 when the stack is empty.
    pub sp: u8,
    /// Return addresses. CALL does not write here (see `CpuView::call_addr`).
    pub stack: [u16; 16],
    /// Memory: the font glyphs at the bottom, the program from `PROGRAM_START` on.
    pub ram: [u8; 0xFFF],
}

/// What the program counter does after an instruction.
#[derive(Clone, Copy, Debug, PartialEq, Eq, Structural)]
pub enum NextPc {
    /// Advance by one instruction (2 bytes).
    Next,
    /// Skip the following instruction (4 bytes).
    Skip,
    /// Continue at an absolute address.
    Jump(u16),
}

/// A fault that stops the run: the instruction cannot be carried out.
#[derive(Clone, Copy, Debug, PartialEq, Eq, Structural)]
pub enum Fault {
    /// The instruction at `pc` does not lie wholly inside memory.
    PcOutOfBounds,
    /// RET with an empty stack (`sp` is 0).
    StackUnderflow,
    /// CALL with no slot left above `sp`, or RET with `sp` past the last slot.
    StackOverflow,
}

/// The mathematical model of a `Cpu`.
pub ghost struct CpuView {
    pub v: Seq<u8>,
    pub i: u16,
    pub delay: u8,
    pub sound: u8,
    pub pc: u16,
    pub sp: u8,
    pub stack: Seq<u16>,
    pub ram: Seq<u8>,
}

impl View for Cpu {
    type V = CpuView;

    open spec fn view(&self) -> CpuView {
        CpuView {
            v: self.v@,
            i: self.i,
            delay: self.delay,
            sound: self.sound,
            pc: self.pc,
            sp: self.sp,
            stack: self.stack@,
            ram: self.ram@,
        }
    }
}

impl CpuView {
    /// The state with general register `x` set to `b`.
    pub open spec fn set_v(self, x: int, b: u8) -> CpuView {
        CpuView { v: self.v.update(x, b), ..self }
    }

    /// The state with the flag register VF set to 1 when `f` holds, else to 0.
    pub open spec fn set_flag(self, f: bool) -> CpuView {
        self.set_v(0xF, if f { 1u8 } else { 0u8 })
    }

    /// RET: jump to the address in the current stack slot and pop it.
    pub open spec fn ret(self) -> (CpuView, NextPc) {
        (CpuView { sp: (self.sp - 1) as u8, ..self }, NextPc::Jump(self.stack[self.sp as int]))
    }

    /// JP addr.
    pub open spec fn jp_addr(self, n1: u8, n2: u8, n3: u8) -> (CpuView, NextPc) {
        (self, NextPc::Jump(addr_of(n1, n2, n3)))
    }

    /// CALL addr: the stack pointer moves up, but no return address is written
    /// into the new slot, so a later RET returns to whatever that slot held.
    pub open spec fn call_addr(self, n1: u8, n2: u8, n3: u8) -> (CpuView, NextPc) {
        (CpuView { sp: (self.sp + 1) as u8, ..self }, NextPc::Jump(addr_of(n1, n2, n3)))
    }

    /// `Skip` when `c` holds, else `Next`.
    pub open spec fn skip_if(c: bool) -> NextPc {
        if c {
            NextPc::Skip
        } else {
            NextPc::Next
        }
    }

    /// SE Vx, byte.
    pub open spec fn se_vx_byte(self, x: u8, k1: u8, k2: u8) -> (CpuView, NextPc) {
        (self, Self::skip_if(self.v[x as int] == byte_of(k1, k2)))
    }

    /// SNE Vx, byte.
    pub open spec fn sne_vx_byte(self, x: u8, k1: u8, k2: u8) -> (CpuView, NextPc) {
        (self, Self::skip_if(self.v[x as int] != byte_of(k1, k2)))
    }

    /// SE Vx, Vy.
    pub open spec fn se_vx_vy(self, x: u8, y: u8) -> (CpuView, NextPc) {
        (self, Self::skip_if(self.v[x as int] == self.v[y as int]))
    }

    /// SNE Vx, Vy.
    pub open spec fn sne_vx_vy(self, x: u8, y: u8) -> (CpuView, NextPc) {
        (self, Self::skip_if(self.v[x as int] != self.v[y as int]))
    }

    /// LD Vx, byte.
    pub open spec fn ld_vx_byte(self, x: u8, k1: u8, k2: u8) -> (CpuView, NextPc) {
        (self.set_v(x as int, byte_of(k1, k2)), NextPc::Next)
    }

    /// ADD Vx, byte: modulo 256, the flag register untouched.
    pub open spec fn add_vx_byte(self, x: u8, k1: u8, k2: u8) -> (CpuView, NextPc) {
        (
            self.set_v(x as int, ((self.v[x as int] + byte_of(k1, k2)) % 256) as u8),
            NextPc::Next,
        )
    }

    /// LD Vx, Vy.
    pub open spec fn ld_vx_vy(self, x: u8, y: u8) -> (CpuView, NextPc) {
        (self.set_v(x as int, self.v[y as int]), NextPc::Next)
    }

    /// OR Vx, Vy.
    pub open spec fn or_vx_vy(self, x: u8, y: u8) -> (CpuView, NextPc) {
        (self.set_v(x as int, self.v[x as int] | self.v[y as int]), NextPc::Next)
    }

    /// AND Vx, Vy.
    pub open spec fn and_vx_vy(self, x: u8, y: u8) -> (CpuView, NextPc) {
        (self.set_v(x as int, self.v[x as int] & self.v[y as int]), NextPc::Next)
    }

    /// XOR Vx, Vy.
    pub open spec fn xor_vx_vy(self, x: u8, y: u8) -> (CpuView, NextPc) {
        (self.set_v(x as int, self.v[x as int] ^ self.v[y as int]), NextPc::Next)
    }

    /// ADD Vx, Vy: VF is the carry out of the sum of the two registers, then Vx
    /// takes the sum modulo 256.
    pub open spec fn add_vx_vy(self, x: u8, y: u8) -> (CpuView, NextPc) {
        let sum = self.v[x as int] + self.v[y as int];
        (self.set_flag(sum > 255).set_v(x as int, (sum % 256) as u8), NextPc::Next)
    }

    /// SUB Vx, Vy: VF is set when Vx > Vy; then, reading the registers after
    /// that write, Vx becomes Vx - Vy when Vx >= Vy and is left as it is otherwise.
    pub open spec fn sub_vx_vy(self, x: u8, y: u8) -> (CpuView, NextPc) {
        let s = self.set_flag(self.v[x as int] > self.v[y as int]);
        let (a, b) = (s.v[x as int], s.v[y as int]);
        (if a >= b { s.set_v(x as int, (a - b) as u8) } else { s }, NextPc::Next)
    }

    /// SHR Vx: VF is the low bit of Vx; then Vx, read after that write, is halved.
    pub open spec fn shr_vx_vy(self, x: u8, y: u8) -> (CpuView, NextPc) {
        let s = self.set_flag(self.v[x as int] % 2 == 1);
        (s.set_v(x as int, s.v[x as int] / 2), NextPc::Next)
    }

    /// SUBN Vx, Vy: VF is set when Vy > Vx; then, reading the registers after
    /// that write, Vx becomes Vy - Vx when Vy >= Vx and is left as it is otherwise.
    pub open spec fn subn_vx_vy(self, x: u8, y: u8) -> (CpuView, NextPc) {
        let s = self.set_flag(self.v[y as int] > self.v[x as int]);
        let (a, b) = (s.v[x as int], s.v[y as int]);
        (if b >= a { s.set_v(x as int, (b - a) as u8) } else { s }, NextPc::Next)
    }

    /// SHL Vx: VF is the high bit of Vx; then Vx, read after that write, is
    /// doubled modulo 256.
    pub open spec fn shl_vx_vy(self, x: u8, y: u8) -> (CpuView, NextPc) {
        let s = self.set_flag(self.v[x as int] >= 128);
        (s.set_v(x as int, ((s.v[x as int] * 2) % 256) as u8), NextPc::Next)
    }

    /// LD I, addr.
    pub open spec fn ld_i_addr(self, n1: u8, n2: u8, n3: u8) -> (CpuView, NextPc) {
        (CpuView { i: addr_of(n1, n2, n3), ..self }, NextPc::Next)
    }

    /// JP V0, addr.
    pub open spec fn jp_v0_addr(self, n1: u8, n2: u8, n3: u8) -> (CpuView, NextPc) {
        (self, NextPc::Jump((addr_of(n1, n2, n3) + self.v[0]) as u16))
    }

    /// RND Vx, byte, where `rnd` is the byte drawn.
    pub open spec fn rnd_vx_byte(self, x: u8, k1: u8, k2: u8, rnd: u8) -> (CpuView, NextPc) {
        (self.set_v(x as int, byte_of(k1, k2) & rnd), NextPc::Next)
    }

    /// LD Vx, DT.
    pub open spec fn ld_vx_dt(self, x: u8) -> (CpuView, NextPc) {
        (self.set_v(x as int, self.delay), NextPc::Next)
    }

    /// LD DT, Vx.
    pub open spec fn ld_dt_vx(self, x: u8) -> (CpuView, NextPc) {
        (CpuView { delay: self.v[x as int], ..self }, NextPc::Next)
    }

    /// LD ST, Vx.
    pub open spec fn ld_st_vx(self, x: u8) -> (CpuView, NextPc) {
        (CpuView { sound: self.v[x as int], ..self }, NextPc::Next)
    }

    /// ADD I, Vx: modulo 2^16.
    pub open spec fn add_i_vx(self, x: u8) -> (CpuView, NextPc) {
        (CpuView { i: ((self.i + self.v[x as int]) % 0x10000) as u16, ..self }, NextPc::Next)
    }
    /// The four nibbles of the instruction at `pc`, in byte order.
    pub open spec fn fetch(self) -> (u8, u8, u8, u8) {
        let b1 = self.ram[self.pc as int];
        let b2 = self.ram[self.pc + 1];
        (b1 / 16, b1 % 16, b2 / 16, b2 % 16)
    }

    /// Whether the instruction at `pc` lies inside memory.
    pub open spec fn can_fetch(self) -> bool {
        self.pc + 1 < 0xFFF
    }

    /// The state after the program counter follows `next`.
    pub open spec fn advance(self, next: NextPc) -> CpuView {
        match next {
            NextPc::Next => CpuView { pc: (self.pc + 2) as u16, ..self },
            NextPc::Skip => CpuView { pc: (self.pc + 4) as u16, ..self },
            NextPc::Jump(a) => CpuView { pc: a, ..self },
        }
    }

    /// Whether `pc` can follow `next` without leaving 16 bits.
    pub open spec fn can_advance(self, next: NextPc) -> bool {
        match next {
            NextPc::Next => self.pc + 2 <= 0xFFFF,
            NextPc::Skip => self.pc + 4 <= 0xFFFF,
            NextPc::Jump(_) => true,
        }
    }

    /// Whether the instruction `op` can run on this stack: RET needs a slot in
    /// `1..16`, CALL a free slot above `sp`.
    pub open spec fn can_execute(self, op: (u8, u8, u8, u8)) -> bool {
        &&& is_ret(op) ==> 1 <= self.sp < 16
        &&& op.0 == 2 ==> self.sp < 15
    }

    /// The fault that the next cycle meets, if any.
    pub open spec fn fault(self) -> Option<Fault> {
        if !self.can_fetch() {
            Some(Fault::PcOutOfBounds)
        } else if is_ret(self.fetch()) && self.sp == 0 {
            Some(Fault::StackUnderflow)
        } else if !self.can_execute(self.fetch()) {
            Some(Fault::StackOverflow)
        } else {
            None
        }
    }

    /// The effect of the instruction `op`, the rules tried in order and the first
    /// that matches applied; `rnd` is the byte that RND draws. An instruction that
    /// no rule matches changes nothing and moves on to the next.
    pub open spec fn step(self, op: (u8, u8, u8, u8), rnd: u8) -> (CpuView, NextPc) {
        let (a, b, c, d) = op;
        if is_ret(op) {
            self.ret()
        } else if a == 0x1 {
            self.jp_addr(b, c, d)
        } else if a == 0x2 {
            self.call_addr(b, c, d)
        } else if a == 0x3 {
            self.se_vx_byte(b, c, d)
        } else if a == 0x4 {
            self.sne_vx_byte(b, c, d)
        } else if a == 0x5 && d == 0x0 {
            self.se_vx_vy(b, c)
        } else if a == 0x6 {
            self.ld_vx_byte(b, c, d)
        } else if a == 0x7 {
            self.add_vx_byte(b, c, d)
        } else if a == 0x8 && d == 0x0 {
            self.ld_vx_vy(b, c)
        } else if a == 0x8 && d == 0x1 {
            self.or_vx_vy(b, c)
        } else if a == 0x8 && d == 0x2 {
            self.and_vx_vy(b, c)
        } else if a == 0x8 && d == 0x3 {
            self.xor_vx_vy(b, c)
        } else if a == 0x8 && d == 0x4 {
            self.add_vx_vy(b, c)
        } else if a == 0x8 && d == 0x5 {
            self.sub_vx_vy(b, c)
        } else if a == 0x8 && d == 0x6 {
            self.shr_vx_vy(b, c)
        } else if a == 0x8 && d == 0x7 {
            self.subn_vx_vy(b, c)
        } else if a == 0x8 && d == 0xE {
            self.shl_vx_vy(b, c)
        } else if a == 0x9 && d == 0x0 {
            self.sne_vx_vy(b, c)
        } else if a == 0xA {
            self.ld_i_addr(b, c, d)
        } else if a == 0xB {
            self.jp_v0_addr(b, c, d)
        } else if a == 0xC {
            self.rnd_vx_byte(b, c, d, rnd)
        } else if a == 0xF && c == 0x0 && d == 0x7 {
            self.ld_vx_dt(b)
        } else if a == 0xF && c == 0x1 && d == 0x5 {
            self.ld_dt_vx(b)
        } else if a == 0xF && c == 0x1 && d == 0x8 {
            self.ld_st_vx(b)
        } else if a == 0xF && c == 0x1 && d == 0xE {
            self.add_i_vx(b)
        } else {
            (self, NextPc::Next)
        }
    }

    /// One whole cycle: fetch, execute, then move the program counter.
    pub open spec fn cycle(self, rnd: u8) -> (CpuView, NextPc) {
        let (s, next) = self.step(self.fetch(), rnd);
        (s.advance(next), next)
    }
}

/// Whether `op` is RET.
pub open spec fn is_ret(op: (u8, u8, u8, u8)) -> bool {
    op == (0x0u8, 0x0u8, 0xEu8, 0xEu8)
}

/// Whether some rule of the instruction set matches `op`.
pub open spec fn is_recognized(op: (u8, u8, u8, u8)) -> bool {
    let (a, b, c, d) = op;
    ||| is_ret(op)
    ||| 0x1 <= a <= 0x4
    ||| 0x6 <= a <= 0x7
    ||| 0xA <= a <= 0xC
    ||| (a == 0x5 || a == 0x9) && d == 0x0
    ||| a == 0x8 && (d <= 0x7 || d == 0xE)
    ||| a == 0xF && ((c == 0x0 && d == 0x7) || (c == 0x1 && (d == 0x5 || d == 0x8 || d == 0xE)))
}

/// Whether each field of `op` is a nibble.
pub open spec fn is_nibbles(op: (u8, u8, u8, u8)) -> bool {
    op.0 < 16 && op.1 < 16 && op.2 < 16 && op.3 < 16
}

/// The sixteen five-byte glyphs of the hexadecimal digits 0 to F; glyph `k`
/// is bytes `5k .. 5k + 5`.
pub open spec fn font() -> Seq<u8> {
    seq![
        0xF0u8, 0x90, 0x90, 0x90, 0xF0, 0x20, 0x60, 0x20, 0x20, 0x70, 0xF0, 0x10, 0xF0, 0x80,
        0xF0, 0xF0, 0x10, 0xF0, 0x10, 0xF0, 0x90, 0x90, 0xF0, 0x10, 0x10, 0xF0, 0x80, 0xF0,
        0x10, 0xF0, 0xF0, 0x80, 0xF0, 0x90, 0xF0, 0xF0, 0x10, 0x20, 0x40, 0x40, 0xF0, 0x90,
        0xF0, 0x90, 0xF0, 0xF0, 0x90, 0xF0, 0x10, 0xF0, 0xF0, 0x90, 0xF0, 0x90, 0x90, 0xE0,
        0x90, 0xE0, 0x90, 0xE0, 0xF0, 0x80, 0x80, 0x80, 0xF0, 0xE0, 0x90, 0x90, 0x90, 0xE0,
        0xF0, 0x80, 0xF0, 0x80, 0xF0, 0xF0, 0x80, 0xF0, 0x80, 0x80,
    ]
}

/// The byte whose high nibble is `k1` and low nibble is `k2`.
pub open spec fn byte_of(k1: u8, k2: u8) -> u8 {
    (k1 * 16 + k2) as u8
}

/// The 12-bit address written big-endian as the nibbles `n1`, `n2`, `n3`.
pub open spec fn addr_of(n1: u8, n2: u8, n3: u8) -> u16 {
    (n1 * 256 + n2 * 16 + n3) as u16
}

fn byte_from_nibbles(k1: u8, k2: u8) -> (r: u8)
    requires
        k1 < 16,
        k2 < 16,
    ensures
        r == k1 * 16 + k2,
        r == byte_of(k1, k2),
{
    assert(k1 < 16 ==> k1 << 4u8 == k1 * 16) by (bit_vector);
    (k1 << 4) + k2
}

fn addr_from_nibbles(n1: u8, n2: u8, n3: u8) -> (r: u16)
    requires
        n1 < 16,
        n2 < 16,
        n3 < 16,
    ensures
        r == n1 * 256 + n2 * 16 + n3,
        r == addr_of(n1, n2, n3),
        r < 0x1000,
{
    let a = n1 as u16;
    let b = n2 as u16;
    assert(a < 16 ==> a << 8u16 == a * 256) by (bit_vector);
    assert(b < 16 ==> b << 4u16 == b * 16) by (bit_vector);
    ((n1 as u16) << 8) + ((n2 as u16) << 4) + n3 as u16
}

impl Cpu {
    /// A CPU with every register, stack slot and memory byte zero, and `pc` at the
    /// start of the program area.
    pub fn new() -> (r: Cpu)
        ensures
            r@.v == Seq::new(16, |k: int| 0u8),
            r@.i == 0,
            r@.delay == 0,
            r@.sound == 0,
            r@.pc == 0x200,
            r@.sp == 0,
            r@.stack == Seq::new(16, |k: int| 0u16),
            r@.ram == Seq::new(0xFFF, |k: int| 0u8),
    {
        let r = Cpu {
            v: [0; 16],
            i: 0,
            delay: 0,
            sound: 0,
            pc: 0x200,
            sp: 0,
            stack: [0; 16],
            ram: [0; 0xFFF],
        };
        assert(r@.v =~= Seq::new(16, |k: int| 0u8));
        assert(r@.stack =~= Seq::new(16, |k: int| 0u16));
        assert(r@.ram =~= Seq::new(0xFFF, |k: int| 0u8));
        r
    }
    /// Installs the font: its glyphs are copied to the start of memory.
    pub fn init_ram(&mut self)
        ensures
            final(self)@ == (CpuView { ram: font() + old(self)@.ram.skip(80), ..old(self)@ }),
    {
        let fontpreset: Vec<u8> = vec![
            0xF0, 0x90, 0x90, 0x90, 0xF0, // 0
            0x20, 0x60, 0x20, 0x20, 0x70, // 1
            0xF0, 0x10, 0xF0, 0x80, 0xF0, // 2
            0xF0, 0x10, 0xF0, 0x10, 0xF0, // 3
            0x90, 0x90, 0xF0, 0x10, 0x10, // 4
            0xF0, 0x80, 0xF0, 0x10, 0xF0, // 5
            0xF0, 0x80, 0xF0, 0x90, 0xF0, // 6
            0xF0, 0x10, 0x20, 0x40, 0x40, // 7
            0xF0, 0x90, 0xF0, 0x90, 0xF0, // 8
            0xF0, 0x90, 0xF0, 0x10, 0xF0, // 9
            0xF0, 0x90, 0xF0, 0x90, 0x90, // A
            0xE0, 0x90, 0xE0, 0x90, 0xE0, // B
            0xF0, 0x80, 0x80, 0x80, 0xF0, // C
            0xE0, 0x90, 0x90, 0x90, 0xE0, // D
            0xF0, 0x80, 0xF0, 0x80, 0xF0, // E
            0xF0, 0x80, 0xF0, 0x80, 0x80, // F
        ];
        assert(fontpreset@ == font());
        self.copy_into_ram(0, &fontpreset);
    }

    /// Copies a program image into memory from the program start on.
    pub fn load_rom(&mut self, rom: &[u8])
        requires
            rom@.len() <= 0xFFF - 0x200,
        ensures
            final(self)@ == (CpuView {
                ram: old(self)@.ram.take(0x200) + rom@ + old(self)@.ram.skip(0x200 + rom@.len() as int),
                ..old(self)@
            }),
    {
        self.copy_into_ram(PROGRAM_START as usize, rom);
    }

    /// Copies `bytes` into memory from offset `at` on.
    fn copy_into_ram(&mut self, at: usize, bytes: &[u8])
        requires
            at + bytes@.len() <= 0xFFF,
        ensures
            final(self)@ == (CpuView {
                ram: old(self)@.ram.take(at as int) + bytes@ + old(self)@.ram.skip(
                    at + bytes@.len() as int,
                ),
                ..old(self)@
            }),
    {
        let n = bytes.len();
        let mut k: usize = 0;
        while k < n
            invariant
                k <= n == bytes@.len(),
                at + n <= 0xFFF,
                self@ == (CpuView { ram: self@.ram, ..old(self)@ }),
                self@.ram.len() == 0xFFF,
                forall|j: int| 0 <= j < at || at + k <= j < 0xFFF ==> self@.ram[j] == old(self)@.ram[j],
                forall|j: int| 0 <= j < k ==> self@.ram[at + j] == bytes@[j],
            decreases n - k,
        {
            self.ram[at + k] = bytes[k];
            k = k + 1;
        }
        assert(self@.ram =~= old(self)@.ram.take(at as int) + bytes@ + old(self)@.ram.skip(at + n as int));
    }

    /// The instruction at `pc`, split into four nibbles in byte order.
    pub fn fetch_instruction_code(&self) -> (r: (u8, u8, u8, u8))
        requires
            self@.can_fetch(),
        ensures
            r == self@.fetch(),
            is_nibbles(r),
    {
        let (b1, b2): (u8, u8) = (self.ram[self.pc as usize], self.ram[(self.pc + 1) as usize]);
        assert(b1 >> 4u8 == b1 / 16 && b1 & 15u8 == b1 % 16) by (bit_vector);
        assert(b2 >> 4u8 == b2 / 16 && b2 & 15u8 == b2 % 16) by (bit_vector);
        let v1 = b1 >> 4;
        let v2 = b1 & 0b00001111;
        let v3 = b2 >> 4;
        let v4 = b2 & 0b00001111;
        (v1, v2, v3, v4)
    }

    /// Moves the program counter as `next_pc` says.
    pub fn set_pc(&mut self, next_pc: NextPc)
        requires
            old(self)@.can_advance(next_pc),
        ensures
            final(self)@ == old(self)@.advance(next_pc),
    {
        match next_pc {
            NextPc::Next => {
                self.pc = self.pc + 2;
            },
            NextPc::Skip => {
                self.pc = self.pc + 4;
            },
            NextPc::Jump(addr) => self.pc = addr,
        }
    }

    /// Carries out the instruction `op`, taking `rnd` as the byte that RND draws,
    /// and returns where the program counter goes next. An instruction that no
    /// rule matches is ignored.
    pub fn execute(&mut self, op: (u8, u8, u8, u8), rnd: u8) -> (r: NextPc)
        requires
            is_nibbles(op),
            old(self)@.can_execute(op),
        ensures
            (final(self)@, r) == old(self)@.step(op, rnd),
    {
        match op {
            (0x0, 0x0, 0xE, 0xE) => self.ret(),
            (0x1, n1, n2, n3) => self.jp_addr(n1, n2, n3),
            (0x2, n1, n2, n3) => self.call_addr(n1, n2, n3),
            (0x3, x, k1, k2) => self.se_vx_byte(x, k1, k2),
            (0x4, x, k1, k2) => self.sne_vx_byte(x, k1, k2),
            (0x5, x, y, 0x0) => self.se_vx_vy(x, y),
            (0x6, x, k1, k2) => self.ld_vx_byte(x, k1, k2),
            (0x7, x, k1, k2) => self.add_vx_byte(x, k1, k2),
            (0x8, x, y, 0x0) => self.ld_vx_vy(x, y),
            (0x8, x, y, 0x1) => self.or_vx_vy(x, y),
            (0x8, x, y, 0x2) => self.and_vx_vy(x, y),
            (0x8, x, y, 0x3) => self.xor_vx_vy(x, y),
            (0x8, x, y, 0x4) => self.add_vx_vy(x, y),
            (0x8, x, y, 0x5) => self.sub_vx_vy(x, y),
            (0x8, x, y, 0x6) => self.shr_vx_vy(x, y),
            (0x8, x, y, 0x7) => self.subn_vx_vy(x, y),
            (0x8, x, y, 0xE) => self.shl_vx_vy(x, y),
            (0x9, x, y, 0x0) => self.sne_vx_vy(x, y),
            (0xA, n1, n2, n3) => self.ld_i_addr(n1, n2, n3),
            (0xB, n1, n2, n3) => self.jp_v0_addr(n1, n2, n3),
            (0xC, x, k1, k2) => self.rnd_vx_byte_from(x, k1, k2, rnd),
            (0xF, x, 0x0, 0x7) => self.ld_vx_dt(x),
            (0xF, x, 0x1, 0x5) => self.ld_dt_vx(x),
            (0xF, x, 0x1, 0x8) => self.ld_st_vx(x),
            (0xF, x, 0x1, 0xE) => self.add_i_vx(x),
            _ => NextPc::Next,
        }
    }

    /// Runs one cycle with `rnd` as the byte that RND draws: fetch, execute,
    /// advance. On a fault nothing changes and the fault is returned.
    pub fn cycle_with(&mut self, rnd: u8) -> (r: Result<NextPc, Fault>)
        ensures
            match old(self)@.fault() {
                Some(f) => r == Err::<NextPc, Fault>(f) && final(self)@ == old(self)@,
                None => r == Ok::<NextPc, Fault>(old(self)@.cycle(rnd).1) && final(self)@
                    == old(self)@.cycle(rnd).0,
            },
    {
        if self.pc >= 0xFFF - 1 {
            return Err(Fault::PcOutOfBounds);
        }
        let op = self.fetch_instruction_code();
        if op.0 == 0x0 && op.1 == 0x0 && op.2 == 0xE && op.3 == 0xE {
            if self.sp == 0 {
                return Err(Fault::StackUnderflow);
            }
            if self.sp >= 16 {
                return Err(Fault::StackOverflow);
            }
        }
        if op.0 == 0x2 && self.sp >= 15 {
            return Err(Fault::StackOverflow);
        }
        let next_pc = self.execute(op, rnd);
        self.set_pc(next_pc);
        Ok(next_pc)
    }

    /// Runs one cycle, drawing a random byte for RND. On a fault nothing changes
    /// and the fault is returned; otherwise the cycle behaves as `cycle_with` does
    /// for some byte.
    pub fn cycle(&mut self) -> (r: Result<NextPc, Fault>)
        ensures
            match old(self)@.fault() {
                Some(f) => r == Err::<NextPc, Fault>(f) && final(self)@ == old(self)@,
                None => exists|rnd: u8|
                    r == Ok::<NextPc, Fault>(old(self)@.cycle(rnd).1) && final(self)@
                        == old(self)@.cycle(rnd).0,
            },
    {
        let rnd = random_byte();
        self.cycle_with(rnd)
    }

    /// RET: pops the current stack slot into the program counter.
    pub fn ret(&mut self) -> (r: NextPc)
        requires
            1 <= old(self).sp < 16,
        ensures
            (final(self)@, r) == old(self)@.ret(),
    {
        let next_pc = self.stack[self.sp as usize];
        self.sp = self.sp - 1;
        NextPc::Jump(next_pc)
    }

    /// JP addr.
    pub fn jp_addr(&mut self, n1: u8, n2: u8, n3: u8) -> (r: NextPc)
        requires
            n1 < 16,
            n2 < 16,
            n3 < 16,
        ensures
            (final(self)@, r) == old(self)@.jp_addr(n1, n2, n3),
            r == NextPc::Jump((n1 * 256 + n2 * 16 + n3) as u16),
    {
        NextPc::Jump(addr_from_nibbles(n1, n2, n3))
    }

    /// CALL addr: moves the stack pointer up and jumps; it stores no return address.
    pub fn call_addr(&mut self, n1: u8, n2: u8, n3: u8) -> (r: NextPc)
        requires
            n1 < 16,
            n2 < 16,
            n3 < 16,
            old(self).sp < 15,
        ensures
            (final(self)@, r) == old(self)@.call_addr(n1, n2, n3),
    {
        self.sp = self.sp + 1;
        NextPc::Jump(addr_from_nibbles(n1, n2, n3))
    }

    /// SE Vx, byte.
    pub fn se_vx_byte(&self, x: u8, k1: u8, k2: u8) -> (r: NextPc)
        requires
            x < 16,
            k1 < 16,
            k2 < 16,
        ensures
            (self@, r) == self@.se_vx_byte(x, k1, k2),
    {
        if self.v[x as usize] == byte_from_nibbles(k1, k2) {
            NextPc::Skip
        } else {
            NextPc::Next
        }
    }

    /// SNE Vx, byte.
    pub fn sne_vx_byte(&self, x: u8, k1: u8, k2: u8) -> (r: NextPc)
        requires
            x < 16,
            k1 < 16,
            k2 < 16,
        ensures
            (self@, r) == self@.sne_vx_byte(x, k1, k2),
    {
        if self.v[x as usize] != byte_from_nibbles(k1, k2) {
            NextPc::Skip
        } else {
            NextPc::Next
        }
    }

    /// SE Vx, Vy.
    pub fn se_vx_vy(&self, x: u8, y: u8) -> (r: NextPc)
        requires
            x < 16,
            y < 16,
        ensures
            (self@, r) == self@.se_vx_vy(x, y),
    {
        if self.v[x as usize] == self.v[y as usize] {
            NextPc::Skip
        } else {
            NextPc::Next
        }
    }

    /// LD Vx, byte.
    pub fn ld_vx_byte(&mut self, x: u8, k1: u8, k2: u8) -> (r: NextPc)
        requires
            x < 16,
            k1 < 16,
            k2 < 16,
        ensures
            (final(self)@, r) == old(self)@.ld_vx_byte(x, k1, k2),
            final(self).v[x as int] == k1 * 16 + k2,
    {
        self.v[x as usize] = byte_from_nibbles(k1, k2);
        NextPc::Next
    }

    /// ADD Vx, byte, wrapping modulo 256; VF is not touched.
    pub fn add_vx_byte(&mut self, x: u8, k1: u8, k2: u8) -> (r: NextPc)
        requires
            x < 16,
            k1 < 16,
            k2 < 16,
        ensures
            (final(self)@, r) == old(self)@.add_vx_byte(x, k1, k2),
    {
        let kk = byte_from_nibbles(k1, k2);
        self.v[x as usize] = self.v[x as usize].wrapping_add(kk);
        NextPc::Next
    }

    /// LD Vx, Vy.
    pub fn ld_vx_vy(&mut self, x: u8, y: u8) -> (r: NextPc)
        requires
            x < 16,
            y < 16,
        ensures
            (final(self)@, r) == old(self)@.ld_vx_vy(x, y),
    {
        self.v[x as usize] = self.v[y as usize];
        NextPc::Next
    }

    /// OR Vx, Vy.
    pub fn or_vx_vy(&mut self, x: u8, y: u8) -> (r: NextPc)
        requires
            x < 16,
            y < 16,
        ensures
            (final(self)@, r) == old(self)@.or_vx_vy(x, y),
    {
        self.v[x as usize] = self.v[x as usize] | self.v[y as usize];
        NextPc::Next
    }

    /// AND Vx, Vy.
    pub fn and_vx_vy(&mut self, x: u8, y: u8) -> (r: NextPc)
        requires
            x < 16,
            y < 16,
        ensures
            (final(self)@, r) == old(self)@.and_vx_vy(x, y),
    {
        self.v[x as usize] = self.v[x as usize] & self.v[y as usize];
        NextPc::Next
    }

    /// XOR Vx, Vy.
    pub fn xor_vx_vy(&mut self, x: u8, y: u8) -> (r: NextPc)
        requires
            x < 16,
            y < 16,
        ensures
            (final(self)@, r) == old(self)@.xor_vx_vy(x, y),
    {
        self.v[x as usize] = self.v[x as usize] ^ self.v[y as usize];
        NextPc::Next
    }

    /// ADD Vx, Vy: the sum is taken in 16 bits; VF records whether it exceeds 255
    /// and Vx keeps its low byte.
    pub fn add_vx_vy(&mut self, x: u8, y: u8) -> (r: NextPc)
        requires
            x < 16,
            y < 16,
        ensures
            (final(self)@, r) == old(self)@.add_vx_vy(x, y),
            x != 0xF ==> {
                let sum = old(self).v[x as int] + old(self).v[y as int];
                &&& final(self).v[0xF] == (if sum > 255 { 1u8 } else { 0u8 })
                &&& final(self).v[x as int] == sum % 256
            },
    {
        let retval: u16 = self.v[x as usize] as u16 + self.v[y as usize] as u16;
        self.v[FLAG] = if retval > 255 { 1 } else { 0 };
        self.v[x as usize] = (retval % 256) as u8;
        NextPc::Next
    }

    /// SUB Vx, Vy: VF = (Vx > Vy); Vx -= Vy only where that does not go below zero.
    pub fn sub_vx_vy(&mut self, x: u8, y: u8) -> (r: NextPc)
        requires
            x < 16,
            y < 16,
        ensures
            (final(self)@, r) == old(self)@.sub_vx_vy(x, y),
    {
        self.v[FLAG] = if self.v[x as usize] > self.v[y as usize] {
            1
        } else {
            0
        };
        if self.v[x as usize] >= self.v[y as usize] {
            self.v[x as usize] = self.v[x as usize] - self.v[y as usize];
        }
        NextPc::Next
    }

    /// SHR Vx: VF takes the low bit of Vx, then Vx is shifted right by one.
    pub fn shr_vx_vy(&mut self, x: u8, _y: u8) -> (r: NextPc)
        requires
            x < 16,
        ensures
            (final(self)@, r) == old(self)@.shr_vx_vy(x, _y),
    {
        self.v[FLAG] = if self.v[x as usize] % 2 == 1 { 1 } else { 0 };
        let b = self.v[x as usize];
        assert(b >> 1u8 == b / 2) by (bit_vector);
        self.v[x as usize] = b >> 1;
        NextPc::Next
    }

    /// SUBN Vx, Vy: VF = (Vy > Vx); Vx = Vy - Vx only where that does not go below zero.
    pub fn subn_vx_vy(&mut self, x: u8, y: u8) -> (r: NextPc)
        requires
            x < 16,
            y < 16,
        ensures
            (final(self)@, r) == old(self)@.subn_vx_vy(x, y),
    {
        self.v[FLAG] = if self.v[y as usize] > self.v[x as usize] {
            1
        } else {
            0
        };
        if self.v[y as usize] >= self.v[x as usize] {
            self.v[x as usize] = self.v[y as usize] - self.v[x as usize];
        }
        NextPc::Next
    }

    /// SHL Vx: VF takes the high bit of Vx, then Vx is shifted left by one.
    pub fn shl_vx_vy(&mut self, x: u8, _y: u8) -> (r: NextPc)
        requires
            x < 16,
        ensures
            (final(self)@, r) == old(self)@.shl_vx_vy(x, _y),
    {
        self.v[FLAG] = if self.v[x as usize] >= 128 { 1 } else { 0 };
        let b = self.v[x as usize];
        assert(b << 1u8 == (b * 2) % 256) by (bit_vector);
        self.v[x as usize] = b << 1;
        NextPc::Next
    }

    /// SNE Vx, Vy.
    pub fn sne_vx_vy(&self, x: u8, y: u8) -> (r: NextPc)
        requires
            x < 16,
            y < 16,
        ensures
            (self@, r) == self@.sne_vx_vy(x, y),
    {
        if self.v[x as usize] != self.v[y as usize] {
            NextPc::Skip
        } else {
            NextPc::Next
        }
    }

    /// LD I, addr.
    pub fn ld_i_addr(&mut self, n1: u8, n2: u8, n3: u8) -> (r: NextPc)
        requires
            n1 < 16,
            n2 < 16,
            n3 < 16,
        ensures
            (final(self)@, r) == old(self)@.ld_i_addr(n1, n2, n3),
    {
        self.i = addr_from_nibbles(n1, n2, n3);
        NextPc::Next
    }

    /// JP V0, addr: jumps to the address plus V0.
    pub fn jp_v0_addr(&self, n1: u8, n2: u8, n3: u8) -> (r: NextPc)
        requires
            n1 < 16,
            n2 < 16,
            n3 < 16,
        ensures
            (self@, r) == self@.jp_v0_addr(n1, n2, n3),
    {
        let next_pc: u16 = addr_from_nibbles(n1, n2, n3) + self.v[0] as u16;
        NextPc::Jump(next_pc)
    }

    /// RND Vx, byte: Vx = byte AND a freshly drawn random byte. Whatever byte is
    /// drawn, Vx holds no bit that is not in the immediate byte.
    pub fn rnd_vx_byte(&mut self, x: u8, k1: u8, k2: u8) -> (r: NextPc)
        requires
            x < 16,
            k1 < 16,
            k2 < 16,
        ensures
            exists|rnd: u8| (final(self)@, r) == old(self)@.rnd_vx_byte(x, k1, k2, rnd),
            final(self).v[x as int] & byte_of(k1, k2) == final(self).v[x as int],
    {
        let rnd = random_byte();
        let r = self.rnd_vx_byte_from(x, k1, k2, rnd);
        let ghost kk = byte_of(k1, k2);
        assert((kk & rnd) & kk == kk & rnd) by (bit_vector);
        r
    }

    /// RND Vx, byte with the random byte `rnd` given: Vx = byte AND rnd.
    pub fn rnd_vx_byte_from(&mut self, x: u8, k1: u8, k2: u8, rnd: u8) -> (r: NextPc)
        requires
            x < 16,
            k1 < 16,
            k2 < 16,
        ensures
            (final(self)@, r) == old(self)@.rnd_vx_byte(x, k1, k2, rnd),
    {
        let kk: u8 = byte_from_nibbles(k1, k2);
        self.v[x as usize] = kk & rnd;
        NextPc::Next
    }

    /// LD Vx, DT.
    pub fn ld_vx_dt(&mut self, x: u8) -> (r: NextPc)
        requires
            x < 16,
        ensures
            (final(self)@, r) == old(self)@.ld_vx_dt(x),
    {
        self.v[x as usize] = self.delay;
        NextPc::Next
    }

    /// LD DT, Vx.
    pub fn ld_dt_vx(&mut self, x: u8) -> (r: NextPc)
        requires
            x < 16,
        ensures
            (final(self)@, r) == old(self)@.ld_dt_vx(x),
    {
        self.delay = self.v[x as usize];
        NextPc::Next
    }

    /// LD ST, Vx.
    pub fn ld_st_vx(&mut self, x: u8) -> (r: NextPc)
        requires
            x < 16,
        ensures
            (final(self)@, r) == old(self)@.ld_st_vx(x),
    {
        self.sound = self.v[x as usize];
        NextPc::Next
    }

    /// ADD I, Vx, wrapping modulo 2^16.
    pub fn add_i_vx(&mut self, x: u8) -> (r: NextPc)
        requires
            x < 16,
        ensures
            (final(self)@, r) == old(self)@.add_i_vx(x),
    {
        self.i = self.i.wrapping_add(self.v[x as usize] as u16);
        NextPc::Next
    }
}

/// Relies on rand::random: a byte from the thread-local generator. Nothing is
/// known of its value.
#[verifier::external_body]
fn random_byte() -> u8 {
    rand::random::<u8>()
}

} // verus!
