//! The CHIP-8 processor core: machine state, instruction decoding, the
//! opcode handlers, and the fetch-decode-execute step.
//!
//! The behaviour of the machine is captured by the ghost type [`State`] and
//! the transition function [`spec_step`]; the executable [`CPU`] is proved
//! to follow that transition on every step.
//!
//! References:
//! (1) <http://devernay.free.fr/hacks/chip8/C8TECH10.HTM>
//! (2) <https://en.wikipedia.org/wiki/CHIP-8>

use vstd::prelude::*;

verus! {

/// CHIP-8 memory is 4K bytes in size.
pub const MEM_SIZE: usize = 4096;

/// There are 16 general purpose registers in the CHIP-8, named v0 to vF.
pub const NUM_REGS: usize = 16;

/// vF is used as a flag register by the arithmetic and shift instructions:
/// it receives the carry, the borrow complement, or the shifted-out bit.
pub const FLAG_REG: usize = 15;

/// The call stack has 24 entries, each one 2 bytes long, and occupies the
/// reserved memory region from 0xea0 to 0xeff, both inclusive.
///
/// A push operation first increments the stack pointer by 2 and then stores
/// a value at the location now pointed to by the stack pointer, so after
/// reset the stack pointer sits one slot below the region and the first
/// push stores its value at 0xea0.
pub const SP_BOTTOM: usize = 0xe9e;

/// Last byte (inclusive) of the reserved stack region.
pub const STACK_TOP: usize = 0xeff;

/// The two fatal conditions an execution step can report.
#[derive(Clone, Copy, Debug, PartialEq, Eq, Structural)]
pub enum CpuError {
    /// The leading or trailing nibble combination at the program counter
    /// has no assigned instruction.
    Decode,
    /// The program counter or the stack pointer was found or would be
    /// driven outside its valid bounds.
    AddressViolation,
}

/// The decoded instruction families.  The leading nibble selects a family
/// directly; for the arithmetic/logic family (leading nibble 8) the
/// trailing nibble disambiguates; the subroutine return 00EE is the one
/// opcode recognised in family 0.
#[derive(Clone, Copy, Debug, PartialEq, Eq, Structural)]
pub enum Opcode {
    /// 00EE: pop the return address from the stack into the program counter.
    Ret,
    /// 1nnn: jump to address nnn.
    Jmp,
    /// 2nnn: push the return address, jump to nnn.
    Call,
    /// 3xnn: skip the next instruction if v[x] == nn.
    SkipIfVxEqNn,
    /// 4xnn: skip the next instruction if v[x] != nn.
    SkipIfVxNeNn,
    /// 5xy0: skip the next instruction if v[x] == v[y].
    SkipIfVxEqVy,
    /// 6xnn: v[x] = nn.
    SetVxToNn,
    /// 7xnn: v[x] += nn, wrapping, without touching the flag register.
    AddNnToVx,
    /// 8xy0: v[x] = v[y].
    AssignVyToVx,
    /// 8xy1: v[x] |= v[y].
    OrVyToVx,
    /// 8xy2: v[x] &= v[y].
    AndVyToVx,
    /// 8xy3: v[x] ^= v[y].
    XorVyToVx,
    /// 8xy4: v[x] += v[y], flag register reports the carry.
    AddVyToVx,
    /// 8xy5: v[x] -= v[y], flag register reports "no borrow".
    SubVyFromVx,
    /// 8xy6: flag register takes the least significant bit, then v[x] >>= 1.
    ShrVx,
    /// 8xy7: v[x] = v[y] - v[x], flag register reports "no borrow".
    SubVxFromVy,
    /// 8xyE: flag register takes the most significant bit, then v[x] <<= 1.
    ShlVx,
    /// 9xy0: skip the next instruction if v[x] != v[y].
    SkipIfVxNeVy,
    /// Annn: address register = nnn.
    SetIReg,
    /// Bnnn: jump to nnn + v[0].
    JmpPlusV0,
    /// Cxnn: v[x] = random byte AND nn.
    RandAndNn,
}

/// The mathematical model of the machine state: the memory contents, the
/// sixteen registers, the address register, the program counter and the
/// stack pointer.
#[verifier::ext_equal]
pub ghost struct State {
    pub mem: Seq<u8>,
    pub v: Seq<u8>,
    pub i: int,
    pub pc: int,
    pub sp: int,
}

/// The low byte of a 16-bit quantity stored big-endian.
pub open spec fn low_byte(n: int) -> u8 {
    (n % 256) as u8
}

/// The high byte of a 16-bit quantity stored big-endian.
pub open spec fn high_byte(n: int) -> u8 {
    ((n / 256) % 256) as u8
}

/// 8-bit addition that wraps around on overflow.
pub open spec fn wrap_add(a: u8, b: u8) -> u8 {
    ((a + b) % 256) as u8
}

impl State {
    /// The structural invariant: full memory and register file.
    pub open spec fn wf(self) -> bool {
        &&& self.mem.len() == MEM_SIZE
        &&& self.v.len() == NUM_REGS
    }

    /// The program counter references a valid two-byte window in memory.
    pub open spec fn pc_ok(self) -> bool {
        0 <= self.pc && self.pc + 1 < MEM_SIZE
    }

    /// The stack pointer stays inside the reserved stack region (or one
    /// slot below it, where it starts).
    pub open spec fn sp_ok(self) -> bool {
        SP_BOTTOM <= self.sp && self.sp + 1 <= STACK_TOP
    }

    /// High byte of the instruction at the program counter.
    pub open spec fn insn_hi(self) -> u8 {
        self.mem[self.pc]
    }

    /// Low byte of the instruction at the program counter.
    pub open spec fn insn_lo(self) -> u8 {
        self.mem[self.pc + 1]
    }

    /// Register index x: the low nibble of the instruction's high byte.
    pub open spec fn x(self) -> int {
        (self.insn_hi() & 0xf) as int
    }

    /// Register index y: the high nibble of the instruction's low byte.
    pub open spec fn y(self) -> int {
        ((self.insn_lo() >> 4) & 0xf) as int
    }

    /// The 8-bit immediate nn: the instruction's entire low byte.
    pub open spec fn nn(self) -> u8 {
        self.insn_lo()
    }

    /// The 12-bit address nnn: low nibble of the high byte (high bits)
    /// concatenated with the low byte.
    pub open spec fn nnn(self) -> int {
        (self.insn_hi() & 0xf) * 256 + self.insn_lo()
    }

    /// The register selected by the instruction's x field.
    pub open spec fn vx(self) -> u8 {
        self.v[self.x()]
    }

    /// The register selected by the instruction's y field.
    pub open spec fn vy(self) -> u8 {
        self.v[self.y()]
    }

    /// The 16-bit big-endian value at the top of the stack.
    pub open spec fn tos16(self) -> int {
        self.mem[self.sp] * 256 + self.mem[self.sp + 1]
    }
}

/// Decode the two instruction bytes into an opcode family, or nothing if
/// the leading-or-trailing nibble combination is unassigned.
pub open spec fn spec_decode(hi: u8, lo: u8) -> Option<Opcode> {
    if hi == 0x00 && lo == 0xee {
        Some(Opcode::Ret)
    } else {
        let family = hi >> 4;
        if family == 0x1 {
            Some(Opcode::Jmp)
        } else if family == 0x2 {
            Some(Opcode::Call)
        } else if family == 0x3 {
            Some(Opcode::SkipIfVxEqNn)
        } else if family == 0x4 {
            Some(Opcode::SkipIfVxNeNn)
        } else if family == 0x5 {
            Some(Opcode::SkipIfVxEqVy)
        } else if family == 0x6 {
            Some(Opcode::SetVxToNn)
        } else if family == 0x7 {
            Some(Opcode::AddNnToVx)
        } else if family == 0x8 {
            let tail = lo & 0xf;
            if tail == 0x0 {
                Some(Opcode::AssignVyToVx)
            } else if tail == 0x1 {
                Some(Opcode::OrVyToVx)
            } else if tail == 0x2 {
                Some(Opcode::AndVyToVx)
            } else if tail == 0x3 {
                Some(Opcode::XorVyToVx)
            } else if tail == 0x4 {
                Some(Opcode::AddVyToVx)
            } else if tail == 0x5 {
                Some(Opcode::SubVyFromVx)
            } else if tail == 0x6 {
                Some(Opcode::ShrVx)
            } else if tail == 0x7 {
                Some(Opcode::SubVxFromVy)
            } else if tail == 0xe {
                Some(Opcode::ShlVx)
            } else {
                None
            }
        } else if family == 0x9 {
            Some(Opcode::SkipIfVxNeVy)
        } else if family == 0xa {
            Some(Opcode::SetIReg)
        } else if family == 0xb {
            Some(Opcode::JmpPlusV0)
        } else if family == 0xc {
            Some(Opcode::RandAndNn)
        } else {
            None
        }
    }
}

/// The effect of one decoded instruction on the machine state.  `rnd` is
/// the byte the random source supplied; only the Cxnn family reads it.
pub open spec fn spec_exec_op(s: State, op: Opcode, rnd: u8) -> Result<State, CpuError> {
    match op {
        Opcode::Ret => if s.sp < SP_BOTTOM + 2 {
            Err(CpuError::AddressViolation)
        } else {
            Ok(State { pc: s.tos16(), sp: s.sp - 2, ..s })
        },
        Opcode::Jmp => Ok(State { pc: s.nnn(), ..s }),
        Opcode::Call => if s.sp + 3 > STACK_TOP {
            Err(CpuError::AddressViolation)
        } else {
            Ok(State {
                mem: s.mem.update(s.sp + 2, high_byte(s.pc + 2)).update(
                    s.sp + 3,
                    low_byte(s.pc + 2),
                ),
                sp: s.sp + 2,
                pc: s.nnn(),
                ..s
            })
        },
        Opcode::SkipIfVxEqNn => Ok(
            State { pc: if s.vx() == s.nn() { s.pc + 4 } else { s.pc + 2 }, ..s },
        ),
        Opcode::SkipIfVxNeNn => Ok(
            State { pc: if s.vx() != s.nn() { s.pc + 4 } else { s.pc + 2 }, ..s },
        ),
        Opcode::SkipIfVxEqVy => Ok(
            State { pc: if s.vx() == s.vy() { s.pc + 4 } else { s.pc + 2 }, ..s },
        ),
        Opcode::SkipIfVxNeVy => Ok(
            State { pc: if s.vx() != s.vy() { s.pc + 4 } else { s.pc + 2 }, ..s },
        ),
        Opcode::SetVxToNn => Ok(State { v: s.v.update(s.x(), s.nn()), pc: s.pc + 2, ..s }),
        Opcode::AddNnToVx => Ok(
            State { v: s.v.update(s.x(), wrap_add(s.vx(), s.nn())), pc: s.pc + 2, ..s },
        ),
        Opcode::AssignVyToVx => Ok(State { v: s.v.update(s.x(), s.vy()), pc: s.pc + 2, ..s }),
        Opcode::OrVyToVx => Ok(
            State { v: s.v.update(s.x(), s.vx() | s.vy()), pc: s.pc + 2, ..s },
        ),
        Opcode::AndVyToVx => Ok(
            State { v: s.v.update(s.x(), s.vx() & s.vy()), pc: s.pc + 2, ..s },
        ),
        Opcode::XorVyToVx => Ok(
            State { v: s.v.update(s.x(), s.vx() ^ s.vy()), pc: s.pc + 2, ..s },
        ),
        Opcode::AddVyToVx => {
            let sum = s.vx() + s.vy();
            let regs = if sum > 255 {
                s.v.update(s.x(), (sum - 256) as u8).update(FLAG_REG as int, 1u8)
            } else {
                s.v.update(FLAG_REG as int, 0u8).update(s.x(), sum as u8)
            };
            Ok(State { v: regs, pc: s.pc + 2, ..s })
        },
        Opcode::SubVyFromVx => {
            let regs = if s.vx() >= s.vy() {
                s.v.update(s.x(), (s.vx() - s.vy()) as u8).update(FLAG_REG as int, 1u8)
            } else {
                s.v.update(s.x(), (s.vx() - s.vy() + 256) as u8).update(FLAG_REG as int, 0u8)
            };
            Ok(State { v: regs, pc: s.pc + 2, ..s })
        },
        Opcode::ShrVx => Ok(
            State {
                v: s.v.update(FLAG_REG as int, s.vx() & 1).update(s.x(), s.vx() >> 1),
                pc: s.pc + 2,
                ..s
            },
        ),
        Opcode::SubVxFromVy => {
            let regs = if s.vy() >= s.vx() {
                s.v.update(s.x(), (s.vy() - s.vx()) as u8).update(FLAG_REG as int, 1u8)
            } else {
                s.v.update(s.x(), (s.vy() - s.vx() + 256) as u8).update(FLAG_REG as int, 0u8)
            };
            Ok(State { v: regs, pc: s.pc + 2, ..s })
        },
        Opcode::ShlVx => Ok(
            State {
                v: s.v.update(FLAG_REG as int, (s.vx() >> 7) & 1).update(s.x(), s.vx() << 1),
                pc: s.pc + 2,
                ..s
            },
        ),
        Opcode::SetIReg => Ok(State { i: s.nnn(), pc: s.pc + 2, ..s }),
        Opcode::JmpPlusV0 => Ok(State { pc: s.v[0] + s.nnn(), ..s }),
        Opcode::RandAndNn => Ok(
            State { v: s.v.update(s.x(), s.nn() & rnd), pc: s.pc + 2, ..s },
        ),
    }
}

/// One fetch-decode-execute step of the machine.  A program counter without
/// a valid two-byte window is an address-space violation; an unassigned
/// opcode is a decode error; the stack checks of call and return live in
/// [`spec_exec_op`].  `rnd` is the byte the random source would supply.
pub open spec fn spec_step(s: State, rnd: u8) -> Result<State, CpuError> {
    if !s.pc_ok() {
        Err(CpuError::AddressViolation)
    } else {
        match spec_decode(s.insn_hi(), s.insn_lo()) {
            Option::None => Err(CpuError::Decode),
            Option::Some(op) => spec_exec_op(s, op, rnd),
        }
    }
}

/// The CHIP-8 processor state.
pub struct CPU {
    /// 4K memory.  2 byte objects are stored in big-endian format.
    pub mem: Vec<u8>,
    /// The 16 general purpose registers, 8 bits wide.
    pub v: Vec<u8>,
    /// The address register.
    pub i: usize,
    /// The program counter, not directly accessible from CHIP-8 programs.
    pub pc: usize,
    /// The stack pointer, not directly accessible from CHIP-8 programs.
    pub sp: usize,
}

impl View for CPU {
    type V = State;

    open spec fn view(&self) -> State {
        State {
            mem: self.mem@,
            v: self.v@,
            i: self.i as int,
            pc: self.pc as int,
            sp: self.sp as int,
        }
    }
}

/// A vector of `n` zero bytes.
fn zeroed(n: usize) -> (r: Vec<u8>)
    ensures
        r@.len() == n,
        forall|j: int| 0 <= j < n ==> r@[j] == 0u8,
{
    let mut r: Vec<u8> = Vec::new();
    let mut k: usize = 0;
    while k < n
        invariant
            k <= n,
            r@.len() == k,
            forall|j: int| 0 <= j < k ==> r@[j] == 0u8,
        decreases n - k,
    {
        r.push(0);
        k = k + 1;
    }
    r
}

impl CPU {
    /// A freshly reset machine: memory and registers zeroed, program
    /// counter at 0, stack pointer one slot below the stack region.
    pub fn new() -> (c: CPU)
        ensures
            c@.wf(),
            c@.pc_ok(),
            c@.sp_ok(),
            forall|j: int| 0 <= j < MEM_SIZE ==> c@.mem[j] == 0u8,
            forall|j: int| 0 <= j < NUM_REGS ==> c@.v[j] == 0u8,
            c@.i == 0,
            c@.pc == 0,
            c@.sp == SP_BOTTOM,
    {
        CPU { mem: zeroed(MEM_SIZE), v: zeroed(NUM_REGS), i: 0, pc: 0, sp: SP_BOTTOM }
    }

    /// Increment the program counter by `n` instructions.  Each instruction
    /// is 2 bytes long, so incrementing by 1 adds 2 to the program counter.
    pub fn inc_pc(&mut self, n: usize)
        requires
            old(self).pc + 2 * n <= usize::MAX,
        ensures
            final(self)@ == (State { pc: old(self)@.pc + 2 * n, ..old(self)@ }),
    {
        self.pc = self.pc + 2 * n;
    }

    /// The 12 bit memory address encoded as part of the instruction.
    ///
    /// For an instruction of the form "1nnn", this returns "nnn".
    pub fn get_address(&self) -> (addr: usize)
        requires
            self@.wf(),
            self@.pc_ok(),
        ensures
            addr == self@.nnn(),
            addr < MEM_SIZE,
    {
        let b = self.mem[self.pc];
        let address_high_nibble = b & 0xf;
        let address_low_byte = self.mem[self.pc + 1];
        proof {
            assert(b & 0xf < 16) by (bit_vector);
        }
        (address_high_nibble as usize) * 256 + address_low_byte as usize
    }

    /// The 8 bit constant encoded as part of the instruction.
    ///
    /// For an instruction of the form "7xnn", this returns "nn".
    pub fn get_constant(&self) -> (nn: u8)
        requires
            self@.wf(),
            self@.pc_ok(),
        ensures
            nn == self@.nn(),
    {
        self.mem[self.pc + 1]
    }

    /// Copy 2 bytes from a usize value to top-of-stack.  The value stored
    /// on the stack is in big endian format.
    pub fn copy_16bits_to_tos(&mut self, src: usize)
        requires
            old(self)@.wf(),
            old(self)@.sp + 1 < MEM_SIZE,
        ensures
            final(self)@ == (State {
                mem: old(self)@.mem.update(old(self)@.sp, high_byte(src as int)).update(
                    old(self)@.sp + 1,
                    low_byte(src as int),
                ),
                ..old(self)@
            }),
    {
        let hi8: u8 = ((src / 256) % 256) as u8;
        let lo8: u8 = (src % 256) as u8;
        self.mem.set(self.sp, hi8);
        self.mem.set(self.sp + 1, lo8);
    }

    /// The 2 byte big-endian value taken from top-of-stack.
    pub fn get_16bits_from_tos(&self) -> (r: usize)
        requires
            self@.wf(),
            self@.sp + 1 < MEM_SIZE,
        ensures
            r == self@.tos16(),
            r < 65536,
    {
        (self.mem[self.sp] as usize) * 256 + self.mem[self.sp + 1] as usize
    }

    /// The lower nibble of the high byte of the instruction pointed to by
    /// the program counter: the first register index of the instruction.
    pub fn nibble_x(&self) -> (x: usize)
        requires
            self@.wf(),
            self@.pc_ok(),
        ensures
            x == self@.x(),
            x < NUM_REGS,
    {
        let b = self.mem[self.pc];
        proof {
            assert(b & 0xf < 16) by (bit_vector);
        }
        (b & 0xf) as usize
    }

    /// The high nibble of the low byte of the instruction pointed to by
    /// the program counter: the second register index of the instruction.
    pub fn nibble_y(&self) -> (y: usize)
        requires
            self@.wf(),
            self@.pc_ok(),
        ensures
            y == self@.y(),
            y < NUM_REGS,
    {
        let b = self.mem[self.pc + 1];
        proof {
            assert((b >> 4) & 0xf < 16) by (bit_vector);
        }
        ((b >> 4) & 0xf) as usize
    }

    /// Execute a jump instruction of the form "1nnn", where nnn represents
    /// a memory address.
    pub fn jmp(&mut self)
        requires
            old(self)@.wf(),
            old(self)@.pc_ok(),
        ensures
            final(self)@ == (State { pc: old(self)@.nnn(), ..old(self)@ }),
    {
        let target = self.get_address();
        self.pc = target;
    }

    /// Call subroutine.
    ///
    /// The call instruction is of the form "2nnn".  The instruction first
    /// increments the stack pointer by 2 and copies the address of the next
    /// instruction to the new location on the stack.  It then sets the
    /// program counter to "nnn".  Exceeding the reserved stack region is a
    /// caller error; the execution step reports it before coming here.
    pub fn call(&mut self)
        requires
            old(self)@.wf(),
            old(self)@.pc_ok(),
            old(self)@.sp + 3 <= STACK_TOP,
        ensures
            final(self)@ == (State {
                mem: old(self)@.mem.update(old(self)@.sp + 2, high_byte(old(self)@.pc + 2)).update(
                    old(self)@.sp + 3,
                    low_byte(old(self)@.pc + 2),
                ),
                sp: old(self)@.sp + 2,
                pc: old(self)@.nnn(),
                ..old(self)@
            }),
    {
        let target_address = self.get_address();
        let next_insn_address = self.pc + 2;
        self.sp = self.sp + 2;
        self.copy_16bits_to_tos(next_insn_address);
        self.pc = target_address;
    }

    /// Subroutine return, opcode "00EE": read the return address at the
    /// current top of the stack, then retreat the stack pointer.  Popping
    /// an empty stack is a caller error; the execution step reports it
    /// before coming here.
    pub fn ret(&mut self)
        requires
            old(self)@.wf(),
            old(self)@.sp_ok(),
            old(self)@.sp >= SP_BOTTOM + 2,
        ensures
            final(self)@ == (State {
                pc: old(self)@.tos16(),
                sp: old(self)@.sp - 2,
                ..old(self)@
            }),
    {
        let target = self.get_16bits_from_tos();
        self.pc = target;
        self.sp = self.sp - 2;
    }

    /// Skip next instruction if v[x] == nn.
    ///
    /// This instruction is of the form "3xnn".
    pub fn skip_if_vx_eq_nn(&mut self)
        requires
            old(self)@.wf(),
            old(self)@.pc_ok(),
        ensures
            final(self)@ == (State {
                pc: if old(self)@.vx() == old(self)@.nn() {
                    old(self)@.pc + 4
                } else {
                    old(self)@.pc + 2
                },
                ..old(self)@
            }),
    {
        if self.v[self.nibble_x()] == self.get_constant() {
            self.inc_pc(2);  // skip next instruction
            return;
        }
        self.inc_pc(1);
    }

    /// Skip next instruction if v[x] != nn.
    ///
    /// This instruction is of the form "4xnn".
    pub fn skip_if_vx_ne_nn(&mut self)
        requires
            old(self)@.wf(),
            old(self)@.pc_ok(),
        ensures
            final(self)@ == (State {
                pc: if old(self)@.vx() != old(self)@.nn() {
                    old(self)@.pc + 4
                } else {
                    old(self)@.pc + 2
                },
                ..old(self)@
            }),
    {
        if self.v[self.nibble_x()] != self.get_constant() {
            self.inc_pc(2);  // skip next instruction
            return;
        }
        self.inc_pc(1);
    }

    /// Skip the next instruction if v[x] == v[y].
    ///
    /// This instruction is of the form "5xy0".
    pub fn skip_if_vx_eq_vy(&mut self)
        requires
            old(self)@.wf(),
            old(self)@.pc_ok(),
        ensures
            final(self)@ == (State {
                pc: if old(self)@.vx() == old(self)@.vy() {
                    old(self)@.pc + 4
                } else {
                    old(self)@.pc + 2
                },
                ..old(self)@
            }),
    {
        if self.v[self.nibble_x()] == self.v[self.nibble_y()] {
            self.inc_pc(2);  // skip next instruction
            return;
        }
        self.inc_pc(1);
    }

    /// Skip the next instruction if v[x] != v[y].
    ///
    /// This instruction is of the form "9xy0".
    pub fn skip_if_vx_ne_vy(&mut self)
        requires
            old(self)@.wf(),
            old(self)@.pc_ok(),
        ensures
            final(self)@ == (State {
                pc: if old(self)@.vx() != old(self)@.vy() {
                    old(self)@.pc + 4
                } else {
                    old(self)@.pc + 2
                },
                ..old(self)@
            }),
    {
        if self.v[self.nibble_x()] != self.v[self.nibble_y()] {
            self.inc_pc(2);
        } else {
            self.inc_pc(1);
        }
    }

    /// Set v[x] to nn.
    ///
    /// This instruction is of the form "6xnn".
    pub fn set_vx_to_nn(&mut self)
        requires
            old(self)@.wf(),
            old(self)@.pc_ok(),
        ensures
            final(self)@ == (State {
                v: old(self)@.v.update(old(self)@.x(), old(self)@.nn()),
                pc: old(self)@.pc + 2,
                ..old(self)@
            }),
    {
        let x = self.nibble_x();
        let nn = self.get_constant();
        self.v.set(x, nn);
        self.inc_pc(1);
    }

    /// Add nn to v[x], wrapping, without changing the flag register.
    ///
    /// This instruction is of the form "7xnn".
    pub fn add_nn_to_vx(&mut self)
        requires
            old(self)@.wf(),
            old(self)@.pc_ok(),
        ensures
            final(self)@ == (State {
                v: old(self)@.v.update(old(self)@.x(), wrap_add(old(self)@.vx(), old(self)@.nn())),
                pc: old(self)@.pc + 2,
                ..old(self)@
            }),
    {
        let x = self.nibble_x();
        let nn = self.get_constant();
        let sum: u16 = self.v[x] as u16 + nn as u16;
        self.v.set(x, (sum % 256) as u8);
        self.inc_pc(1);
    }

    /// Assign v[y] to v[x].
    ///
    /// This instruction is of the form "8xy0".
    pub fn assign_vy_to_vx(&mut self)
        requires
            old(self)@.wf(),
            old(self)@.pc_ok(),
        ensures
            final(self)@ == (State {
                v: old(self)@.v.update(old(self)@.x(), old(self)@.vy()),
                pc: old(self)@.pc + 2,
                ..old(self)@
            }),
    {
        let x = self.nibble_x();
        let vy = self.v[self.nibble_y()];
        self.v.set(x, vy);
        self.inc_pc(1);
    }

    /// v[x] = v[x] | v[y].
    ///
    /// This instruction is of the form "8xy1".
    pub fn assign_vx_or_vy_to_vx(&mut self)
        requires
            old(self)@.wf(),
            old(self)@.pc_ok(),
        ensures
            final(self)@ == (State {
                v: old(self)@.v.update(old(self)@.x(), old(self)@.vx() | old(self)@.vy()),
                pc: old(self)@.pc + 2,
                ..old(self)@
            }),
    {
        let x = self.nibble_x();
        let r = self.v[x] | self.v[self.nibble_y()];
        self.v.set(x, r);
        self.inc_pc(1);
    }

    /// v[x] = v[x] & v[y].
    ///
    /// This instruction is of the form "8xy2".
    pub fn assign_vx_and_vy_to_vx(&mut self)
        requires
            old(self)@.wf(),
            old(self)@.pc_ok(),
        ensures
            final(self)@ == (State {
                v: old(self)@.v.update(old(self)@.x(), old(self)@.vx() & old(self)@.vy()),
                pc: old(self)@.pc + 2,
                ..old(self)@
            }),
    {
        let x = self.nibble_x();
        let r = self.v[x] & self.v[self.nibble_y()];
        self.v.set(x, r);
        self.inc_pc(1);
    }

    /// v[x] = v[x] ^ v[y].
    ///
    /// This instruction is of the form "8xy3".
    pub fn assign_vx_xor_vy_to_vx(&mut self)
        requires
            old(self)@.wf(),
            old(self)@.pc_ok(),
        ensures
            final(self)@ == (State {
                v: old(self)@.v.update(old(self)@.x(), old(self)@.vx() ^ old(self)@.vy()),
                pc: old(self)@.pc + 2,
                ..old(self)@
            }),
    {
        let x = self.nibble_x();
        let r = self.v[x] ^ self.v[self.nibble_y()];
        self.v.set(x, r);
        self.inc_pc(1);
    }

    /// v[x] = v[x] + v[y].  The flag register is set to 1 if there is a
    /// carry, otherwise set to 0; v[x] takes the wrapped low byte.
    ///
    /// This instruction is of the form "8xy4".
    pub fn assign_vx_plus_vy_to_vx(&mut self)
        requires
            old(self)@.wf(),
            old(self)@.pc_ok(),
        ensures
            final(self)@ == (State {
                v: if old(self)@.vx() + old(self)@.vy() > 255 {
                    old(self)@.v.update(
                        old(self)@.x(),
                        (old(self)@.vx() + old(self)@.vy() - 256) as u8,
                    ).update(FLAG_REG as int, 1u8)
                } else {
                    old(self)@.v.update(FLAG_REG as int, 0u8).update(
                        old(self)@.x(),
                        (old(self)@.vx() + old(self)@.vy()) as u8,
                    )
                },
                pc: old(self)@.pc + 2,
                ..old(self)@
            }),
    {
        let x = self.nibble_x();
        let r: u16 = self.v[x] as u16 + self.v[self.nibble_y()] as u16;
        if r > 255 {
            self.v.set(x, (r - 256) as u8);
            self.v.set(FLAG_REG, 1);  // carry flag set to 1
        } else {
            self.v.set(FLAG_REG, 0);
            self.v.set(x, r as u8);
        }
        self.inc_pc(1);
    }

    /// v[x] = v[x] - v[y].  The flag register is set to 1 if there is NO
    /// borrow, set to 0 otherwise; the result wraps on borrow.
    ///
    /// This instruction is of the form "8xy5".
    pub fn assign_vx_minus_vy_to_vx(&mut self)
        requires
            old(self)@.wf(),
            old(self)@.pc_ok(),
        ensures
            final(self)@ == (State {
                v: if old(self)@.vx() >= old(self)@.vy() {
                    old(self)@.v.update(
                        old(self)@.x(),
                        (old(self)@.vx() - old(self)@.vy()) as u8,
                    ).update(FLAG_REG as int, 1u8)
                } else {
                    old(self)@.v.update(
                        old(self)@.x(),
                        (old(self)@.vx() - old(self)@.vy() + 256) as u8,
                    ).update(FLAG_REG as int, 0u8)
                },
                pc: old(self)@.pc + 2,
                ..old(self)@
            }),
    {
        let x = self.nibble_x();
        let vx = self.v[x];
        let vy = self.v[self.nibble_y()];
        if vx >= vy {  // No borrow
            self.v.set(x, vx - vy);
            self.v.set(FLAG_REG, 1);
        } else {
            let w: u16 = vx as u16 + 256 - vy as u16;
            self.v.set(x, w as u8);
            self.v.set(FLAG_REG, 0);
        }
        self.inc_pc(1);
    }

    /// v[x] = v[x] >> 1.  Before shifting, the least significant bit of
    /// v[x] is copied to the flag register.
    ///
    /// This instruction is of the form "8xy6".
    pub fn shr_vx(&mut self)
        requires
            old(self)@.wf(),
            old(self)@.pc_ok(),
        ensures
            final(self)@ == (State {
                v: old(self)@.v.update(FLAG_REG as int, old(self)@.vx() & 1).update(
                    old(self)@.x(),
                    old(self)@.vx() >> 1,
                ),
                pc: old(self)@.pc + 2,
                ..old(self)@
            }),
    {
        let x = self.nibble_x();
        let vx = self.v[x];
        self.v.set(FLAG_REG, vx & 1);
        self.v.set(x, vx >> 1);
        self.inc_pc(1);
    }

    /// v[x] = v[y] - v[x].  The flag register is set to 1 if there is NO
    /// borrow, otherwise set to 0; the result wraps on borrow.
    ///
    /// This instruction is of the form "8xy7".
    pub fn assign_vy_minus_vx_to_vx(&mut self)
        requires
            old(self)@.wf(),
            old(self)@.pc_ok(),
        ensures
            final(self)@ == (State {
                v: if old(self)@.vy() >= old(self)@.vx() {
                    old(self)@.v.update(
                        old(self)@.x(),
                        (old(self)@.vy() - old(self)@.vx()) as u8,
                    ).update(FLAG_REG as int, 1u8)
                } else {
                    old(self)@.v.update(
                        old(self)@.x(),
                        (old(self)@.vy() - old(self)@.vx() + 256) as u8,
                    ).update(FLAG_REG as int, 0u8)
                },
                pc: old(self)@.pc + 2,
                ..old(self)@
            }),
    {
        let x = self.nibble_x();
        let vx = self.v[x];
        let vy = self.v[self.nibble_y()];
        if vy >= vx {  // No borrow
            self.v.set(x, vy - vx);
            self.v.set(FLAG_REG, 1);
        } else {
            let w: u16 = vy as u16 + 256 - vx as u16;
            self.v.set(x, w as u8);
            self.v.set(FLAG_REG, 0);
        }
        self.inc_pc(1);
    }

    /// v[x] = v[x] << 1.  Before shifting, the most significant bit of
    /// v[x] is copied to the flag register.
    ///
    /// This instruction is of the form "8xyE".
    pub fn shl_vx(&mut self)
        requires
            old(self)@.wf(),
            old(self)@.pc_ok(),
        ensures
            final(self)@ == (State {
                v: old(self)@.v.update(FLAG_REG as int, (old(self)@.vx() >> 7) & 1).update(
                    old(self)@.x(),
                    old(self)@.vx() << 1,
                ),
                pc: old(self)@.pc + 2,
                ..old(self)@
            }),
    {
        let x = self.nibble_x();
        let vx = self.v[x];
        self.v.set(FLAG_REG, (vx >> 7) & 1);
        self.v.set(x, vx << 1);
        self.inc_pc(1);
    }

    /// Assign the 12 bit address encoded as part of the instruction to the
    /// i register.
    ///
    /// This instruction is of the form "Annn".
    pub fn assign_address_to_ireg(&mut self)
        requires
            old(self)@.wf(),
            old(self)@.pc_ok(),
        ensures
            final(self)@ == (State {
                i: old(self)@.nnn(),
                pc: old(self)@.pc + 2,
                ..old(self)@
            }),
    {
        let a = self.get_address();
        self.i = a;
        self.inc_pc(1);
    }

    /// Get the 12 bit address encoded as part of the instruction, add v[0]
    /// to it and jump to that location.
    ///
    /// This instruction is of the form "Bnnn".
    pub fn jmp_to_address_plus_v0(&mut self)
        requires
            old(self)@.wf(),
            old(self)@.pc_ok(),
        ensures
            final(self)@ == (State { pc: old(self)@.v[0] + old(self)@.nnn(), ..old(self)@ }),
    {
        let a = self.get_address();
        self.pc = self.v[0] as usize + a;
    }

    /// v[x] = randval & nn: assign to v[x] the bitwise and of the constant
    /// encoded in the instruction with a 1 byte random number.  The random
    /// byte is taken as an argument so that a deterministic substitute can
    /// be injected; the execution step draws it from the random source.
    ///
    /// This instruction is of the form "Cxnn".
    pub fn assign_rand_bitand_const_to_vx(&mut self, randval: u8)
        requires
            old(self)@.wf(),
            old(self)@.pc_ok(),
        ensures
            final(self)@ == (State {
                v: old(self)@.v.update(old(self)@.x(), old(self)@.nn() & randval),
                pc: old(self)@.pc + 2,
                ..old(self)@
            }),
    {
        let x = self.nibble_x();
        let nn = self.get_constant();
        self.v.set(x, nn & randval);
        self.inc_pc(1);
    }

    /// Execute the instruction pointed to by the program counter: one
    /// fetch-decode-execute step, exactly [`spec_step`] for some byte of
    /// the random source.  A decode error or an address-space violation is
    /// reported without touching the machine state.
    pub fn execute_insn(&mut self) -> (r: Result<(), CpuError>)
        requires
            old(self)@.wf(),
            old(self)@.sp_ok(),
        ensures
            final(self)@.wf(),
            final(self)@.sp_ok(),
            match r {
                Ok(()) => exists|b: u8|
                    #[trigger] spec_step(old(self)@, b) == Ok::<State, CpuError>(final(self)@),
                Err(e) => final(self)@ == old(self)@ && forall|b: u8|
                    #[trigger] spec_step(old(self)@, b) == Err::<State, CpuError>(e),
            },
    {
        if self.pc >= MEM_SIZE - 1 {
            return Err(CpuError::AddressViolation);
        }
        let hi = self.mem[self.pc];
        let lo = self.mem[self.pc + 1];
        proof {
            // the register indices an instruction can encode stay in range
            assert(hi & 0xf < 16) by (bit_vector);
            assert((lo >> 4) & 0xf < 16) by (bit_vector);
        }
        let op = match decode(hi, lo) {
            Ok(op) => op,
            Err(e) => { return Err(e); },
        };
        match op {
            Opcode::Ret => {
                if self.sp < SP_BOTTOM + 2 {
                    return Err(CpuError::AddressViolation);
                }
                self.ret();
            },
            Opcode::Jmp => self.jmp(),
            Opcode::Call => {
                if self.sp + 3 > STACK_TOP {
                    return Err(CpuError::AddressViolation);
                }
                self.call();
            },
            Opcode::SkipIfVxEqNn => self.skip_if_vx_eq_nn(),
            Opcode::SkipIfVxNeNn => self.skip_if_vx_ne_nn(),
            Opcode::SkipIfVxEqVy => self.skip_if_vx_eq_vy(),
            Opcode::SkipIfVxNeVy => self.skip_if_vx_ne_vy(),
            Opcode::SetVxToNn => self.set_vx_to_nn(),
            Opcode::AddNnToVx => self.add_nn_to_vx(),
            Opcode::AssignVyToVx => self.assign_vy_to_vx(),
            Opcode::OrVyToVx => self.assign_vx_or_vy_to_vx(),
            Opcode::AndVyToVx => self.assign_vx_and_vy_to_vx(),
            Opcode::XorVyToVx => self.assign_vx_xor_vy_to_vx(),
            Opcode::AddVyToVx => self.assign_vx_plus_vy_to_vx(),
            Opcode::SubVyFromVx => self.assign_vx_minus_vy_to_vx(),
            Opcode::ShrVx => self.shr_vx(),
            Opcode::SubVxFromVy => self.assign_vy_minus_vx_to_vx(),
            Opcode::ShlVx => self.shl_vx(),
            Opcode::SetIReg => self.assign_address_to_ireg(),
            Opcode::JmpPlusV0 => self.jmp_to_address_plus_v0(),
            Opcode::RandAndNn => {
                let randval: u8 = rand::random::<u8>();
                self.assign_rand_bitand_const_to_vx(randval);
                proof {
                    assert(spec_step(old(self)@, randval) == Ok::<State, CpuError>(self@));
                }
            },
        }
        proof {
            if op != Opcode::RandAndNn {
                assert(spec_step(old(self)@, 0u8) == Ok::<State, CpuError>(self@));
            }
        }
        Ok(())
    }
}

/// Relies on rand::random of the rand crate: a zero-argument draw from the
/// thread-local generator.  Nothing is promised of the value: the callers
/// state what holds of every outcome.
pub assume_specification<T>[ rand::random::<T> ]() -> (r: T)
    where
        rand::distributions::Standard: rand::distributions::Distribution<T>,
;

/// Decode the two bytes of an instruction into its opcode family.  An
/// unassigned leading-or-trailing nibble combination is a decode error,
/// never a silent no-op.
pub fn decode(hi: u8, lo: u8) -> (r: Result<Opcode, CpuError>)
    ensures
        match spec_decode(hi, lo) {
            Some(op) => r == Ok::<Opcode, CpuError>(op),
            None => r == Err::<Opcode, CpuError>(CpuError::Decode),
        },
{
    if hi == 0x00 && lo == 0xee {
        return Ok(Opcode::Ret);
    }
    let family = hi >> 4;
    if family == 0x8 {
        let tail = lo & 0xf;
        match tail {
            0x0 => Ok(Opcode::AssignVyToVx),
            0x1 => Ok(Opcode::OrVyToVx),
            0x2 => Ok(Opcode::AndVyToVx),
            0x3 => Ok(Opcode::XorVyToVx),
            0x4 => Ok(Opcode::AddVyToVx),
            0x5 => Ok(Opcode::SubVyFromVx),
            0x6 => Ok(Opcode::ShrVx),
            0x7 => Ok(Opcode::SubVxFromVy),
            0xe => Ok(Opcode::ShlVx),
            _ => Err(CpuError::Decode),
        }
    } else {
        match family {
            0x1 => Ok(Opcode::Jmp),
            0x2 => Ok(Opcode::Call),
            0x3 => Ok(Opcode::SkipIfVxEqNn),
            0x4 => Ok(Opcode::SkipIfVxNeNn),
            0x5 => Ok(Opcode::SkipIfVxEqVy),
            0x6 => Ok(Opcode::SetVxToNn),
            0x7 => Ok(Opcode::AddNnToVx),
            0x9 => Ok(Opcode::SkipIfVxNeVy),
            0xa => Ok(Opcode::SetIReg),
            0xb => Ok(Opcode::JmpPlusV0),
            0xc => Ok(Opcode::RandAndNn),
            _ => Err(CpuError::Decode),
        }
    }
}

} // verus!
