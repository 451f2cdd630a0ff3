//! The virtual machine execution engine: three 65,536-word banks, a four-word
//! instruction format with sixteen opcodes, and the host synchronization
//! protocol.

use vstd::prelude::*;

verus! {

use crate::expansions::Expansion;
use crate::word::wrap16;
use crate::word::wrap_add;
use crate::word::wrap_mul;
use crate::word::wrap_sub;
use crate::word::lemma_wrap16_add_absorbs;
use crate::word::lemma_wrap16_sub_absorbs;

/// Number of words in each memory bank; also the number of distinct words, so
/// a word always indexes a bank in bounds.
pub const MEMSIZE: usize = 65536;

pub const OP_SET: u16 = 0;
pub const OP_GOTO: u16 = 1;
pub const OP_SKIP: u16 = 2;
pub const OP_ADD: u16 = 3;
pub const OP_SUB: u16 = 4;
pub const OP_MUL: u16 = 5;
pub const OP_DIV: u16 = 6;
pub const OP_CMP: u16 = 7;
pub const OP_DEREF: u16 = 8;
pub const OP_REF: u16 = 9;
pub const OP_DEBUG: u16 = 10;
pub const OP_PRINT: u16 = 11;
pub const OP_READ: u16 = 12;
pub const OP_BAND: u16 = 13;
pub const OP_XOR: u16 = 14;
pub const OP_SYNC: u16 = 15;

/// The abstract state of the engine: the three banks, the instruction
/// pointer, the input destinations requested by the last SYNC, the two
/// handshake flags, and whether an expansion is installed.
#[verifier::ext_equal]
pub ghost struct EngineView {
    pub mem: Seq<u16>,
    pub screen: Seq<u16>,
    pub util: Seq<u16>,
    pub ip: u16,
    pub pos_dest: u16,
    pub key_dest: u16,
    pub sync_called: bool,
    pub expansion_triggered: bool,
    pub has_expansion: bool,
}

impl EngineView {
    /// All three banks hold exactly one word per address.
    pub open spec fn wf(self) -> bool {
        &&& self.mem.len() == MEMSIZE
        &&& self.screen.len() == MEMSIZE
        &&& self.util.len() == MEMSIZE
    }
}

/// A bank of `MEMSIZE` zero words.
pub open spec fn zeros() -> Seq<u16> {
    Seq::new(MEMSIZE as nat, |i: int| 0u16)
}

/// Main memory after loading a program: the program is copied prefix-wise,
/// truncated to the bank size, and the tail stays zero.
pub open spec fn loaded_mem(program: Seq<u16>) -> Seq<u16> {
    Seq::new(MEMSIZE as nat, |i: int| if i < program.len() { program[i] } else { 0u16 })
}

/// The four instruction words at the instruction pointer, read with wrapping
/// addresses: `opcode, a1, a2, a3`.
pub open spec fn decode(v: EngineView) -> (u16, u16, u16, u16) {
    (
        v.mem[v.ip as int],
        v.mem[wrap16(v.ip + 1) as int],
        v.mem[wrap16(v.ip + 2) as int],
        v.mem[wrap16(v.ip + 3) as int],
    )
}

#[derive(Clone, Copy, Debug, PartialEq, Eq, Structural)]
pub enum EngineError {
    /// DIV found a zero divisor; carries the numerator for diagnostics.
    ZeroDivision(u16),
    /// The opcode word is outside the instruction set.
    InvalidInstruction(u16),
}

/// The error, if any, that executing one instruction in state `v` raises.
/// A failing step leaves the state untouched.
pub open spec fn step_error(v: EngineView) -> Option<EngineError> {
    let (op, a1, a2, a3) = decode(v);
    if op > OP_SYNC {
        Some(EngineError::InvalidInstruction(op))
    } else if op == OP_DIV && v.mem[a2 as int] == 0 {
        Some(EngineError::ZeroDivision(v.mem[a1 as int]))
    } else {
        None
    }
}

/// The debug triple, if any, that executing one instruction in state `v`
/// emits: DEBUG yields its immediate label and the two watched words.
pub open spec fn step_debug(v: EngineView) -> Option<(u16, u16, u16)> {
    let (op, a1, a2, a3) = decode(v);
    if op == OP_DEBUG {
        Some((a1, v.mem[a2 as int], v.mem[a3 as int]))
    } else {
        None
    }
}

/// The state after executing one instruction in state `v`, meaningful when
/// `step_error(v)` is `None`. All arithmetic wraps modulo 2^16.
pub open spec fn step_post(v: EngineView) -> EngineView {
    let (op, a1, a2, a3) = decode(v);
    let next_ip = wrap16(v.ip + 4);
    if op == OP_SET {
        let value = if a3 == 0 { a2 } else { v.ip };
        EngineView { mem: v.mem.update(a1 as int, value), ip: next_ip, ..v }
    } else if op == OP_GOTO {
        if v.mem[a3 as int] == 0 {
            EngineView { ip: wrap16(v.mem[a1 as int] + a2), ..v }
        } else {
            EngineView { ip: next_ip, ..v }
        }
    } else if op == OP_SKIP {
        if v.mem[a3 as int] == 0 {
            EngineView { ip: wrap16(v.ip + 4 * a1 - 4 * a2), ..v }
        } else {
            EngineView { ip: next_ip, ..v }
        }
    } else if op == OP_ADD {
        EngineView {
            mem: v.mem.update(a3 as int, wrap16(v.mem[a1 as int] + v.mem[a2 as int])),
            ip: next_ip,
            ..v
        }
    } else if op == OP_SUB {
        EngineView {
            mem: v.mem.update(a3 as int, wrap16(v.mem[a1 as int] - v.mem[a2 as int])),
            ip: next_ip,
            ..v
        }
    } else if op == OP_MUL {
        EngineView {
            mem: v.mem.update(a3 as int, wrap16(v.mem[a1 as int] * v.mem[a2 as int])),
            ip: next_ip,
            ..v
        }
    } else if op == OP_DIV {
        EngineView {
            mem: v.mem.update(a3 as int, (v.mem[a1 as int] as int / v.mem[a2 as int] as int) as u16),
            ip: next_ip,
            ..v
        }
    } else if op == OP_CMP {
        let less: u16 = if v.mem[a1 as int] < v.mem[a2 as int] { 1 } else { 0 };
        EngineView { mem: v.mem.update(a3 as int, less), ip: next_ip, ..v }
    } else if op == OP_DEREF {
        EngineView {
            mem: v.mem.update(a2 as int, v.mem[wrap16(v.mem[a1 as int] + a3) as int]),
            ip: next_ip,
            ..v
        }
    } else if op == OP_REF {
        EngineView {
            mem: v.mem.update(wrap16(v.mem[a1 as int] + a3) as int, v.mem[a2 as int]),
            ip: next_ip,
            ..v
        }
    } else if op == OP_DEBUG {
        EngineView { ip: next_ip, ..v }
    } else if op == OP_PRINT {
        if a3 == 0 {
            EngineView {
                screen: v.screen.update(v.mem[a2 as int] as int, v.mem[a1 as int]),
                ip: next_ip,
                ..v
            }
        } else {
            EngineView {
                util: v.util.update(v.mem[a2 as int] as int, v.mem[a1 as int]),
                ip: next_ip,
                ..v
            }
        }
    } else if op == OP_READ {
        if a3 == 0 {
            EngineView {
                mem: v.mem.update(a2 as int, v.screen[v.mem[a1 as int] as int]),
                ip: next_ip,
                ..v
            }
        } else {
            EngineView {
                mem: v.mem.update(a2 as int, v.util[v.mem[a1 as int] as int]),
                ip: next_ip,
                ..v
            }
        }
    } else if op == OP_BAND {
        EngineView {
            mem: v.mem.update(a3 as int, v.mem[a1 as int] & v.mem[a2 as int]),
            ip: next_ip,
            ..v
        }
    } else if op == OP_XOR {
        EngineView {
            mem: v.mem.update(a3 as int, v.mem[a1 as int] ^ v.mem[a2 as int]),
            ip: next_ip,
            ..v
        }
    } else if op == OP_SYNC {
        EngineView {
            sync_called: true,
            pos_dest: a1,
            key_dest: a2,
            expansion_triggered: v.expansion_triggered || a3 > 0,
            ip: next_ip,
            ..v
        }
    } else {
        v
    }
}

/// Main memory after a host sync: if a SYNC was pending, the two input codes
/// land at the destinations it requested (in that order, so on a shared
/// destination the key code wins).
pub open spec fn sync_mem(v: EngineView, pos_code: u16, key_code: u16) -> Seq<u16> {
    if v.sync_called {
        v.mem.update(v.pos_dest as int, pos_code).update(v.key_dest as int, key_code)
    } else {
        v.mem
    }
}

/// The state after a host sync on an engine without an expansion: inputs are
/// delivered, both flags drop, and a pending trigger zeroes the utility
/// buffer.
pub open spec fn sync_post_no_expansion(v: EngineView, pos_code: u16, key_code: u16) -> EngineView {
    EngineView {
        mem: sync_mem(v, pos_code, key_code),
        util: if v.expansion_triggered { zeros() } else { v.util },
        sync_called: false,
        expansion_triggered: false,
        ..v
    }
}

/// The execution engine. `E` is the expansion type the host installed; an
/// engine without one carries `None`.
pub struct Engine<E: Expansion> {
    memory: Vec<u16>,
    screen_buffer: Vec<u16>,
    utility_buffer: Vec<u16>,
    expansion: Option<E>,
    instruction_pointer: u16,
    pos_code_dest: u16,
    key_code_dest: u16,
    sync_called: bool,
    expansion_triggered: bool,
}

impl<E: Expansion> View for Engine<E> {
    type V = EngineView;

    closed spec fn view(&self) -> EngineView {
        EngineView {
            mem: self.memory@,
            screen: self.screen_buffer@,
            util: self.utility_buffer@,
            ip: self.instruction_pointer,
            pos_dest: self.pos_code_dest,
            key_dest: self.key_code_dest,
            sync_called: self.sync_called,
            expansion_triggered: self.expansion_triggered,
            has_expansion: self.expansion is Some,
        }
    }
}

/// A freshly allocated zero bank.
fn zero_bank() -> (bank: Vec<u16>)
    ensures
        bank@ == zeros(),
{
    let mut bank: Vec<u16> = Vec::new();
    let mut i: usize = 0;
    while i < MEMSIZE
        invariant
            i <= MEMSIZE,
            bank@.len() == i,
            forall|j: int| 0 <= j < i ==> bank@[j] == 0u16,
        decreases MEMSIZE - i,
    {
        bank.push(0);
        i = i + 1;
    }
    proof {
        assert(bank@ =~= zeros());
    }
    bank
}

impl<E: Expansion> Engine<E> {
    /// Builds an engine: all banks zeroed, then main memory overwritten
    /// prefix-wise from the program (a shorter program leaves the tail zero; a
    /// longer one is truncated). Fires `on_init` if an expansion is present.
    pub fn new(program: &Vec<u16>, expansion: Option<E>) -> (engine: Self)
        ensures
            engine@.wf(),
            engine@.mem == loaded_mem(program@),
            engine@.screen == zeros(),
            engine@.util == zeros(),
            engine@.ip == 0,
            engine@.pos_dest == 0,
            engine@.key_dest == 0,
            !engine@.sync_called,
            !engine@.expansion_triggered,
            engine@.has_expansion == (expansion is Some),
    {
        let mut expansion = expansion;
        let mut memory = zero_bank();
        let n: usize = if program.len() < MEMSIZE {
            program.len()
        } else {
            MEMSIZE
        };
        let mut i: usize = 0;
        while i < n
            invariant
                i <= n,
                n <= MEMSIZE,
                n <= program@.len(),
                n == MEMSIZE || n == program@.len(),
                memory@.len() == MEMSIZE,
                forall|j: int| 0 <= j < i ==> memory@[j] == program@[j],
                forall|j: int| i <= j < MEMSIZE ==> memory@[j] == 0u16,
            decreases n - i,
        {
            memory[i] = program[i];
            i = i + 1;
        }
        match &mut expansion {
            Some(e) => e.on_init(),
            None => {},
        }
        let engine = Engine {
            memory,
            screen_buffer: zero_bank(),
            utility_buffer: zero_bank(),
            expansion,
            instruction_pointer: 0,
            pos_code_dest: 0,
            key_code_dest: 0,
            sync_called: false,
            expansion_triggered: false,
        };
        proof {
            assert(engine@.mem =~= loaded_mem(program@));
        }
        engine
    }

    /// True when the guest has reached a SYNC that the host has not yet
    /// served.
    pub fn wants_to_sync(&self) -> (pending: bool)
        ensures
            pending == self@.sync_called,
    {
        self.sync_called
    }

    /// A main-memory word, for debuggers.
    pub fn get(&self, index: u16) -> (value: u16)
        requires
            self@.wf(),
        ensures
            value == self@.mem[index as int],
    {
        self.memory[index as usize]
    }

    fn set_mem(&mut self, index: u16, value: u16)
        requires
            old(self)@.wf(),
        ensures
            final(self)@.wf(),
            final(self)@ == (EngineView {
                mem: old(self)@.mem.update(index as int, value),
                ..old(self)@
            }),
    {
        self.memory[index as usize] = value;
    }

    fn get_screen_buffer(&self, index: u16) -> (value: u16)
        requires
            self@.wf(),
        ensures
            value == self@.screen[index as int],
    {
        self.screen_buffer[index as usize]
    }

    fn get_utility_buffer(&self, index: u16) -> (value: u16)
        requires
            self@.wf(),
        ensures
            value == self@.util[index as int],
    {
        self.utility_buffer[index as usize]
    }

    fn set_screen_buffer(&mut self, index: u16, value: u16)
        requires
            old(self)@.wf(),
        ensures
            final(self)@.wf(),
            final(self)@ == (EngineView {
                screen: old(self)@.screen.update(index as int, value),
                ..old(self)@
            }),
    {
        self.screen_buffer[index as usize] = value;
    }

    fn set_utility_buffer(&mut self, index: u16, value: u16)
        requires
            old(self)@.wf(),
        ensures
            final(self)@.wf(),
            final(self)@ == (EngineView {
                util: old(self)@.util.update(index as int, value),
                ..old(self)@
            }),
    {
        self.utility_buffer[index as usize] = value;
    }

    /// The four instruction words at the instruction pointer, for debuggers;
    /// an instruction straddling the last address wraps into address zero.
    pub fn read_instruction(&self) -> (instruction: [u16; 4])
        requires
            self@.wf(),
        ensures
            (instruction[0], instruction[1], instruction[2], instruction[3]) == decode(self@),
    {
        let inst_ptr = self.instruction_pointer;
        [
            self.get(inst_ptr),
            self.get(wrap_add(inst_ptr, 1)),
            self.get(wrap_add(inst_ptr, 2)),
            self.get(wrap_add(inst_ptr, 3)),
        ]
    }

    fn advance_inst_ptr(&mut self)
        requires
            old(self)@.wf(),
        ensures
            final(self)@.wf(),
            final(self)@ == (EngineView { ip: wrap16(old(self)@.ip + 4), ..old(self)@ }),
    {
        self.instruction_pointer = wrap_add(self.instruction_pointer, 4);
    }

    /// Executes exactly one instruction and yields nothing, a DEBUG triple,
    /// or an error; a failing step leaves the whole state, the instruction
    /// pointer included, untouched.
    pub fn step(&mut self) -> (result: Result<Option<(u16, u16, u16)>, EngineError>)
        requires
            old(self)@.wf(),
        ensures
            final(self)@.wf(),
            final(self)@.has_expansion == old(self)@.has_expansion,
            (match result {
                Ok(debug) => {
                    &&& step_error(old(self)@) is None
                    &&& final(self)@ == step_post(old(self)@)
                    &&& debug == step_debug(old(self)@)
                },
                Err(e) => {
                    &&& step_error(old(self)@) == Some(e)
                    &&& final(self)@ == old(self)@
                },
            }),
    {
        let instruction = self.read_instruction();
        let opcode = instruction[0];
        let arg1 = instruction[1];
        let arg2 = instruction[2];
        let arg3 = instruction[3];
        match opcode {
            OP_SET => {
                let value = if arg3 == 0 {
                    arg2
                } else {
                    self.instruction_pointer
                };
                self.set_mem(arg1, value);
                self.advance_inst_ptr();
            },
            OP_GOTO => {
                if self.get(arg3) == 0 {
                    self.instruction_pointer = wrap_add(self.get(arg1), arg2);
                } else {
                    self.advance_inst_ptr();
                }
            },
            OP_SKIP => {
                if self.get(arg3) == 0 {
                    let ghost pre = self@;
                    let displacement = wrap_sub(wrap_mul(arg1, 4), wrap_mul(arg2, 4));
                    self.instruction_pointer = wrap_add(self.instruction_pointer, displacement);
                    proof {
                        lemma_wrap16_sub_absorbs(arg1 * 4, arg2 * 4);
                        lemma_wrap16_add_absorbs(pre.ip as int, arg1 * 4 - arg2 * 4);
                    }
                } else {
                    self.advance_inst_ptr();
                }
            },
            OP_ADD => {
                let sum = wrap_add(self.get(arg1), self.get(arg2));
                self.set_mem(arg3, sum);
                self.advance_inst_ptr();
            },
            OP_SUB => {
                let difference = wrap_sub(self.get(arg1), self.get(arg2));
                self.set_mem(arg3, difference);
                self.advance_inst_ptr();
            },
            OP_MUL => {
                let product = wrap_mul(self.get(arg1), self.get(arg2));
                self.set_mem(arg3, product);
                self.advance_inst_ptr();
            },
            OP_DIV => {
                let divisor = self.get(arg2);
                if divisor == 0 {
                    let numerator = self.get(arg1);
                    return Err(EngineError::ZeroDivision(numerator));
                } else {
                    let quotient = self.get(arg1) / divisor;
                    self.set_mem(arg3, quotient);
                    self.advance_inst_ptr();
                }
            },
            OP_CMP => {
                if self.get(arg1) < self.get(arg2) {
                    self.set_mem(arg3, 1);
                } else {
                    self.set_mem(arg3, 0);
                }
                self.advance_inst_ptr();
            },
            OP_DEREF => {
                let value = self.get(wrap_add(self.get(arg1), arg3));
                self.set_mem(arg2, value);
                self.advance_inst_ptr();
            },
            OP_REF => {
                let value = self.get(arg2);
                let target = wrap_add(self.get(arg1), arg3);
                self.set_mem(target, value);
                self.advance_inst_ptr();
            },
            OP_DEBUG => {
                let label = arg1;
                let value1 = self.get(arg2);
                let value2 = self.get(arg3);
                self.advance_inst_ptr();
                return Ok(Some((label, value1, value2)));
            },
            OP_PRINT => {
                let value = self.get(arg1);
                let index = self.get(arg2);
                if arg3 == 0 {
                    self.set_screen_buffer(index, value);
                } else {
                    self.set_utility_buffer(index, value);
                }
                self.advance_inst_ptr();
            },
            OP_READ => {
                let index = self.get(arg1);
                let value = if arg3 == 0 {
                    self.get_screen_buffer(index)
                } else {
                    self.get_utility_buffer(index)
                };
                self.set_mem(arg2, value);
                self.advance_inst_ptr();
            },
            OP_BAND => {
                let band = self.get(arg1) & self.get(arg2);
                self.set_mem(arg3, band);
                self.advance_inst_ptr();
            },
            OP_XOR => {
                let xor = self.get(arg1) ^ self.get(arg2);
                self.set_mem(arg3, xor);
                self.advance_inst_ptr();
            },
            OP_SYNC => {
                self.sync_called = true;
                self.pos_code_dest = arg1;
                self.key_code_dest = arg2;
                if arg3 > 0 {
                    self.expansion_triggered = true;
                }
                self.advance_inst_ptr();
            },
            _ => {
                return Err(EngineError::InvalidInstruction(opcode));
            },
        }
        Ok(None)
    }

    /// Writes the two input codes to the destinations requested by the last
    /// SYNC (key code second, so it wins on a shared destination).
    pub fn set_input(&mut self, pos_code: u16, key_code: u16)
        requires
            old(self)@.wf(),
        ensures
            final(self)@.wf(),
            final(self)@ == (EngineView {
                mem: old(self)@.mem.update(old(self)@.pos_dest as int, pos_code).update(
                    old(self)@.key_dest as int,
                    key_code,
                ),
                ..old(self)@
            }),
    {
        let pos_dest = self.pos_code_dest;
        let key_dest = self.key_code_dest;
        self.set_mem(pos_dest, pos_code);
        self.set_mem(key_dest, key_code);
    }

    /// Serves one host sync: copies the screen buffer into the caller's
    /// destination, delivers the input codes if a SYNC was pending, and, if a
    /// trigger was pending, hands the expansion a zeroed scratch bank whose
    /// final contents become the new utility buffer - or, without an
    /// expansion, zeroes the utility buffer. Both flags drop either way.
    pub fn perform_sync(
        &mut self,
        pos_code: u16,
        key_code: u16,
        screen_buffer_destination: &mut Vec<u16>,
    )
        requires
            old(self)@.wf(),
            old(screen_buffer_destination)@.len() == MEMSIZE,
        ensures
            final(self)@.wf(),
            final(screen_buffer_destination)@ == old(self)@.screen,
            final(self)@.mem == sync_mem(old(self)@, pos_code, key_code),
            final(self)@.screen == old(self)@.screen,
            final(self)@.ip == old(self)@.ip,
            final(self)@.pos_dest == old(self)@.pos_dest,
            final(self)@.key_dest == old(self)@.key_dest,
            !final(self)@.sync_called,
            !final(self)@.expansion_triggered,
            final(self)@.has_expansion == old(self)@.has_expansion,
            !old(self)@.expansion_triggered ==> final(self)@.util == old(self)@.util,
            old(self)@.expansion_triggered && !old(self)@.has_expansion ==> final(self)@.util
                == zeros(),
            !old(self)@.has_expansion ==> final(self)@ == sync_post_no_expansion(
                old(self)@,
                pos_code,
                key_code,
            ),
    {
        let mut i: usize = 0;
        while i < MEMSIZE
            invariant
                i <= MEMSIZE,
                self@ == old(self)@,
                self@.wf(),
                screen_buffer_destination@.len() == MEMSIZE,
                forall|j: int| 0 <= j < i ==> screen_buffer_destination@[j] == self@.screen[j],
            decreases MEMSIZE - i,
        {
            screen_buffer_destination[i] = self.screen_buffer[i];
            i = i + 1;
        }
        proof {
            assert(screen_buffer_destination@ =~= self@.screen);
        }
        if self.sync_called {
            self.sync_called = false;
            self.set_input(pos_code, key_code);
        }
        if self.expansion_triggered {
            match &mut self.expansion {
                Some(expansion) => {
                    let mut fresh = zero_bank();
                    expansion.expansion_triggered(&mut fresh);
                    self.utility_buffer = fresh;
                },
                None => {
                    self.utility_buffer = zero_bank();
                },
            }
            self.expansion_triggered = false;
        }
        proof {
            if !old(self)@.has_expansion {
                assert(self@ =~= sync_post_no_expansion(old(self)@, pos_code, key_code));
            }
        }
    }

    /// Finishes with the engine: fires the expansion's `on_deinit` - the
    /// partner of the `on_init` that `new` fired - and discards the state. A
    /// host that wants a reset discards the engine and builds a fresh one.
    pub fn shutdown(self) {
        match self.expansion {
            Some(mut expansion) => expansion.on_deinit(),
            None => {},
        }
    }
}

} // verus!
