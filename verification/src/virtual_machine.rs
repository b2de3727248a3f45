//! The virtual machine: a flat bank of 256 signed 16-bit registers shared by
//! all threads, a pool of 64 cooperative threads with double-buffered
//! scheduling state, a call stack, the current part's resource bindings, and
//! the execution of one instruction per step.
//!
//! All thread-scheduling edits made by instructions are staged in `next_pc` /
//! `next_active` and committed only at the round boundary, when the
//! round-robin scan wraps past thread 0; changing another thread's execution
//! point therefore never affects the round in which the change was requested.
//!
//! Corrupt script data (an invalid opcode, an operand past the script, a
//! return with an empty stack, an out-of-range thread or resource id) is a
//! script fault: the executing thread is killed and the step reports no
//! action. This one policy is applied consistently; script execution is
//! deterministic, so such a fault is a data-integrity problem, never a
//! transient one.

use vstd::prelude::*;
use crate::defines::{
    NUM_REGISTERS, NUM_THREADS, INACTIVE_THREAD, BASE_PART_ID, MAX_PART_ID, FRAME_BUFFER_HEIGHT,
};
use crate::opcodes::{Opcodes, OpcodeKind, ActionRequest, spec_action_request, spec_decode,
    spec_instruction_len, spec_play_sound_action_request, build_action_request,
    build_play_sound_action_request};
use crate::resources_manager::ResourcesManager;
use crate::utils::{read_u8, read_u16, read_i16, spec_read_u16, spec_read_i16};
use crate::video::{Video, spec_blit_rel, spec_copy_page_rel, spec_draw_confined_rel,
    spec_draw_string_rel, spec_fill_page_rel};

verus! {

/// The key bits of the input model.
#[derive(Clone, Copy, PartialEq, Eq, Structural, Debug)]
pub enum Keys {
    Up,
    Right,
    Down,
    Left,
    Action,
}

impl Keys {
    /// The bit each key occupies in the latched direction set.
    pub open spec fn spec_bit(self) -> u8 {
        match self {
            Keys::Up => 1,
            Keys::Right => 2,
            Keys::Down => 4,
            Keys::Left => 8,
            Keys::Action => 16,
        }
    }

    pub fn bit(self) -> (r: u8)
        ensures
            r == self.spec_bit(),
    {
        match self {
            Keys::Up => 1,
            Keys::Right => 2,
            Keys::Down => 4,
            Keys::Left => 8,
            Keys::Action => 16,
        }
    }
}

/// Registers with a reserved host-visible meaning; ordinary registers read
/// and written by specific instructions and by the input projection.
#[derive(Clone, Copy, PartialEq, Eq, Structural, Debug)]
pub enum ScriptRegs {
    RandomSeed,
    LastKeyChar,
    HeroPosUpDown,
    MusMark,
    ScrollY,
    HeroAction,
    HeroPosJumpDown,
    HeroPosLeftRight,
    HeroPosMask,
    HeroActionPosMask,
    PauseSlices,
}

impl ScriptRegs {
    /// The register index the convention reserves.
    pub open spec fn spec_index(self) -> u8 {
        match self {
            ScriptRegs::RandomSeed => 0x3c,
            ScriptRegs::LastKeyChar => 0xda,
            ScriptRegs::HeroPosUpDown => 0xe5,
            ScriptRegs::MusMark => 0xf4,
            ScriptRegs::ScrollY => 0xf9,
            ScriptRegs::HeroAction => 0xfa,
            ScriptRegs::HeroPosJumpDown => 0xfb,
            ScriptRegs::HeroPosLeftRight => 0xfc,
            ScriptRegs::HeroPosMask => 0xfd,
            ScriptRegs::HeroActionPosMask => 0xfe,
            ScriptRegs::PauseSlices => 0xff,
        }
    }

    pub fn index(self) -> (r: u8)
        ensures
            r == self.spec_index(),
    {
        match self {
            ScriptRegs::RandomSeed => 0x3c,
            ScriptRegs::LastKeyChar => 0xda,
            ScriptRegs::HeroPosUpDown => 0xe5,
            ScriptRegs::MusMark => 0xf4,
            ScriptRegs::ScrollY => 0xf9,
            ScriptRegs::HeroAction => 0xfa,
            ScriptRegs::HeroPosJumpDown => 0xfb,
            ScriptRegs::HeroPosLeftRight => 0xfc,
            ScriptRegs::HeroPosMask => 0xfd,
            ScriptRegs::HeroActionPosMask => 0xfe,
            ScriptRegs::PauseSlices => 0xff,
        }
    }
}

/// One cooperative thread: a program counter and activity flags, each
/// double-buffered. `pc == INACTIVE_THREAD` means the thread executes
/// nothing; in `next_pc` the same value means no pending change, and
/// `INACTIVE_THREAD - 1` means a pending kill.
#[derive(Clone, Copy, PartialEq, Eq, Structural, Debug)]
pub struct Thread {
    pub pc: u16,
    pub next_pc: u16,
    pub active: bool,
    pub next_active: bool,
}

impl Thread {
    pub fn new() -> (r: Thread)
        ensures
            r == (Thread { pc: 0, next_pc: 0, active: false, next_active: false }),
    {
        Thread { pc: 0, next_pc: 0, active: false, next_active: false }
    }
}

pub struct VirtualMachine {
    pub registers: Vec<i16>,
    pub opcodes: Opcodes,
    pub threads: Vec<Thread>,
    pub active_thread: u8,
    pub script_file_id: u8,
    pub palette_file_id: u8,
    pub next_part_id: u8,
    pub stack: Vec<u16>,
    pub polys1_file_id: u8,
    pub polys2_file_id: u8,
    pub direction_keys_enabled: u8,
    pub action_key_enabled: bool,
}

/// The fixed resource bindings of a game part: script, primary and secondary
/// polygon tables, and palette.
pub open spec fn spec_part_files(part: u8) -> (u8, u8, u8, u8) {
    match part {
        0 => (0x15u8, 0x16u8, 0x00u8, 0x14u8),
        1 => (0x18u8, 0x19u8, 0x00u8, 0x17u8),
        2 => (0x1bu8, 0x1cu8, 0x11u8, 0x1au8),
        3 => (0x1eu8, 0x1fu8, 0x11u8, 0x1du8),
        4 => (0x21u8, 0x22u8, 0x11u8, 0x20u8),
        5 => (0x24u8, 0x25u8, 0x00u8, 0x23u8),
        _ => (0x27u8, 0x28u8, 0x11u8, 0x26u8),
    }
}

/// Which part a level belongs to; levels beyond the last fall back to the
/// protection screen.
pub open spec fn spec_level_part(level: u8) -> u8 {
    match level {
        0 => 1u8,
        1 => 2u8,
        2 => 3u8,
        3 | 4 | 5 | 6 | 7 | 8 | 9 | 10 | 11 => 4u8,
        12 | 13 => 6u8,
        14 => 5u8,
        15 => 6u8,
        _ => 0u8,
    }
}

/// The level-specific register seeds applied by a restart, after registers
/// 0 to 63 are zeroed. The opening level seeds the access-check registers;
/// the later checkpoints carry no seeds of their own.
pub open spec fn spec_level_seed(level: u8, i: int) -> Option<i16> {
    if level == 0 {
        if i == 0xbc {
            Some(0x10i16)
        } else if i == 0xc6 {
            Some(0x80i16)
        } else if i == 0xdc {
            Some(33i16)
        } else if i == 0xf2 {
            Some(4000i16)
        } else {
            None
        }
    } else {
        None
    }
}

/// What one register holds right after a part load: registers below 64 are
/// reset, the part-expectation register is seeded, the rest survive.
pub open spec fn spec_part_load_reg(old_regs: Seq<i16>, i: int) -> i16 {
    if i == 0xe4 {
        0x14i16
    } else if 0 <= i < 64 {
        0i16
    } else {
        old_regs[i]
    }
}

/// What one register holds right after `restart_level`.
pub open spec fn spec_restart_reg(old_regs: Seq<i16>, level: u8, i: int) -> i16 {
    if i == 0xe4 {
        0x14i16
    } else if spec_level_seed(level, i) is Some {
        spec_level_seed(level, i)->Some_0
    } else if 0 <= i < 64 {
        0i16
    } else {
        old_regs[i]
    }
}


/// The register bank after the once-per-round input projection: the
/// horizontal and vertical deltas, the duplicated jump-down delta, the
/// direction mask, and the action registers, all full overwrites.
pub open spec fn spec_input_regs(regs: Seq<i16>, keys: u8, action: bool) -> Seq<i16> {
    let lr: i16 = if keys & 8 != 0 {
        -1i16
    } else if keys & 2 != 0 {
        1i16
    } else {
        0i16
    };
    let ud: i16 = if keys & 1 != 0 {
        -1i16
    } else if keys & 4 != 0 {
        1i16
    } else {
        0i16
    };
    let mask: i16 = ((if keys & 2 != 0 {
        1i16
    } else {
        0i16
    }) | (if keys & 8 != 0 {
        2i16
    } else {
        0i16
    }) | (if keys & 4 != 0 {
        4i16
    } else {
        0i16
    }) | (if keys & 1 != 0 {
        8i16
    } else {
        0i16
    }));
    let act: i16 = if action {
        1i16
    } else {
        0i16
    };
    let amask: i16 = if action {
        mask | 0x80
    } else {
        mask
    };
    regs.update(0xfc, lr).update(0xe5, ud).update(0xfb, ud).update(0xfd, mask).update(
        0xfa,
        act,
    ).update(0xfe, amask)
}

/// Whether the round-robin may select a thread: it executes something and
/// its activity flag does not hold it back.
pub open spec fn spec_runnable(t: Thread) -> bool {
    t.pc != INACTIVE_THREAD && !t.active
}

/// One thread's state after the round-boundary commit: the staged activity
/// becomes current, and a staged program counter is installed (the kill
/// sentinel turning the thread off) and then cleared.
pub open spec fn spec_commit_thread(t: Thread) -> Thread {
    Thread {
        pc: if t.next_pc != INACTIVE_THREAD {
            if t.next_pc == (INACTIVE_THREAD - 1) as u16 {
                INACTIVE_THREAD
            } else {
                t.next_pc
            }
        } else {
            t.pc
        },
        next_pc: if t.next_pc != INACTIVE_THREAD {
            INACTIVE_THREAD
        } else {
            t.next_pc
        },
        active: t.next_active,
        next_active: t.next_active,
    }
}

/// The first runnable slot at or after `start`, if any.
pub open spec fn spec_scan_from(threads: Seq<Thread>, start: int) -> Option<int>
    decreases NUM_THREADS - start,
{
    if start < 0 || start >= NUM_THREADS {
        None
    } else if spec_runnable(threads[start]) {
        Some(start)
    } else {
        spec_scan_from(threads, start + 1)
    }
}


/// The thread pool with thread `tid`'s program counter replaced.
pub open spec fn spec_with_tid_pc(pre: VirtualMachine, tid: int, pc: u16) -> Seq<Thread> {
    pre.threads@.update(tid, Thread { pc, ..pre.threads@[tid] })
}

/// Thread `tid` was killed by a script fault: its program counter is the
/// inactive sentinel and nothing else moved.
pub open spec fn spec_killed(pre: VirtualMachine, post: VirtualMachine, tid: int) -> bool {
    &&& post.spec_same_but_threads(pre)
    &&& post.threads@ == spec_with_tid_pc(pre, tid, INACTIVE_THREAD)
}

/// A register instruction's net effect: the register bank takes `regs`, the
/// executing thread advances `olen` bytes, nothing else moves.
pub open spec fn spec_reg_op(
    pre: VirtualMachine,
    post: VirtualMachine,
    tid: int,
    regs: Seq<i16>,
    olen: int,
) -> bool {
    &&& post.spec_same_but_regs_and_threads(pre)
    &&& post.registers@ == regs
    &&& post.threads@ == spec_with_tid_pc(
        pre,
        tid,
        (pre.threads@[tid].pc + olen) as u16,
    )
}

/// A control transfer's target, folded with the execution loop's advance
/// rule: a jump that lands exactly one byte past its own opcode is
/// indistinguishable from no jump and advances over the operands instead.
pub open spec fn spec_jump_pc(pre: VirtualMachine, tid: int, target: u16, olen: int) -> u16 {
    let pc0 = pre.threads@[tid].pc;
    if target == pc0 + 1 {
        (pc0 + olen) as u16
    } else {
        target
    }
}

/// What one execution of the instruction decoded at thread `tid`'s program
/// counter does: the machine and video states afterwards and the action word
/// returned, as a function of the states before and the script bytes. An
/// inactive thread does nothing; a fetch, length or operand read past the
/// script, an invalid opcode, a return with an empty stack, or an
/// out-of-range thread, resource or part id kills the thread.
pub open spec fn spec_thread_step_rel(
    pre: VirtualMachine,
    post: VirtualMachine,
    vpre: Video,
    vpost: Video,
    rm: ResourcesManager,
    tid: int,
    script: Seq<u8>,
    poly1: Seq<u8>,
    r: u32,
) -> bool {
    let pc0 = pre.threads@[tid].pc;
    let pc1 = pc0 + 1;
    if pc0 == INACTIVE_THREAD {
        post == pre && vpost == vpre && r == 0
    } else if pc0 >= script.len() {
        spec_killed(pre, post, tid) && vpost == vpre && r == 0
    } else {
        let kind = spec_decode(script[pc0 as int]);
        match spec_instruction_len(kind, script, pc1) {
            None => spec_killed(pre, post, tid) && vpost == vpre && r == 0,
            Some(olen8) => {
                let olen = olen8 as int;
                if pc0 + olen > script.len() {
                    spec_killed(pre, post, tid) && vpost == vpre && r == 0
                } else {
                    match kind {
                        OpcodeKind::MovImm => spec_reg_op(
                            pre,
                            post,
                            tid,
                            pre.registers@.update(
                                script[pc1] as int,
                                spec_read_i16(script, pc1 + 1),
                            ),
                            olen,
                        ) && vpost == vpre && r == 0,
                        OpcodeKind::Mov => spec_reg_op(
                            pre,
                            post,
                            tid,
                            pre.registers@.update(
                                script[pc1] as int,
                                pre.registers@[script[pc1 + 1] as int],
                            ),
                            olen,
                        ) && vpost == vpre && r == 0,
                        OpcodeKind::Add => spec_reg_op(
                            pre,
                            post,
                            tid,
                            pre.registers@.update(
                                script[pc1] as int,
                                vstd::wrapping::i16_specs::wrapping_add(
                                    pre.registers@[script[pc1] as int],
                                    pre.registers@[script[pc1 + 1] as int],
                                ),
                            ),
                            olen,
                        ) && vpost == vpre && r == 0,
                        OpcodeKind::AddImm => spec_reg_op(
                            pre,
                            post,
                            tid,
                            pre.registers@.update(
                                script[pc1] as int,
                                vstd::wrapping::i16_specs::wrapping_add(
                                    pre.registers@[script[pc1] as int],
                                    spec_read_i16(script, pc1 + 1),
                                ),
                            ),
                            olen,
                        ) && vpost == vpre && r == 0,
                        OpcodeKind::Sub => spec_reg_op(
                            pre,
                            post,
                            tid,
                            pre.registers@.update(
                                script[pc1] as int,
                                vstd::wrapping::i16_specs::wrapping_sub(
                                    pre.registers@[script[pc1] as int],
                                    pre.registers@[script[pc1 + 1] as int],
                                ),
                            ),
                            olen,
                        ) && vpost == vpre && r == 0,
                        OpcodeKind::And => spec_reg_op(
                            pre,
                            post,
                            tid,
                            pre.registers@.update(
                                script[pc1] as int,
                                (((pre.registers@[script[pc1] as int] as u16) & spec_read_u16(
                                    script,
                                    pc1 + 1,
                                )) as i16),
                            ),
                            olen,
                        ) && vpost == vpre && r == 0,
                        OpcodeKind::Or => spec_reg_op(
                            pre,
                            post,
                            tid,
                            pre.registers@.update(
                                script[pc1] as int,
                                (((pre.registers@[script[pc1] as int] as u16) | spec_read_u16(
                                    script,
                                    pc1 + 1,
                                )) as i16),
                            ),
                            olen,
                        ) && vpost == vpre && r == 0,
                        OpcodeKind::Shl => spec_reg_op(
                            pre,
                            post,
                            tid,
                            pre.registers@.update(
                                script[pc1] as int,
                                (((pre.registers@[script[pc1] as int] as u16) << ((spec_read_u16(
                                    script,
                                    pc1 + 1,
                                ) & 15) as u32)) as i16),
                            ),
                            olen,
                        ) && vpost == vpre && r == 0,
                        OpcodeKind::Shr => spec_reg_op(
                            pre,
                            post,
                            tid,
                            pre.registers@.update(
                                script[pc1] as int,
                                (((pre.registers@[script[pc1] as int] as u16) >> ((spec_read_u16(
                                    script,
                                    pc1 + 1,
                                ) & 15) as u32)) as i16),
                            ),
                            olen,
                        ) && vpost == vpre && r == 0,
                        OpcodeKind::Call => {
                            &&& post.spec_same_but_threads_and_stack(pre)
                            &&& post.stack@ == pre.stack@.push((pc0 + 3) as u16)
                            &&& post.threads@ == spec_with_tid_pc(
                                pre,
                                tid,
                                spec_jump_pc(pre, tid, spec_read_u16(script, pc1), olen),
                            )
                            &&& vpost == vpre
                            &&& r == 0
                        },
                        OpcodeKind::Ret => if pre.stack@.len() == 0 {
                            spec_killed(pre, post, tid) && vpost == vpre && r == 0
                        } else {
                            &&& post.spec_same_but_threads_and_stack(pre)
                            &&& post.stack@ == pre.stack@.drop_last()
                            &&& post.threads@ == spec_with_tid_pc(
                                pre,
                                tid,
                                spec_jump_pc(pre, tid, pre.stack@.last(), olen),
                            )
                            &&& vpost == vpre
                            &&& r == 0
                        },
                        OpcodeKind::Yield => {
                            &&& post.spec_same_but_threads(pre)
                            &&& post.threads@ == spec_with_tid_pc(pre, tid, (pc0 + 1) as u16)
                            &&& vpost == vpre
                            &&& r == spec_action_request(ActionRequest::YieldThread, 0)
                        },
                        OpcodeKind::Jmp => {
                            &&& post.spec_same_but_threads(pre)
                            &&& post.threads@ == spec_with_tid_pc(
                                pre,
                                tid,
                                spec_jump_pc(pre, tid, spec_read_u16(script, pc1), olen),
                            )
                            &&& vpost == vpre
                            &&& r == 0
                        },
                        OpcodeKind::SetVec => {
                            let target = script[pc1] as int;
                            let addr = spec_read_u16(script, pc1 + 1);
                            if target >= NUM_THREADS {
                                spec_killed(pre, post, tid) && vpost == vpre && r == 0
                            } else {
                                &&& post.spec_same_but_threads(pre)
                                &&& post.threads@.len() == NUM_THREADS
                                &&& (forall|t: int|
                                    0 <= t < NUM_THREADS ==> post.threads@[t] == (if t == tid
                                        && t == target {
                                        Thread {
                                            pc: (pc0 + olen) as u16,
                                            next_pc: addr,
                                            ..pre.threads@[t]
                                        }
                                    } else if t == tid {
                                        Thread { pc: (pc0 + olen) as u16, ..pre.threads@[t] }
                                    } else if t == target {
                                        Thread { next_pc: addr, ..pre.threads@[t] }
                                    } else {
                                        pre.threads@[t]
                                    }))
                                &&& vpost == vpre
                                &&& r == 0
                            }
                        },
                        OpcodeKind::Jnz => {
                            let v = vstd::wrapping::i16_specs::wrapping_sub(
                                pre.registers@[script[pc1] as int],
                                1,
                            );
                            &&& post.spec_same_but_regs_and_threads(pre)
                            &&& post.registers@ == pre.registers@.update(script[pc1] as int, v)
                            &&& post.threads@ == spec_with_tid_pc(
                                pre,
                                tid,
                                if v != 0 {
                                    spec_jump_pc(pre, tid, spec_read_u16(script, pc1 + 1), olen)
                                } else {
                                    (pc0 + olen) as u16
                                },
                            )
                            &&& vpost == vpre
                            &&& r == 0
                        },
                        OpcodeKind::CondJmp => {
                            let target = spec_cond_jmp_target(pre.registers@, script, pc1);
                            &&& post.spec_same_but_threads(pre)
                            &&& post.threads@ == spec_with_tid_pc(
                                pre,
                                tid,
                                if target is Some {
                                    spec_jump_pc(pre, tid, target->Some_0, olen)
                                } else {
                                    (pc0 + olen) as u16
                                },
                            )
                            &&& vpost == vpre
                            &&& r == 0
                        },
                        OpcodeKind::SetPalette => {
                            &&& post.spec_same_but_threads(pre)
                            &&& post.threads@ == spec_with_tid_pc(pre, tid, (pc0 + olen) as u16)
                            &&& vpost == (Video {
                                next_palette_id: (spec_read_u16(script, pc1) >> 8) as u8,
                                ..vpre
                            })
                            &&& r == 0
                        },
                        OpcodeKind::ResetThreads => {
                            let first = script[pc1] as int;
                            let last = (script[pc1 + 1] & 63) as int;
                            let action = script[pc1 + 2];
                            &&& post.spec_same_but_threads(pre)
                            &&& post.threads@.len() == NUM_THREADS
                            &&& (forall|t: int|
                                0 <= t < NUM_THREADS ==> post.threads@[t] == {
                                    let staged = if first <= t <= last && action == 2 {
                                        Thread {
                                            next_pc: (INACTIVE_THREAD - 1) as u16,
                                            ..pre.threads@[t]
                                        }
                                    } else if first <= t <= last && action < 2 {
                                        Thread { next_active: action == 1, ..pre.threads@[t] }
                                    } else {
                                        pre.threads@[t]
                                    };
                                    if t == tid {
                                        Thread { pc: (pc0 + olen) as u16, ..staged }
                                    } else {
                                        staged
                                    }
                                })
                            &&& vpost == vpre
                            &&& r == 0
                        },
                        OpcodeKind::SelectVideoPage => {
                            &&& post.spec_same_but_threads(pre)
                            &&& post.threads@ == spec_with_tid_pc(pre, tid, (pc0 + olen) as u16)
                            &&& vpost == (Video {
                                backbuffer_page_idx: vpre.spec_page_idx(
                                    script[pc1 as int],
                                ) as usize,
                                ..vpre
                            })
                            &&& r == 0
                        },
                        OpcodeKind::FillVideoPage => {
                            &&& post.spec_same_but_threads(pre)
                            &&& post.threads@ == spec_with_tid_pc(pre, tid, (pc0 + olen) as u16)
                            &&& spec_fill_page_rel(vpre, vpost, script[pc1], script[pc1 + 1])
                            &&& r == 0
                        },
                        OpcodeKind::CopyVideoPage => {
                            &&& post.spec_same_but_threads(pre)
                            &&& post.threads@ == spec_with_tid_pc(pre, tid, (pc0 + olen) as u16)
                            &&& spec_copy_page_rel(
                                vpre,
                                vpost,
                                script[pc1],
                                script[pc1 + 1],
                                pre.registers@[ScriptRegs::ScrollY.spec_index() as int],
                            )
                            &&& r == 0
                        },
                        OpcodeKind::Blit => {
                            &&& post.spec_same_but_regs_and_threads(pre)
                            &&& post.registers@ == pre.registers@.update(0xf7, 0i16)
                            &&& post.threads@ == spec_with_tid_pc(pre, tid, (pc0 + olen) as u16)
                            &&& spec_blit_rel(vpre, vpost, script[pc1])
                            &&& r == spec_action_request(
                                ActionRequest::Blit,
                                (vstd::wrapping::i16_specs::wrapping_mul(
                                    pre.registers@[ScriptRegs::PauseSlices.spec_index() as int],
                                    20,
                                ) as u8),
                            )
                        },
                        OpcodeKind::Kill => spec_killed(pre, post, tid) && vpost == vpre && r
                            == 0,
                        OpcodeKind::DrawString => {
                            &&& post.spec_same_but_threads(pre)
                            &&& post.threads@ == spec_with_tid_pc(pre, tid, (pc0 + olen) as u16)
                            &&& spec_draw_confined_rel(vpre, vpost)
                            &&& spec_draw_string_rel(
                                vpre,
                                vpost,
                                spec_read_u16(script, pc1),
                                script[pc1 + 2] as i16,
                                script[pc1 + 3] as i16,
                                script[pc1 + 4],
                            )
                            &&& r == 0
                        },
                        OpcodeKind::Sound => {
                            &&& post.spec_same_but_threads(pre)
                            &&& post.threads@ == spec_with_tid_pc(pre, tid, (pc0 + olen) as u16)
                            &&& vpost == vpre
                            &&& r == spec_play_sound_action_request(
                                (spec_read_u16(script, pc1) as u8),
                                script[pc1 + 2],
                                script[pc1 + 3],
                                script[pc1 + 4],
                            )
                        },
                        OpcodeKind::LoadResource => {
                            let id = spec_read_u16(script, pc1);
                            if id > 0xff {
                                if id >= BASE_PART_ID && ((id - BASE_PART_ID) as u8)
                                    <= MAX_PART_ID {
                                    let part = (id - BASE_PART_ID) as u8;
                                    &&& post.opcodes == pre.opcodes
                                    &&& post.registers == pre.registers
                                    &&& post.active_thread == pre.active_thread
                                    &&& post.script_file_id == pre.script_file_id
                                    &&& post.palette_file_id == pre.palette_file_id
                                    &&& post.stack == pre.stack
                                    &&& post.polys1_file_id == pre.polys1_file_id
                                    &&& post.polys2_file_id == pre.polys2_file_id
                                    &&& post.direction_keys_enabled == pre.direction_keys_enabled
                                    &&& post.action_key_enabled == pre.action_key_enabled
                                    &&& post.next_part_id == part
                                    &&& post.threads@ == spec_with_tid_pc(
                                        pre,
                                        tid,
                                        (pc0 + olen) as u16,
                                    )
                                    &&& vpost == vpre
                                    &&& r == spec_action_request(ActionRequest::LoadPart, part)
                                } else {
                                    spec_killed(pre, post, tid) && vpost == vpre && r == 0
                                }
                            } else {
                                if id < rm.files@.len() {
                                    &&& post.spec_same_but_threads(pre)
                                    &&& post.threads@ == spec_with_tid_pc(
                                        pre,
                                        tid,
                                        (pc0 + olen) as u16,
                                    )
                                    &&& (rm.files@[id as int].ftype == 2 ==> {
                                        &&& vpost.spec_same_roles_and_palette(vpre)
                                        &&& vpost.pages@[0]@ == rm.files@[id as int].content@
                                        &&& (forall|j: int|
                                            1 <= j < 4 ==> vpost.pages@[j] == vpre.pages@[j])
                                    })
                                    &&& (rm.files@[id as int].ftype != 2 ==> vpost == vpre)
                                    &&& r == 0
                                } else {
                                    spec_killed(pre, post, tid) && vpost == vpre && r == 0
                                }
                            }
                        },
                        OpcodeKind::Music => {
                            &&& post.spec_same_but_threads(pre)
                            &&& post.threads@ == spec_with_tid_pc(pre, tid, (pc0 + olen) as u16)
                            &&& vpost == vpre
                            &&& r == 0
                        },
                        OpcodeKind::DrawPolyBackground => {
                            &&& post.spec_same_but_threads(pre)
                            &&& post.threads@ == spec_with_tid_pc(pre, tid, (pc0 + olen) as u16)
                            &&& spec_draw_confined_rel(vpre, vpost)
                            &&& ({
                                let args = spec_poly_background_args(script, pc1);
                                exists|dec: crate::poly::Poly|
                                    #[trigger] crate::poly::spec_decode_draw_rel(
                                        poly1,
                                        args.0 as int,
                                        args.1,
                                        args.2,
                                        0x40,
                                        0xff,
                                        dec,
                                        vpre.pages@,
                                        vpost.pages@,
                                        vpre.backbuffer_page_idx as int,
                                    )
                            })
                            &&& r == 0
                        },
                        OpcodeKind::DrawPolySpecial => {
                            &&& post.spec_same_but_threads(pre)
                            &&& post.threads@ == spec_with_tid_pc(pre, tid, (pc0 + olen) as u16)
                            &&& spec_draw_confined_rel(vpre, vpost)
                            &&& r == 0
                        },
                        OpcodeKind::Invalid => spec_killed(pre, post, tid) && vpost == vpre && r
                            == 0,
                    }
                }
            },
        }
    }
}


/// The first runnable slot is the one a left-to-right scan stops at.
proof fn lemma_scan_from_first(threads: Seq<Thread>, start: int, sel: int)
    requires
        0 <= start <= sel < NUM_THREADS,
        spec_runnable(threads[sel]),
        forall|k: int| start <= k < sel ==> !spec_runnable(threads[k]),
    ensures
        spec_scan_from(threads, start) == Some(sel),
    decreases sel - start,
{
    if start < sel {
        lemma_scan_from_first(threads, start + 1, sel);
    }
}

/// A scan over nothing runnable finds nothing.
proof fn lemma_scan_from_none(threads: Seq<Thread>, start: int)
    requires
        0 <= start,
        forall|k: int| start <= k < NUM_THREADS ==> !spec_runnable(threads[k]),
    ensures
        spec_scan_from(threads, start) is None,
    decreases NUM_THREADS - start,
{
    if start < NUM_THREADS {
        lemma_scan_from_none(threads, start + 1);
    }
}

/// What the round-robin does after the executed thread yields or dies: scan
/// onward from the next slot; when the scan wraps past slot 0, project the
/// latched input into the hero registers and commit every thread's staged
/// state, then pick the first runnable thread of the new round, or leave the
/// scheduler where it was when none exists.
pub open spec fn spec_sched_rel(pre: VirtualMachine, post: VirtualMachine) -> bool {
    let start = ((pre.active_thread + 1) as int) % (NUM_THREADS as int);
    if start != 0 && spec_scan_from(pre.threads@, start) is Some {
        post == (VirtualMachine {
            active_thread: spec_scan_from(pre.threads@, start)->Some_0 as u8,
            ..pre
        })
    } else {
        let committed = Seq::new(
            NUM_THREADS as nat,
            |i: int| spec_commit_thread(pre.threads@[i]),
        );
        &&& post.registers@ == spec_input_regs(
            pre.registers@,
            pre.direction_keys_enabled,
            pre.action_key_enabled,
        )
        &&& post.threads@ == committed
        &&& post.active_thread == (match spec_scan_from(committed, 0) {
            Some(i) => i as u8,
            None => pre.active_thread,
        })
        &&& post.opcodes == pre.opcodes
        &&& post.script_file_id == pre.script_file_id
        &&& post.palette_file_id == pre.palette_file_id
        &&& post.polys1_file_id == pre.polys1_file_id
        &&& post.polys2_file_id == pre.polys2_file_id
        &&& post.next_part_id == pre.next_part_id
        &&& post.stack == pre.stack
        &&& post.direction_keys_enabled == pre.direction_keys_enabled
        &&& post.action_key_enabled == pre.action_key_enabled
    }
}

/// A pending part switch is consumed before anything else runs: the part's
/// resources are bound, registers below 64 reset, threads reset with thread
/// 0 at address 0, and the staged id cleared. With nothing pending the
/// machine is untouched.
pub open spec fn spec_part_consumed(pre: VirtualMachine, post: VirtualMachine) -> bool {
    if pre.next_part_id == 0 {
        post == pre
    } else {
        let part = pre.next_part_id;
        &&& post.script_file_id == spec_part_files(part).0
        &&& post.polys1_file_id == spec_part_files(part).1
        &&& post.polys2_file_id == spec_part_files(part).2
        &&& post.palette_file_id == spec_part_files(part).3
        &&& post.registers@.len() == NUM_REGISTERS
        &&& (forall|i: int|
            0 <= i < NUM_REGISTERS ==> post.registers@[i] == spec_part_load_reg(
                pre.registers@,
                i,
            ))
        &&& post.threads@.len() == NUM_THREADS
        &&& (forall|t: int|
            1 <= t < NUM_THREADS ==> post.threads@[t] == (Thread {
                pc: INACTIVE_THREAD,
                next_pc: INACTIVE_THREAD,
                active: false,
                next_active: false,
            }))
        &&& post.threads@[0] == (Thread {
            pc: 0,
            next_pc: INACTIVE_THREAD,
            active: false,
            next_active: false,
        })
        &&& post.active_thread == 0
        &&& post.next_part_id == 0
        &&& post.stack == pre.stack
        &&& post.opcodes == pre.opcodes
        &&& post.direction_keys_enabled == pre.direction_keys_enabled
        &&& post.action_key_enabled == pre.action_key_enabled
    }
}


/// The operands of the simple polygon draw, decoded from the script: the
/// doubled table offset from the opcode byte's low bits and the next byte,
/// and the immediate position with a y beyond the visible height folded into
/// x.
pub open spec fn spec_poly_background_args(script: Seq<u8>, pc: int) -> (u16, i16, i16) {
    let off = vstd::wrapping::u16_specs::wrapping_mul(
        (((script[pc - 1] as u16) << 8) | (script[pc] as u16)),
        2,
    );
    let rx = script[pc + 1] as i16;
    let ry = script[pc + 2] as i16;
    if ry > 199 {
        (off, ((rx + (ry - 199)) as i16), 199i16)
    } else {
        (off, rx, ry)
    }
}


/// The operands of the extended polygon draw: the doubled table offset,
/// then x, y and zoom from immediates (8- or 16-bit) or registers as the
/// opcode byte's mode bits say, and whether the secondary polygon table is
/// read (which also forces the no-scale zoom). A zoom byte that the mode
/// ignores may sit past the script's end and reads as zero.
pub open spec fn spec_poly_special_args(script: Seq<u8>, pc: int, regs: Seq<i16>) -> (
    u16,
    i16,
    i16,
    i16,
    bool,
) {
    let b = script[pc - 1];
    let off = vstd::wrapping::u16_specs::wrapping_mul(spec_read_u16(script, pc), 2);
    let x0 = script[pc + 2] as i16;
    let x = if b & 0x20 == 0 {
        if b & 0x10 == 0 {
            ((((x0 as u16) << 8) | (script[pc + 3] as u16)) as i16)
        } else {
            regs[x0 as int]
        }
    } else if b & 0x10 != 0 {
        (x0 + 0x100) as i16
    } else {
        x0
    };
    let px = if b & 0x20 == 0 && b & 0x10 == 0 {
        pc + 4
    } else {
        pc + 3
    };
    let y0 = script[px] as i16;
    let y = if b & 8 == 0 {
        if b & 4 == 0 {
            ((((y0 as u16) << 8) | (script[px + 1] as u16)) as i16)
        } else {
            regs[y0 as int]
        }
    } else {
        y0
    };
    let py = if b & 8 == 0 && b & 4 == 0 {
        px + 2
    } else {
        px + 1
    };
    let zb: i16 = if py < script.len() {
        script[py] as i16
    } else {
        0
    };
    if b & 2 == 0 {
        if b & 1 == 0 {
            (off, x, y, 0x40i16, false)
        } else {
            (off, x, y, regs[zb as int], false)
        }
    } else if b & 1 != 0 {
        (off, x, y, 0x40i16, true)
    } else {
        (off, x, y, zb, false)
    }
}

impl VirtualMachine {
    /// The fixed sizes of the machine model, a decoded instruction table,
    /// in-range part state, and resource bindings that stay inside the fixed
    /// part-binding range.
    pub open spec fn wf(self) -> bool {
        &&& self.registers@.len() == NUM_REGISTERS
        &&& self.threads@.len() == NUM_THREADS
        &&& self.active_thread < NUM_THREADS
        &&& self.opcodes.wf()
        &&& self.next_part_id <= MAX_PART_ID
        &&& self.script_file_id <= 0x28
        &&& self.palette_file_id <= 0x28
        &&& self.polys1_file_id <= 0x28
        &&& self.polys2_file_id <= 0x28
    }

    /// Everything but the register bank is unchanged.
    pub open spec fn spec_same_but_regs(self, other: VirtualMachine) -> bool {
        &&& self.opcodes == other.opcodes
        &&& self.threads == other.threads
        &&& self.active_thread == other.active_thread
        &&& self.script_file_id == other.script_file_id
        &&& self.palette_file_id == other.palette_file_id
        &&& self.next_part_id == other.next_part_id
        &&& self.stack == other.stack
        &&& self.polys1_file_id == other.polys1_file_id
        &&& self.polys2_file_id == other.polys2_file_id
        &&& self.direction_keys_enabled == other.direction_keys_enabled
        &&& self.action_key_enabled == other.action_key_enabled
    }

    /// Everything but the thread pool is unchanged.
    pub open spec fn spec_same_but_threads(self, other: VirtualMachine) -> bool {
        &&& self.opcodes == other.opcodes
        &&& self.registers == other.registers
        &&& self.active_thread == other.active_thread
        &&& self.script_file_id == other.script_file_id
        &&& self.palette_file_id == other.palette_file_id
        &&& self.next_part_id == other.next_part_id
        &&& self.stack == other.stack
        &&& self.polys1_file_id == other.polys1_file_id
        &&& self.polys2_file_id == other.polys2_file_id
        &&& self.direction_keys_enabled == other.direction_keys_enabled
        &&& self.action_key_enabled == other.action_key_enabled
    }

    /// Everything but the thread pool and the register bank is unchanged.
    pub open spec fn spec_same_but_regs_and_threads(self, other: VirtualMachine) -> bool {
        &&& self.opcodes == other.opcodes
        &&& self.active_thread == other.active_thread
        &&& self.script_file_id == other.script_file_id
        &&& self.palette_file_id == other.palette_file_id
        &&& self.next_part_id == other.next_part_id
        &&& self.stack == other.stack
        &&& self.polys1_file_id == other.polys1_file_id
        &&& self.polys2_file_id == other.polys2_file_id
        &&& self.direction_keys_enabled == other.direction_keys_enabled
        &&& self.action_key_enabled == other.action_key_enabled
    }

    /// Everything but the thread pool and the call stack is unchanged.
    pub open spec fn spec_same_but_threads_and_stack(self, other: VirtualMachine) -> bool {
        &&& self.opcodes == other.opcodes
        &&& self.registers == other.registers
        &&& self.active_thread == other.active_thread
        &&& self.script_file_id == other.script_file_id
        &&& self.palette_file_id == other.palette_file_id
        &&& self.next_part_id == other.next_part_id
        &&& self.polys1_file_id == other.polys1_file_id
        &&& self.polys2_file_id == other.polys2_file_id
        &&& self.direction_keys_enabled == other.direction_keys_enabled
        &&& self.action_key_enabled == other.action_key_enabled
    }

    pub fn new() -> (r: VirtualMachine)
        ensures
            r.wf(),
            forall|i: int| 0 <= i < NUM_REGISTERS ==> r.registers@[i] == 0,
            forall|t: int|
                0 <= t < NUM_THREADS ==> r.threads@[t] == (Thread {
                    pc: 0,
                    next_pc: 0,
                    active: false,
                    next_active: false,
                }),
            r.active_thread == 0,
            r.script_file_id == 0,
            r.palette_file_id == 0,
            r.polys1_file_id == 0,
            r.polys2_file_id == 0,
            r.next_part_id == 0,
            r.stack@.len() == 0,
            r.direction_keys_enabled == 0,
            r.action_key_enabled == false,
    {
        let mut threads: Vec<Thread> = Vec::new();
        let mut t: usize = 0;
        while t < NUM_THREADS
            invariant
                threads@.len() == t,
                t <= NUM_THREADS,
                forall|k: int|
                    0 <= k < t ==> threads@[k] == (Thread {
                        pc: 0,
                        next_pc: 0,
                        active: false,
                        next_active: false,
                    }),
            decreases NUM_THREADS - t,
        {
            threads.push(Thread::new());
            t = t + 1;
        }

        let mut registers: Vec<i16> = Vec::new();
        let mut i: usize = 0;
        while i < NUM_REGISTERS
            invariant
                registers@.len() == i,
                i <= NUM_REGISTERS,
                forall|k: int| 0 <= k < i ==> registers@[k] == 0,
            decreases NUM_REGISTERS - i,
        {
            registers.push(0);
            i = i + 1;
        }

        VirtualMachine {
            registers,
            threads,
            opcodes: Opcodes::new(),
            active_thread: 0,
            stack: Vec::new(),
            script_file_id: 0,
            polys1_file_id: 0,
            polys2_file_id: 0,
            palette_file_id: 0,
            next_part_id: 0,
            direction_keys_enabled: 0,
            action_key_enabled: false,
        }
    }

    /// Seeds the random-number register.
    pub fn init(&mut self)
        requires
            old(self).wf(),
        ensures
            final(self).wf(),
            final(self).spec_same_but_regs(*old(self)),
            final(self).registers@ == old(self).registers@.update(
                ScriptRegs::RandomSeed.spec_index() as int,
                0i16,
            ),
    {
        let idx = ScriptRegs::RandomSeed.index();
        self.registers[idx as usize] = 0;
    }

    /// Binds a part's script, polygon and palette resources, zeroes the
    /// registers below index 64, resets every thread, and starts thread 0 at
    /// address 0. Register `0xe4` is pre-seeded as every part expects.
    pub fn load_part(&mut self, part: u8)
        requires
            old(self).wf(),
            part <= MAX_PART_ID,
        ensures
            final(self).wf(),
            final(self).script_file_id == spec_part_files(part).0,
            final(self).polys1_file_id == spec_part_files(part).1,
            final(self).polys2_file_id == spec_part_files(part).2,
            final(self).palette_file_id == spec_part_files(part).3,
            final(self).registers@.len() == NUM_REGISTERS,
            forall|i: int|
                0 <= i < NUM_REGISTERS ==> final(self).registers@[i] == spec_part_load_reg(
                    old(self).registers@,
                    i,
                ),
            forall|t: int|
                1 <= t < NUM_THREADS ==> final(self).threads@[t] == (Thread {
                    pc: INACTIVE_THREAD,
                    next_pc: INACTIVE_THREAD,
                    active: false,
                    next_active: false,
                }),
            final(self).threads@[0] == (Thread {
                pc: 0,
                next_pc: INACTIVE_THREAD,
                active: false,
                next_active: false,
            }),
            final(self).active_thread == 0,
            final(self).stack == old(self).stack,
            final(self).next_part_id == old(self).next_part_id,
            final(self).direction_keys_enabled == old(self).direction_keys_enabled,
            final(self).action_key_enabled == old(self).action_key_enabled,
            final(self).opcodes == old(self).opcodes,
    {
        if part == 0 {
            // The protection screen.
            self.script_file_id = 0x15;
            self.polys1_file_id = 0x16;
            self.polys2_file_id = 0x0;
            self.palette_file_id = 0x14;
        } else if part == 1 {
            // The introduction.
            self.script_file_id = 0x18;
            self.polys1_file_id = 0x19;
            self.polys2_file_id = 0x0;
            self.palette_file_id = 0x17;
        } else if part == 2 {
            self.script_file_id = 0x1b;
            self.polys1_file_id = 0x1c;
            self.polys2_file_id = 0x11;
            self.palette_file_id = 0x1a;
        } else if part == 3 {
            self.script_file_id = 0x1e;
            self.polys1_file_id = 0x1f;
            self.polys2_file_id = 0x11;
            self.palette_file_id = 0x1d;
        } else if part == 4 {
            self.script_file_id = 0x21;
            self.polys1_file_id = 0x22;
            self.polys2_file_id = 0x11;
            self.palette_file_id = 0x20;
        } else if part == 5 {
            self.script_file_id = 0x24;
            self.polys1_file_id = 0x25;
            self.polys2_file_id = 0x0;
            self.palette_file_id = 0x23;
        } else {
            self.script_file_id = 0x27;
            self.polys1_file_id = 0x28;
            self.polys2_file_id = 0x11;
            self.palette_file_id = 0x26;
        }

        let mut z: usize = 0;
        while z < 64
            invariant
                self.registers@.len() == NUM_REGISTERS,
                z <= 64,
                forall|k: int| 0 <= k < z ==> self.registers@[k] == 0,
                forall|k: int|
                    z <= k < NUM_REGISTERS ==> self.registers@[k] == old(self).registers@[k],
                self.threads == old(self).threads,
                self.stack == old(self).stack,
                self.opcodes == old(self).opcodes,
                old(self).opcodes.wf(),
                self.active_thread == old(self).active_thread,
                old(self).active_thread < NUM_THREADS,
                self.next_part_id == old(self).next_part_id,
                old(self).next_part_id <= MAX_PART_ID,
                self.direction_keys_enabled == old(self).direction_keys_enabled,
                self.action_key_enabled == old(self).action_key_enabled,
                self.script_file_id == spec_part_files(part).0,
                self.polys1_file_id == spec_part_files(part).1,
                self.polys2_file_id == spec_part_files(part).2,
                self.palette_file_id == spec_part_files(part).3,
            decreases 64 - z,
        {
            self.registers[z] = 0;
            z = z + 1;
        }
        self.registers[0xe4] = 0x14;

        let mut t: usize = 0;
        while t < NUM_THREADS
            invariant
                self.threads@.len() == NUM_THREADS,
                t <= NUM_THREADS,
                forall|k: int|
                    0 <= k < t ==> self.threads@[k] == (Thread {
                        pc: INACTIVE_THREAD,
                        next_pc: INACTIVE_THREAD,
                        active: false,
                        next_active: false,
                    }),
                forall|i: int|
                    0 <= i < NUM_REGISTERS ==> self.registers@[i] == spec_part_load_reg(
                        old(self).registers@,
                        i,
                    ),
                self.registers@.len() == NUM_REGISTERS,
                self.stack == old(self).stack,
                self.opcodes == old(self).opcodes,
                old(self).opcodes.wf(),
                self.active_thread == old(self).active_thread,
                old(self).active_thread < NUM_THREADS,
                self.next_part_id == old(self).next_part_id,
                old(self).next_part_id <= MAX_PART_ID,
                self.direction_keys_enabled == old(self).direction_keys_enabled,
                self.action_key_enabled == old(self).action_key_enabled,
                self.script_file_id == spec_part_files(part).0,
                self.polys1_file_id == spec_part_files(part).1,
                self.polys2_file_id == spec_part_files(part).2,
                self.palette_file_id == spec_part_files(part).3,
            decreases NUM_THREADS - t,
        {
            self.threads[t] = Thread {
                pc: INACTIVE_THREAD,
                next_pc: INACTIVE_THREAD,
                active: false,
                next_active: false,
            };
            t = t + 1;
        }

        self.threads[0] = Thread {
            pc: 0,
            next_pc: INACTIVE_THREAD,
            active: false,
            next_active: false,
        };
        self.active_thread = 0;
    }

    /// Zeroes registers 0 to 63, applies the level's seed pairs, and loads
    /// the level's part.
    pub fn restart_level(&mut self, level: u8)
        requires
            old(self).wf(),
        ensures
            final(self).wf(),
            final(self).registers@.len() == NUM_REGISTERS,
            forall|i: int|
                0 <= i < NUM_REGISTERS ==> final(self).registers@[i] == spec_restart_reg(
                    old(self).registers@,
                    level,
                    i,
                ),
            final(self).script_file_id == spec_part_files(spec_level_part(level)).0,
            final(self).polys1_file_id == spec_part_files(spec_level_part(level)).1,
            final(self).polys2_file_id == spec_part_files(spec_level_part(level)).2,
            final(self).palette_file_id == spec_part_files(spec_level_part(level)).3,
            forall|t: int|
                1 <= t < NUM_THREADS ==> final(self).threads@[t] == (Thread {
                    pc: INACTIVE_THREAD,
                    next_pc: INACTIVE_THREAD,
                    active: false,
                    next_active: false,
                }),
            final(self).threads@[0] == (Thread {
                pc: 0,
                next_pc: INACTIVE_THREAD,
                active: false,
                next_active: false,
            }),
            final(self).active_thread == 0,
            final(self).stack == old(self).stack,
            final(self).next_part_id == old(self).next_part_id,
    {
        let mut i: usize = 0;
        while i < 64
            invariant
                self.registers@.len() == NUM_REGISTERS,
                i <= 64,
                forall|k: int| 0 <= k < i ==> self.registers@[k] == 0,
                forall|k: int| i <= k < NUM_REGISTERS ==> self.registers@[k] == old(
                    self,
                ).registers@[k],
                self.spec_same_but_regs(*old(self)),
                old(self).wf(),
            decreases 64 - i,
        {
            self.registers[i] = 0;
            i = i + 1;
        }

        let part: u8;
        if level == 0 {
            // The introduction; also seeds the access-check registers the
            // opening screens read.
            self.registers[0xbc] = 0x10;
            self.registers[0xc6] = 0x80;
            self.registers[0xdc] = 33;
            self.registers[0xf2] = 4000;
            part = 1;
        } else if level == 1 {
            part = 2;
        } else if level == 2 {
            part = 3;
        } else if level <= 11 {
            part = 4;
        } else if level == 12 || level == 13 {
            part = 6;
        } else if level == 14 {
            part = 5;
        } else if level == 15 {
            part = 6;
        } else {
            part = 0;
        }

        self.load_part(part);
    }

    /// Stages a deferred part switch, consumed at the start of the next
    /// step; part 0 stands for no pending switch.
    pub fn set_next_part_to_load(&mut self, part: u8)
        requires
            old(self).wf(),
            part <= MAX_PART_ID,
        ensures
            final(self).wf(),
            *final(self) == (VirtualMachine { next_part_id: part, ..*old(self) }),
    {
        self.next_part_id = part;
    }

    /// Latches a key press: a direction bit is or-ed into the direction set,
    /// the action key sets its flag. Other values are ignored.
    pub fn on_key_down(&mut self, key: u8)
        ensures
            1 <= key <= 8 ==> *final(self) == (VirtualMachine {
                direction_keys_enabled: old(self).direction_keys_enabled | key,
                ..*old(self)
            }),
            key == 16 ==> *final(self) == (VirtualMachine {
                action_key_enabled: true,
                ..*old(self)
            }),
            !(1 <= key <= 8) && key != 16 ==> *final(self) == *old(self),
    {
        if key >= Keys::Up.bit() && key <= Keys::Left.bit() {
            self.direction_keys_enabled = self.direction_keys_enabled | key;
        } else if key == Keys::Action.bit() {
            self.action_key_enabled = true;
        }
    }

    /// Latches a key release, clearing what the press set.
    pub fn on_key_up(&mut self, key: u8)
        ensures
            1 <= key <= 8 ==> *final(self) == (VirtualMachine {
                direction_keys_enabled: old(self).direction_keys_enabled & !key,
                ..*old(self)
            }),
            key == 16 ==> *final(self) == (VirtualMachine {
                action_key_enabled: false,
                ..*old(self)
            }),
            !(1 <= key <= 8) && key != 16 ==> *final(self) == *old(self),
    {
        if key >= Keys::Up.bit() && key <= Keys::Left.bit() {
            self.direction_keys_enabled = self.direction_keys_enabled & !key;
        } else if key == Keys::Action.bit() {
            self.action_key_enabled = false;
        }
    }

    /// Pushes a return address.
    pub fn stack_push(&mut self, value: u16)
        ensures
            *final(self) == (VirtualMachine { stack: final(self).stack, ..*old(self) }),
            final(self).stack@ == old(self).stack@.push(value),
    {
        self.stack.push(value);
    }

    /// Pops the most recent return address.
    pub fn stack_pop(&mut self) -> (r: u16)
        requires
            old(self).stack@.len() > 0,
        ensures
            *final(self) == (VirtualMachine { stack: final(self).stack, ..*old(self) }),
            final(self).stack@ == old(self).stack@.drop_last(),
            r == old(self).stack@.last(),
    {
        let r = self.stack.pop().unwrap();
        r
    }

    /// The program counter of the thread the round-robin currently runs.
    pub fn get_current_pc(&self) -> (r: u16)
        requires
            self.wf(),
        ensures
            r == self.threads@[self.active_thread as int].pc,
    {
        self.threads[self.active_thread as usize].pc
    }

    /// Projects the latched keys into the hero-movement registers, once per
    /// full thread round: the horizontal and vertical deltas, the direction
    /// mask, and the action register plus the combined action-and-mask
    /// register.
    pub fn process_input(&mut self)
        requires
            old(self).wf(),
        ensures
            final(self).wf(),
            final(self).spec_same_but_regs(*old(self)),
            final(self).registers@ == spec_input_regs(
                old(self).registers@,
                old(self).direction_keys_enabled,
                old(self).action_key_enabled,
            ),
    {
        let mut left_right: i16 = 0;
        let mut up_down: i16 = 0;
        let mut mask: i16 = 0;

        if self.direction_keys_enabled & 2 != 0 {
            left_right = 1;
            mask = mask | 1;
        }
        if self.direction_keys_enabled & 8 != 0 {
            left_right = -1;
            mask = mask | 2;
        }
        if self.direction_keys_enabled & 4 != 0 {
            up_down = 1;
            mask = mask | 4;
        }
        if self.direction_keys_enabled & 1 != 0 {
            up_down = -1;
            mask = mask | 8;
        }

        proof {
            assert(1i16 | 2 == 3 && 1i16 | 4 == 5 && 1i16 | 8 == 9 && 2i16 | 4 == 6 && 2i16 | 8
                == 10 && 4i16 | 8 == 12 && 3i16 | 4 == 7 && 3i16 | 8 == 11 && 5i16 | 8 == 13
                && 6i16 | 8 == 14 && 7i16 | 8 == 15 && 0i16 | 1 == 1 && 0i16 | 2 == 2 && 0i16 | 4
                == 4 && 0i16 | 8 == 8) by (bit_vector);
            assert(forall|x: i16| #![auto] x | 0 == x && 0 | x == x) by (bit_vector);
        }

        self.registers[0xfc] = left_right;
        self.registers[0xe5] = up_down;
        self.registers[0xfb] = up_down;
        self.registers[0xfd] = mask;

        if self.action_key_enabled {
            self.registers[0xfa] = 1;
            self.registers[0xfe] = mask | 0x80;
        } else {
            self.registers[0xfa] = 0;
            self.registers[0xfe] = mask;
        }
    }

    /// Moves an immediate 16-bit value into a register.
    pub fn exec_mov_imm(&mut self, thread_id: u8, script: &[u8])
        requires
            old(self).wf(),
            thread_id < NUM_THREADS,
            script@.len() <= u16::MAX,
            old(self).threads@[thread_id as int].pc + 3 <= script@.len(),
        ensures
            final(self).wf(),
            final(self).spec_same_but_regs(*old(self)),
            ({
                let pc = old(self).threads@[thread_id as int].pc as int;
                final(self).registers@ == old(self).registers@.update(
                    script@[pc] as int,
                    spec_read_i16(script@, pc + 1),
                )
            }),
    {
        let pc = self.threads[thread_id as usize].pc;
        let dst_reg_id = read_u8(script, pc);
        let v = read_i16(script, pc + 1);
        self.registers[dst_reg_id as usize] = v;
    }

    /// Copies a register into a register.
    pub fn exec_mov(&mut self, thread_id: u8, script: &[u8])
        requires
            old(self).wf(),
            thread_id < NUM_THREADS,
            script@.len() <= u16::MAX,
            old(self).threads@[thread_id as int].pc + 2 <= script@.len(),
        ensures
            final(self).wf(),
            final(self).spec_same_but_regs(*old(self)),
            ({
                let pc = old(self).threads@[thread_id as int].pc as int;
                final(self).registers@ == old(self).registers@.update(
                    script@[pc] as int,
                    old(self).registers@[script@[pc + 1] as int],
                )
            }),
    {
        let pc = self.threads[thread_id as usize].pc;
        let dst_reg_id = read_u8(script, pc);
        let src_reg_id = read_u8(script, pc + 1);
        let v = self.registers[src_reg_id as usize];
        self.registers[dst_reg_id as usize] = v;
    }

    /// Adds a register into a register, wrapping at 16 bits.
    pub fn exec_add(&mut self, thread_id: u8, script: &[u8])
        requires
            old(self).wf(),
            thread_id < NUM_THREADS,
            script@.len() <= u16::MAX,
            old(self).threads@[thread_id as int].pc + 2 <= script@.len(),
        ensures
            final(self).wf(),
            final(self).spec_same_but_regs(*old(self)),
            ({
                let pc = old(self).threads@[thread_id as int].pc as int;
                final(self).registers@ == old(self).registers@.update(
                    script@[pc] as int,
                    vstd::wrapping::i16_specs::wrapping_add(
                        old(self).registers@[script@[pc] as int],
                        old(self).registers@[script@[pc + 1] as int],
                    ),
                )
            }),
    {
        let pc = self.threads[thread_id as usize].pc;
        let dst_reg_id = read_u8(script, pc);
        let src_reg_id = read_u8(script, pc + 1);
        let v = self.registers[dst_reg_id as usize].wrapping_add(
            self.registers[src_reg_id as usize],
        );
        self.registers[dst_reg_id as usize] = v;
    }

    /// Adds an immediate into a register, wrapping at 16 bits.
    pub fn exec_add_imm(&mut self, thread_id: u8, script: &[u8])
        requires
            old(self).wf(),
            thread_id < NUM_THREADS,
            script@.len() <= u16::MAX,
            old(self).threads@[thread_id as int].pc + 3 <= script@.len(),
        ensures
            final(self).wf(),
            final(self).spec_same_but_regs(*old(self)),
            ({
                let pc = old(self).threads@[thread_id as int].pc as int;
                final(self).registers@ == old(self).registers@.update(
                    script@[pc] as int,
                    vstd::wrapping::i16_specs::wrapping_add(
                        old(self).registers@[script@[pc] as int],
                        spec_read_i16(script@, pc + 1),
                    ),
                )
            }),
    {
        let pc = self.threads[thread_id as usize].pc;
        let reg_id = read_u8(script, pc);
        let imm = read_i16(script, pc + 1);
        let v = self.registers[reg_id as usize].wrapping_add(imm);
        self.registers[reg_id as usize] = v;
    }

    /// Subtracts a register from a register, wrapping at 16 bits.
    pub fn exec_sub(&mut self, thread_id: u8, script: &[u8])
        requires
            old(self).wf(),
            thread_id < NUM_THREADS,
            script@.len() <= u16::MAX,
            old(self).threads@[thread_id as int].pc + 2 <= script@.len(),
        ensures
            final(self).wf(),
            final(self).spec_same_but_regs(*old(self)),
            ({
                let pc = old(self).threads@[thread_id as int].pc as int;
                final(self).registers@ == old(self).registers@.update(
                    script@[pc] as int,
                    vstd::wrapping::i16_specs::wrapping_sub(
                        old(self).registers@[script@[pc] as int],
                        old(self).registers@[script@[pc + 1] as int],
                    ),
                )
            }),
    {
        let pc = self.threads[thread_id as usize].pc;
        let dst_reg_id = read_u8(script, pc);
        let src_reg_id = read_u8(script, pc + 1);
        let v = self.registers[dst_reg_id as usize].wrapping_sub(
            self.registers[src_reg_id as usize],
        );
        self.registers[dst_reg_id as usize] = v;
    }

    /// Bitwise and of a register with an immediate, on the unsigned bit
    /// pattern.
    pub fn exec_and(&mut self, thread_id: u8, script: &[u8])
        requires
            old(self).wf(),
            thread_id < NUM_THREADS,
            script@.len() <= u16::MAX,
            old(self).threads@[thread_id as int].pc + 3 <= script@.len(),
        ensures
            final(self).wf(),
            final(self).spec_same_but_regs(*old(self)),
            ({
                let pc = old(self).threads@[thread_id as int].pc as int;
                final(self).registers@ == old(self).registers@.update(
                    script@[pc] as int,
                    (((old(self).registers@[script@[pc] as int] as u16) & spec_read_u16(
                        script@,
                        pc + 1,
                    )) as i16),
                )
            }),
    {
        let pc = self.threads[thread_id as usize].pc;
        let reg_id = read_u8(script, pc);
        let value = read_u16(script, pc + 1);
        let u = #[verifier::truncate] (self.registers[reg_id as usize] as u16);
        self.registers[reg_id as usize] = #[verifier::truncate] ((u & value) as i16);
    }

    /// Bitwise or of a register with an immediate.
    pub fn exec_or(&mut self, thread_id: u8, script: &[u8])
        requires
            old(self).wf(),
            thread_id < NUM_THREADS,
            script@.len() <= u16::MAX,
            old(self).threads@[thread_id as int].pc + 3 <= script@.len(),
        ensures
            final(self).wf(),
            final(self).spec_same_but_regs(*old(self)),
            ({
                let pc = old(self).threads@[thread_id as int].pc as int;
                final(self).registers@ == old(self).registers@.update(
                    script@[pc] as int,
                    (((old(self).registers@[script@[pc] as int] as u16) | spec_read_u16(
                        script@,
                        pc + 1,
                    )) as i16),
                )
            }),
    {
        let pc = self.threads[thread_id as usize].pc;
        let reg_id = read_u8(script, pc);
        let value = read_u16(script, pc + 1);
        let u = #[verifier::truncate] (self.registers[reg_id as usize] as u16);
        self.registers[reg_id as usize] = #[verifier::truncate] ((u | value) as i16);
    }

    /// Shifts a register left; the amount is taken modulo 16, as the
    /// hardware shifter does.
    pub fn exec_shl(&mut self, thread_id: u8, script: &[u8])
        requires
            old(self).wf(),
            thread_id < NUM_THREADS,
            script@.len() <= u16::MAX,
            old(self).threads@[thread_id as int].pc + 3 <= script@.len(),
        ensures
            final(self).wf(),
            final(self).spec_same_but_regs(*old(self)),
            ({
                let pc = old(self).threads@[thread_id as int].pc as int;
                final(self).registers@ == old(self).registers@.update(
                    script@[pc] as int,
                    (((old(self).registers@[script@[pc] as int] as u16) << ((spec_read_u16(
                        script@,
                        pc + 1,
                    ) & 15) as u32)) as i16),
                )
            }),
    {
        let pc = self.threads[thread_id as usize].pc;
        let reg_id = read_u8(script, pc);
        let value = read_u16(script, pc + 1);
        let sh = (value & 15) as u32;
        proof {
            assert(value & 15 < 16) by (bit_vector);
        }
        let u = #[verifier::truncate] (self.registers[reg_id as usize] as u16);
        self.registers[reg_id as usize] = #[verifier::truncate] ((u << sh) as i16);
    }

    /// Shifts a register right logically; the amount is taken modulo 16.
    pub fn exec_shr(&mut self, thread_id: u8, script: &[u8])
        requires
            old(self).wf(),
            thread_id < NUM_THREADS,
            script@.len() <= u16::MAX,
            old(self).threads@[thread_id as int].pc + 3 <= script@.len(),
        ensures
            final(self).wf(),
            final(self).spec_same_but_regs(*old(self)),
            ({
                let pc = old(self).threads@[thread_id as int].pc as int;
                final(self).registers@ == old(self).registers@.update(
                    script@[pc] as int,
                    (((old(self).registers@[script@[pc] as int] as u16) >> ((spec_read_u16(
                        script@,
                        pc + 1,
                    ) & 15) as u32)) as i16),
                )
            }),
    {
        let pc = self.threads[thread_id as usize].pc;
        let reg_id = read_u8(script, pc);
        let value = read_u16(script, pc + 1);
        let sh = (value & 15) as u32;
        proof {
            assert(value & 15 < 16) by (bit_vector);
        }
        let u = #[verifier::truncate] (self.registers[reg_id as usize] as u16);
        self.registers[reg_id as usize] = #[verifier::truncate] ((u >> sh) as i16);
    }

    /// Pushes the return address and jumps.
    pub fn exec_call(&mut self, thread_id: u8, script: &[u8])
        requires
            old(self).wf(),
            thread_id < NUM_THREADS,
            script@.len() <= u16::MAX,
            old(self).threads@[thread_id as int].pc + 2 <= script@.len(),
        ensures
            final(self).wf(),
            final(self).spec_same_but_threads_and_stack(*old(self)),
            ({
                let pc = old(self).threads@[thread_id as int].pc;
                &&& final(self).stack@ == old(self).stack@.push((pc + 2) as u16)
                &&& final(self).threads@ == old(self).threads@.update(
                    thread_id as int,
                    Thread {
                        pc: spec_read_u16(script@, pc as int),
                        ..old(self).threads@[thread_id as int]
                    },
                )
            }),
    {
        let pc = self.threads[thread_id as usize].pc;
        let addr = read_u16(script, pc);
        self.stack.push(pc + 2);
        self.threads[thread_id as usize].pc = addr;
    }

    /// Pops the return address and jumps back; a return with an empty stack
    /// is a script fault and changes nothing here.
    pub fn exec_ret(&mut self, thread_id: u8) -> (r: bool)
        requires
            old(self).wf(),
            thread_id < NUM_THREADS,
        ensures
            final(self).wf(),
            r == (old(self).stack@.len() > 0),
            !r ==> *final(self) == *old(self),
            r ==> final(self).spec_same_but_threads_and_stack(*old(self)),
            r ==> final(self).stack@ == old(self).stack@.drop_last(),
            r ==> final(self).threads@ == old(self).threads@.update(
                thread_id as int,
                Thread { pc: old(self).stack@.last(), ..old(self).threads@[thread_id as int] },
            ),
    {
        if self.stack.len() == 0 {
            return false;
        }
        let addr = self.stack.pop().unwrap();
        self.threads[thread_id as usize].pc = addr;
        true
    }

    /// Unconditional jump.
    pub fn exec_jmp(&mut self, thread_id: u8, script: &[u8])
        requires
            old(self).wf(),
            thread_id < NUM_THREADS,
            script@.len() <= u16::MAX,
            old(self).threads@[thread_id as int].pc + 2 <= script@.len(),
        ensures
            final(self).wf(),
            final(self).spec_same_but_threads(*old(self)),
            final(self).threads@ == old(self).threads@.update(
                thread_id as int,
                Thread {
                    pc: spec_read_u16(script@, old(self).threads@[thread_id as int].pc as int),
                    ..old(self).threads@[thread_id as int]
                },
            ),
    {
        let pc = self.threads[thread_id as usize].pc;
        let addr = read_u16(script, pc);
        self.threads[thread_id as usize].pc = addr;
    }

    /// Stages another thread's program counter for the next round. The
    /// target's current execution point and activity are untouched, so the
    /// change cannot affect the round in which it was requested. An
    /// out-of-range thread id is a script fault and changes nothing.
    pub fn exec_set_vec(&mut self, thread_id: u8, script: &[u8]) -> (r: bool)
        requires
            old(self).wf(),
            thread_id < NUM_THREADS,
            script@.len() <= u16::MAX,
            old(self).threads@[thread_id as int].pc + 3 <= script@.len(),
        ensures
            final(self).wf(),
            final(self).spec_same_but_threads(*old(self)),
            forall|t: int|
                0 <= t < NUM_THREADS ==> final(self).threads@[t].pc == old(self).threads@[t].pc
                    && final(self).threads@[t].active == old(self).threads@[t].active,
            ({
                let pc = old(self).threads@[thread_id as int].pc as int;
                let target = script@[pc] as int;
                &&& r == (target < NUM_THREADS)
                &&& (r ==> final(self).threads@ == old(self).threads@.update(
                    target,
                    Thread {
                        next_pc: spec_read_u16(script@, pc + 1),
                        ..old(self).threads@[target]
                    },
                ))
                &&& (!r ==> *final(self) == *old(self))
            }),
    {
        let pc = self.threads[thread_id as usize].pc;
        let target_thread_id = read_u8(script, pc);
        let addr = read_u16(script, pc + 1);
        if target_thread_id as usize >= NUM_THREADS {
            return false;
        }
        self.threads[target_thread_id as usize].next_pc = addr;
        true
    }

    /// Decrements a register and jumps while it has not reached zero.
    pub fn exec_jnz(&mut self, thread_id: u8, script: &[u8])
        requires
            old(self).wf(),
            thread_id < NUM_THREADS,
            script@.len() <= u16::MAX,
            old(self).threads@[thread_id as int].pc + 3 <= script@.len(),
        ensures
            final(self).wf(),
            final(self).spec_same_but_regs_and_threads(*old(self)),
            ({
                let pc = old(self).threads@[thread_id as int].pc as int;
                let v = vstd::wrapping::i16_specs::wrapping_sub(
                    old(self).registers@[script@[pc] as int],
                    1,
                );
                &&& final(self).registers@ == old(self).registers@.update(script@[pc] as int, v)
                &&& (v != 0 ==> final(self).threads@ == old(self).threads@.update(
                    thread_id as int,
                    Thread {
                        pc: spec_read_u16(script@, pc + 1),
                        ..old(self).threads@[thread_id as int]
                    },
                ))
                &&& (v == 0 ==> final(self).threads@ == old(self).threads@)
            }),
    {
        let pc = self.threads[thread_id as usize].pc;
        let reg_id = read_u8(script, pc);
        let v = self.registers[reg_id as usize].wrapping_sub(1);
        self.registers[reg_id as usize] = v;
        if v != 0 {
            let addr = read_u16(script, pc + 1);
            self.threads[thread_id as usize].pc = addr;
        }
    }

    /// Kills the current thread immediately, not deferred.
    pub fn exec_kill(&mut self, thread_id: u8)
        requires
            old(self).wf(),
            thread_id < NUM_THREADS,
        ensures
            final(self).wf(),
            final(self).spec_same_but_threads(*old(self)),
            final(self).threads@ == old(self).threads@.update(
                thread_id as int,
                Thread { pc: INACTIVE_THREAD, ..old(self).threads@[thread_id as int] },
            ),
    {
        self.threads[thread_id as usize].pc = INACTIVE_THREAD;
    }

    /// Kills or (de)activates an inclusive range of threads, staged for the
    /// next round boundary; current execution points and activity are
    /// untouched. A range whose start lies past its masked end is empty.
    pub fn exec_reset_threads(&mut self, thread_id: u8, script: &[u8])
        requires
            old(self).wf(),
            thread_id < NUM_THREADS,
            script@.len() <= u16::MAX,
            old(self).threads@[thread_id as int].pc + 3 <= script@.len(),
        ensures
            final(self).wf(),
            final(self).spec_same_but_threads(*old(self)),
            forall|t: int|
                0 <= t < NUM_THREADS ==> final(self).threads@[t].pc == old(self).threads@[t].pc
                    && final(self).threads@[t].active == old(self).threads@[t].active,
            ({
                let pc = old(self).threads@[thread_id as int].pc as int;
                let first = script@[pc] as int;
                let last = (script@[pc + 1] & 63) as int;
                let action = script@[pc + 2];
                forall|t: int|
                    0 <= t < NUM_THREADS ==> final(self).threads@[t] == (if first <= t <= last
                        && action == 2 {
                        Thread {
                            next_pc: (INACTIVE_THREAD - 1) as u16,
                            ..old(self).threads@[t]
                        }
                    } else if first <= t <= last && action < 2 {
                        Thread { next_active: action == 1, ..old(self).threads@[t] }
                    } else {
                        old(self).threads@[t]
                    })
            }),
    {
        let pc = self.threads[thread_id as usize].pc;
        let first = read_u8(script, pc);
        let last_raw = read_u8(script, pc + 1);
        let last = last_raw & 63;
        let action = read_u8(script, pc + 2);
        proof {
            assert(last_raw & 63 < 64) by (bit_vector);
        }

        if first > last || action > 2 {
            return ;
        }

        let mut t: usize = first as usize;
        while t <= last as usize
            invariant
                self.wf(),
                self.spec_same_but_threads(*old(self)),
                old(self).wf(),
                first <= last,
                last < NUM_THREADS,
                first <= t <= last + 1,
                action <= 2,
                forall|k: int|
                    0 <= k < NUM_THREADS ==> self.threads@[k].pc == old(self).threads@[k].pc
                        && self.threads@[k].active == old(self).threads@[k].active,
                forall|k: int|
                    0 <= k < NUM_THREADS ==> self.threads@[k] == (if first <= k < t && action
                        == 2 {
                        Thread {
                            next_pc: (INACTIVE_THREAD - 1) as u16,
                            ..old(self).threads@[k]
                        }
                    } else if first <= k < t && action < 2 {
                        Thread { next_active: action == 1, ..old(self).threads@[k] }
                    } else {
                        old(self).threads@[k]
                    }),
            decreases last + 1 - t,
        {
            if action == 2 {
                self.threads[t].next_pc = INACTIVE_THREAD - 1;
            } else {
                let a = action == 1;
                self.threads[t].next_active = a;
            }
            t = t + 1;
        }
    }
}


/// Where a conditional jump goes, if its comparison holds: the left operand
/// is always a register; two mode bits pick the right operand (register,
/// 16-bit immediate, or byte immediate) and with it the address position.
pub open spec fn spec_cond_jmp_target(regs: Seq<i16>, script: Seq<u8>, pc: int) -> Option<u16> {
    let t = script[pc];
    let b = regs[script[pc + 1] as int];
    let a = if t & 0x80 != 0 {
        regs[script[pc + 2] as int]
    } else if t & 0x40 != 0 {
        spec_read_i16(script, pc + 2)
    } else {
        script[pc + 2] as i16
    };
    let addr_pos = if t & 0x80 != 0 {
        pc + 3
    } else if t & 0x40 != 0 {
        pc + 4
    } else {
        pc + 3
    };
    let taken = if t & 7 == 0 {
        b == a
    } else if t & 7 == 1 {
        b != a
    } else if t & 7 == 2 {
        b > a
    } else if t & 7 == 3 {
        b >= a
    } else if t & 7 == 4 {
        b < a
    } else if t & 7 == 5 {
        b <= a
    } else {
        false
    };
    if taken {
        Some(spec_read_u16(script, addr_pos))
    } else {
        None
    }
}

impl VirtualMachine {
    /// Six-way compare-and-jump, as [`spec_cond_jmp_target`] says.
    pub fn exec_cond_jmp(&mut self, thread_id: u8, script: &[u8])
        requires
            old(self).wf(),
            thread_id < NUM_THREADS,
            script@.len() <= u16::MAX,
            old(self).threads@[thread_id as int].pc < script@.len(),
            old(self).threads@[thread_id as int].pc + (if script@[old(
                self,
            ).threads@[thread_id as int].pc as int] & 0x40 != 0 {
                6int
            } else {
                5int
            }) <= script@.len(),
        ensures
            final(self).wf(),
            final(self).spec_same_but_threads(*old(self)),
            ({
                let pc = old(self).threads@[thread_id as int].pc as int;
                let target = spec_cond_jmp_target(old(self).registers@, script@, pc);
                if target is Some {
                    final(self).threads@ == old(self).threads@.update(
                        thread_id as int,
                        Thread { pc: target->Some_0, ..old(self).threads@[thread_id as int] },
                    )
                } else {
                    final(self).threads@ == old(self).threads@
                }
            }),
    {
        let pc = self.threads[thread_id as usize].pc;
        let param_type = read_u8(script, pc);
        let b = self.registers[read_u8(script, pc + 1) as usize];

        let a: i16;
        let addr_pos: u16;
        if param_type & 0x80 != 0 {
            a = self.registers[read_u8(script, pc + 2) as usize];
            addr_pos = pc + 3;
        } else if param_type & 0x40 != 0 {
            a = read_i16(script, pc + 2);
            addr_pos = pc + 4;
        } else {
            a = read_u8(script, pc + 2) as i16;
            addr_pos = pc + 3;
        }

        let sel = param_type & 7;
        proof {
            assert(param_type & 7 < 8) by (bit_vector);
        }
        let taken: bool = if sel == 0 {
            b == a
        } else if sel == 1 {
            b != a
        } else if sel == 2 {
            b > a
        } else if sel == 3 {
            b >= a
        } else if sel == 4 {
            b < a
        } else if sel == 5 {
            b <= a
        } else {
            false
        };

        if taken {
            let addr = read_u16(script, addr_pos);
            self.threads[thread_id as usize].pc = addr;
        }
    }

    /// Stages a palette change; the active palette stays as it was until the
    /// next blit commits the change.
    pub fn exec_set_palette(&self, video: &mut Video, thread_id: u8, script: &[u8])
        requires
            self.wf(),
            thread_id < NUM_THREADS,
            script@.len() <= u16::MAX,
            self.threads@[thread_id as int].pc + 2 <= script@.len(),
        ensures
            ({
                let pc = self.threads@[thread_id as int].pc as int;
                *final(video) == (Video {
                    next_palette_id: (spec_read_u16(script@, pc) >> 8) as u8,
                    ..*old(video)
                })
            }),
            final(video).palette_id == old(video).palette_id,
    {
        let pc = self.threads[thread_id as usize].pc;
        let palette_word = read_u16(script, pc);
        proof {
            assert(palette_word >> 8 < 256) by (bit_vector);
        }
        video.set_palette((palette_word >> 8u32) as u8);
    }

    /// Makes the resolved page the target of drawing operations.
    pub fn exec_select_video_page(&self, video: &mut Video, thread_id: u8, script: &[u8])
        requires
            self.wf(),
            old(video).wf(),
            thread_id < NUM_THREADS,
            script@.len() <= u16::MAX,
            self.threads@[thread_id as int].pc + 1 <= script@.len(),
        ensures
            final(video).wf(),
            ({
                let pc = self.threads@[thread_id as int].pc as int;
                *final(video) == (Video {
                    backbuffer_page_idx: old(video).spec_page_idx(script@[pc]) as usize,
                    ..*old(video)
                })
            }),
    {
        let pc = self.threads[thread_id as usize].pc;
        let page_id = read_u8(script, pc);
        video.set_backbuffer_page(page_id);
    }

    /// Fills the resolved page with a color.
    pub fn exec_fill_video_page(&self, video: &mut Video, thread_id: u8, script: &[u8])
        requires
            self.wf(),
            old(video).wf(),
            thread_id < NUM_THREADS,
            script@.len() <= u16::MAX,
            self.threads@[thread_id as int].pc + 2 <= script@.len(),
        ensures
            final(video).wf(),
            ({
                let pc = self.threads@[thread_id as int].pc as int;
                spec_fill_page_rel(*old(video), *final(video), script@[pc], script@[pc + 1])
            }),
    {
        let pc = self.threads[thread_id as usize].pc;
        let page_id = read_u8(script, pc);
        let color = read_u8(script, pc + 1);
        video.fill_page(page_id, color);
    }

    /// Copies a page onto another, honoring the vertical-scroll register.
    pub fn exec_copy_video_page(&self, video: &mut Video, thread_id: u8, script: &[u8])
        requires
            self.wf(),
            old(video).wf(),
            thread_id < NUM_THREADS,
            script@.len() <= u16::MAX,
            self.threads@[thread_id as int].pc + 2 <= script@.len(),
        ensures
            final(video).wf(),
            ({
                let pc = self.threads@[thread_id as int].pc as int;
                spec_copy_page_rel(
                    *old(video),
                    *final(video),
                    script@[pc],
                    script@[pc + 1],
                    self.registers@[ScriptRegs::ScrollY.spec_index() as int],
                )
            }),
    {
        let pc = self.threads[thread_id as usize].pc;
        let src = read_u8(script, pc);
        let dst = read_u8(script, pc + 1);
        let scroll = self.registers[ScriptRegs::ScrollY.index() as usize];
        video.copy_page(src, dst, scroll);
    }

    /// Presents a page and asks the host for a frame; the pause-duration
    /// hint comes from the pause-slices register, and the frame counter
    /// register is cleared. A pending palette change is committed here.
    pub fn exec_blit(&mut self, video: &mut Video, thread_id: u8, script: &[u8]) -> (r: u32)
        requires
            old(self).wf(),
            old(video).wf(),
            thread_id < NUM_THREADS,
            script@.len() <= u16::MAX,
            old(self).threads@[thread_id as int].pc + 1 <= script@.len(),
        ensures
            final(self).wf(),
            final(video).wf(),
            final(self).spec_same_but_regs(*old(self)),
            final(self).registers@ == old(self).registers@.update(0xf7, 0i16),
            ({
                let pc = old(self).threads@[thread_id as int].pc as int;
                spec_blit_rel(*old(video), *final(video), script@[pc])
            }),
            r == spec_action_request(
                ActionRequest::Blit,
                (vstd::wrapping::i16_specs::wrapping_mul(
                    old(self).registers@[ScriptRegs::PauseSlices.spec_index() as int],
                    20,
                ) as u8),
            ),
    {
        let pc = self.threads[thread_id as usize].pc;
        let page_id = read_u8(script, pc);

        self.registers[0xf7] = 0;
        video.blit(page_id);

        let hint = self.registers[ScriptRegs::PauseSlices.index() as usize].wrapping_mul(20);
        build_action_request(ActionRequest::Blit, #[verifier::truncate] (hint as u8))
    }

    /// Draws a built-in string into the back-buffer page.
    pub fn exec_draw_string(&self, video: &mut Video, thread_id: u8, script: &[u8])
        requires
            self.wf(),
            old(video).wf(),
            thread_id < NUM_THREADS,
            script@.len() <= u16::MAX,
            self.threads@[thread_id as int].pc + 5 <= script@.len(),
        ensures
            final(video).wf(),
            spec_draw_confined_rel(*old(video), *final(video)),
            ({
                let pc = self.threads@[thread_id as int].pc as int;
                spec_draw_string_rel(
                    *old(video),
                    *final(video),
                    spec_read_u16(script@, pc),
                    script@[pc + 2] as i16,
                    script@[pc + 3] as i16,
                    script@[pc + 4],
                )
            }),
    {
        let pc = self.threads[thread_id as usize].pc;
        let string_id = read_u16(script, pc);
        let x = read_u8(script, pc + 2) as i16;
        let y = read_u8(script, pc + 3) as i16;
        let color = read_u8(script, pc + 4);
        video.draw_string(string_id, x, y, color);
    }

    /// Packs the sound parameters into the returned action word; mixing is
    /// the host's concern.
    pub fn exec_sound(&self, thread_id: u8, script: &[u8]) -> (r: u32)
        requires
            self.wf(),
            thread_id < NUM_THREADS,
            script@.len() <= u16::MAX,
            self.threads@[thread_id as int].pc + 5 <= script@.len(),
        ensures
            ({
                let pc = self.threads@[thread_id as int].pc as int;
                r == spec_play_sound_action_request(
                    (spec_read_u16(script@, pc) as u8),
                    script@[pc + 2],
                    script@[pc + 3],
                    script@[pc + 4],
                )
            }),
    {
        let pc = self.threads[thread_id as usize].pc;
        let snd_id = read_u16(script, pc);
        let freq = read_u8(script, pc + 2);
        let vol = read_u8(script, pc + 3);
        let channel = read_u8(script, pc + 4);
        build_play_sound_action_request(#[verifier::truncate] (snd_id as u8), freq, vol, channel)
    }

    /// Either stages a deferred part switch (resource ids above the part
    /// base), or draws a bitmap resource directly to page 0; other resource
    /// kinds are already in memory and need nothing. An id below the part
    /// base but above the resource table, a non-existent resource slot, or a
    /// part outside the table is a script fault: `r.0` is false and nothing
    /// changes.
    pub fn exec_load_resource(
        &mut self,
        resources_manager: &ResourcesManager,
        video: &mut Video,
        thread_id: u8,
        script: &[u8],
    ) -> (r: (bool, u32))
        requires
            old(self).wf(),
            old(video).wf(),
            resources_manager.wf(),
            thread_id < NUM_THREADS,
            script@.len() <= u16::MAX,
            old(self).threads@[thread_id as int].pc + 2 <= script@.len(),
        ensures
            final(self).wf(),
            final(video).wf(),
            ({
                let pc = old(self).threads@[thread_id as int].pc as int;
                let id = spec_read_u16(script@, pc);
                if id > 0xff {
                    if id >= BASE_PART_ID && ((id - BASE_PART_ID) as u8) <= MAX_PART_ID {
                        let part = (id - BASE_PART_ID) as u8;
                        &&& r.0
                        &&& r.1 == spec_action_request(ActionRequest::LoadPart, part)
                        &&& *final(self) == (VirtualMachine {
                            next_part_id: part,
                            ..*old(self)
                        })
                        &&& *final(video) == *old(video)
                    } else {
                        !r.0 && *final(self) == *old(self) && *final(video) == *old(video)
                    }
                } else {
                    if id < resources_manager.files@.len() {
                        &&& r.0
                        &&& r.1 == 0
                        &&& *final(self) == *old(self)
                        &&& (resources_manager.files@[id as int].ftype == 2 ==> {
                            &&& final(video).spec_same_roles_and_palette(*old(video))
                            &&& final(video).pages@[0]@ == resources_manager.files@[
                                id as int].content@
                            &&& forall|j: int|
                                1 <= j < 4 ==> final(video).pages@[j] == old(video).pages@[j]
                        })
                        &&& (resources_manager.files@[id as int].ftype != 2 ==> *final(video)
                            == *old(video))
                    } else {
                        !r.0 && *final(self) == *old(self) && *final(video) == *old(video)
                    }
                }
            }),
    {
        let pc = self.threads[thread_id as usize].pc;
        let resource_id = read_u16(script, pc);

        if resource_id > 0xff {
            if resource_id < BASE_PART_ID {
                return (false, 0);
            }
            let part_wide = resource_id - BASE_PART_ID;
            let part = #[verifier::truncate] (part_wide as u8);
            if part > MAX_PART_ID {
                return (false, 0);
            }
            self.next_part_id = part;
            return (true, build_action_request(ActionRequest::LoadPart, part));
        }

        if resource_id as usize >= resources_manager.files.len() {
            return (false, 0);
        }
        if resources_manager.get_file_type(resource_id as u8) == 0x2 {
            video.draw_bitmap(resources_manager.get_file(resource_id as u8));
        }
        (true, 0)
    }

    /// Draws from the primary polygon table at a fixed immediate position;
    /// a y beyond the visible height folds the excess into x.
    pub fn exec_draw_poly_background(
        &self,
        video: &mut Video,
        thread_id: u8,
        script: &[u8],
        poly_buffer_1: &[u8],
    )
        requires
            self.wf(),
            old(video).wf(),
            thread_id < NUM_THREADS,
            script@.len() <= u16::MAX,
            1 <= self.threads@[thread_id as int].pc,
            self.threads@[thread_id as int].pc + 3 <= script@.len(),
        ensures
            final(video).wf(),
            spec_draw_confined_rel(*old(video), *final(video)),
            ({
                let args = spec_poly_background_args(
                    script@,
                    self.threads@[thread_id as int].pc as int,
                );
                exists|dec: crate::poly::Poly|
                    #[trigger] crate::poly::spec_decode_draw_rel(
                        poly_buffer_1@,
                        args.0 as int,
                        args.1,
                        args.2,
                        0x40,
                        0xff,
                        dec,
                        old(video).pages@,
                        final(video).pages@,
                        old(video).backbuffer_page_idx as int,
                    )
            }),
    {
        let pc = self.threads[thread_id as usize].pc;
        let opcode = read_u8(script, pc - 1);

        let offset_raw: u16 = ((opcode as u16) << 8u32) | (read_u8(script, pc) as u16);
        let offset = offset_raw.wrapping_mul(2);

        let mut x = read_u8(script, pc + 1) as i16;
        let mut y = read_u8(script, pc + 2) as i16;
        let h = y - (FRAME_BUFFER_HEIGHT - 1) as i16;

        if h > 0 {
            y = (FRAME_BUFFER_HEIGHT - 1) as i16;
            x = x + h;
        }

        video.draw_poly(poly_buffer_1, offset, x, y, 0x40);
        proof {
            let dec = choose|dec: crate::poly::Poly|
                #[trigger] crate::poly::spec_decode_draw_rel(
                    poly_buffer_1@,
                    offset as int,
                    x,
                    y,
                    0x40,
                    0xff,
                    dec,
                    old(video).pages@,
                    video.pages@,
                    old(video).backbuffer_page_idx as int,
                );
            let args = spec_poly_background_args(
                script@,
                self.threads@[thread_id as int].pc as int,
            );
            assert(args.0 == offset && args.1 == x && args.2 == y);
            assert(crate::poly::spec_decode_draw_rel(
                poly_buffer_1@,
                args.0 as int,
                args.1,
                args.2,
                0x40,
                0xff,
                dec,
                old(video).pages@,
                video.pages@,
                old(video).backbuffer_page_idx as int,
            ));
        }
    }

    /// Draws a polygon with mode bits in the opcode byte selecting where x,
    /// y and zoom come from and which polygon table is read.
    pub fn exec_draw_poly_special(
        &self,
        video: &mut Video,
        thread_id: u8,
        script: &[u8],
        poly_buffer_1: &[u8],
        poly_buffer_2: &[u8],
    )
        requires
            self.wf(),
            old(video).wf(),
            thread_id < NUM_THREADS,
            script@.len() <= u16::MAX,
            1 <= self.threads@[thread_id as int].pc,
            self.threads@[thread_id as int].pc + (crate::opcodes::spec_poly_special_len(
                script@[self.threads@[thread_id as int].pc - 1],
            ) - 1) <= script@.len(),
        ensures
            final(video).wf(),
            spec_draw_confined_rel(*old(video), *final(video)),
    {
        let mut pc = self.threads[thread_id as usize].pc;
        let opcode = read_u8(script, pc - 1);
        let offset = read_u16(script, pc).wrapping_mul(2);
        pc = pc + 2;

        let mut x = read_u8(script, pc) as i16;
        pc = pc + 1;

        if opcode & 0x20 == 0 {
            if opcode & 0x10 == 0 {
                let lo = read_u8(script, pc);
                x = #[verifier::truncate] ((((x as u16) << 8u32) | (lo as u16)) as i16);
                pc = pc + 1;
            } else {
                x = self.registers[x as usize];
            }
        } else if opcode & 0x10 != 0 {
            x = x + 0x100;
        }

        let mut y = read_u8(script, pc) as i16;
        pc = pc + 1;

        if opcode & 0x8 == 0 {
            if opcode & 0x4 == 0 {
                let lo = read_u8(script, pc);
                y = #[verifier::truncate] ((((y as u16) << 8u32) | (lo as u16)) as i16);
                pc = pc + 1;
            } else {
                y = self.registers[y as usize];
            }
        }

        // The zoom byte sits past the instruction in the modes that ignore
        // it; a read at the very end of the script then yields zero.
        let mut zoom: i16 = if (pc as usize) < script.len() {
            read_u8(script, pc) as i16
        } else {
            0
        };

        let use_second_table: bool;
        if opcode & 0x2 == 0 {
            if opcode & 0x1 == 0 {
                zoom = 0x40;
            } else {
                zoom = self.registers[zoom as usize];
            }
            use_second_table = false;
        } else if opcode & 0x1 != 0 {
            zoom = 0x40;
            use_second_table = true;
        } else {
            use_second_table = false;
        }

        if use_second_table {
            video.draw_poly(poly_buffer_2, offset, x, y, zoom);
        } else {
            video.draw_poly(poly_buffer_1, offset, x, y, zoom);
        }
    }

    /// Executes one instruction on thread `thread_id`: fetch at its program
    /// counter, advance past the opcode byte, execute, and advance by the
    /// instruction's remaining length unless the instruction redirected
    /// control itself. A script fault kills the thread and reports no
    /// action.
    fn thread_step(
        &mut self,
        resources_manager: &ResourcesManager,
        video: &mut Video,
        thread_id: u8,
        script: &[u8],
        poly_buffer_1: &[u8],
        poly_buffer_2: &[u8],
    ) -> (r: u32)
        requires
            old(self).wf(),
            old(video).wf(),
            resources_manager.wf(),
            thread_id < NUM_THREADS,
            script@.len() <= u16::MAX,
        ensures
            final(self).wf(),
            final(video).wf(),
            final(self).active_thread == old(self).active_thread,
            final(self).opcodes == old(self).opcodes,
            final(self).script_file_id == old(self).script_file_id,
            final(self).palette_file_id == old(self).palette_file_id,
            final(self).polys1_file_id == old(self).polys1_file_id,
            final(self).polys2_file_id == old(self).polys2_file_id,
            final(self).direction_keys_enabled == old(self).direction_keys_enabled,
            final(self).action_key_enabled == old(self).action_key_enabled,
            spec_thread_step_rel(
                *old(self),
                *final(self),
                *old(video),
                *final(video),
                *resources_manager,
                thread_id as int,
                script@,
                poly_buffer_1@,
                r,
            ),
    {
        let tidx = thread_id as usize;
        let pc = self.threads[tidx].pc;

        if pc == INACTIVE_THREAD {
            return 0;
        }
        if pc as usize >= script.len() {
            // Fetch past the script: a script fault.
            self.threads[tidx].pc = INACTIVE_THREAD;
            return 0;
        }

        proof {
            // Writing a slot twice keeps only the later write; the solver
            // needs the collapse spelled out once.
            assert forall|sq: Seq<Thread>, i: int, a: Thread, b: Thread|
                0 <= i < sq.len() implies #[trigger] sq.update(i, a).update(i, b) =~= sq.update(
                i,
                b,
            ) by {}
        }
        self.threads[tidx].pc = pc + 1;

        let opcode_value = script[pc as usize];
        let op = self.opcodes.get(opcode_value);
        let new_pc = self.threads[tidx].pc;

        let opcode_len = match op.len(new_pc, script) {
            Some(l) => l,
            None => {
                self.threads[tidx].pc = INACTIVE_THREAD;
                return 0;
            },
        };
        if (pc as usize) + (opcode_len as usize) > script.len() {
            // The operands run past the script: a script fault.
            self.threads[tidx].pc = INACTIVE_THREAD;
            proof {
                    assert(self.threads@ =~= spec_with_tid_pc(
                        *old(self),
                        thread_id as int,
                        INACTIVE_THREAD,
                    ));
                }
                return 0;
        }

        let mut action_requested: u32 = 0;
        let mut ok: bool = true;

        match op.kind {
            OpcodeKind::MovImm => self.exec_mov_imm(thread_id, script),
            OpcodeKind::Mov => self.exec_mov(thread_id, script),
            OpcodeKind::Add => self.exec_add(thread_id, script),
            OpcodeKind::AddImm => self.exec_add_imm(thread_id, script),
            OpcodeKind::Call => self.exec_call(thread_id, script),
            OpcodeKind::Ret => {
                ok = self.exec_ret(thread_id);
            },
            OpcodeKind::Yield => {
                action_requested = build_action_request(ActionRequest::YieldThread, 0);
            },
            OpcodeKind::Jmp => self.exec_jmp(thread_id, script),
            OpcodeKind::SetVec => {
                ok = self.exec_set_vec(thread_id, script);
            },
            OpcodeKind::Jnz => self.exec_jnz(thread_id, script),
            OpcodeKind::CondJmp => self.exec_cond_jmp(thread_id, script),
            OpcodeKind::SetPalette => self.exec_set_palette(video, thread_id, script),
            OpcodeKind::ResetThreads => self.exec_reset_threads(thread_id, script),
            OpcodeKind::SelectVideoPage => self.exec_select_video_page(video, thread_id, script),
            OpcodeKind::FillVideoPage => self.exec_fill_video_page(video, thread_id, script),
            OpcodeKind::CopyVideoPage => self.exec_copy_video_page(video, thread_id, script),
            OpcodeKind::Blit => {
                action_requested = self.exec_blit(video, thread_id, script);
            },
            OpcodeKind::Kill => self.exec_kill(thread_id),
            OpcodeKind::DrawString => self.exec_draw_string(video, thread_id, script),
            OpcodeKind::Sub => self.exec_sub(thread_id, script),
            OpcodeKind::And => self.exec_and(thread_id, script),
            OpcodeKind::Or => self.exec_or(thread_id, script),
            OpcodeKind::Shl => self.exec_shl(thread_id, script),
            OpcodeKind::Shr => self.exec_shr(thread_id, script),
            OpcodeKind::Sound => {
                action_requested = self.exec_sound(thread_id, script);
            },
            OpcodeKind::LoadResource => {
                let (lr_ok, lr_action) = self.exec_load_resource(
                    resources_manager,
                    video,
                    thread_id,
                    script,
                );
                ok = lr_ok;
                action_requested = lr_action;
            },
            OpcodeKind::Music => {
                // Accepted and ignored.
            },
            OpcodeKind::DrawPolyBackground => self.exec_draw_poly_background(
                video,
                thread_id,
                script,
                poly_buffer_1,
            ),
            OpcodeKind::DrawPolySpecial => self.exec_draw_poly_special(
                video,
                thread_id,
                script,
                poly_buffer_1,
                poly_buffer_2,
            ),
            OpcodeKind::Invalid => {
                ok = false;
            },
        }

        if !ok {
            self.threads[tidx].pc = INACTIVE_THREAD;
            proof {
                    assert(self.threads@ =~= spec_with_tid_pc(
                        *old(self),
                        thread_id as int,
                        INACTIVE_THREAD,
                    ));
                }
                return 0;
        }

        if pc + 1 == self.threads[tidx].pc {
            // Not a call, return or jump: advance past the operands.
            self.threads[tidx].pc = pc + opcode_len as u16;
        }

        action_requested
    }

    /// Runs one instruction on the active thread, then, if that thread
    /// yielded or died, advances the round-robin to the next runnable
    /// thread. When the scan wraps past thread 0 it performs the
    /// once-per-round actions: the input projection, then the atomic commit
    /// of every thread's staged `next_active` and `next_pc`. A pending part
    /// switch staged by the load-resource instruction is consumed before
    /// anything else. The returned action word is zero unless the host must
    /// act on it (a frame to present, a sound, a part switch for
    /// bookkeeping).
    pub fn step(&mut self, video: &mut Video, resources_manager: &ResourcesManager) -> (r: u32)
        requires
            old(self).wf(),
            old(video).wf(),
            resources_manager.wf(),
            resources_manager.files@.len() >= 0x29,
        ensures
            final(self).wf(),
            final(video).wf(),
            r == 0 || ((r >> 24) as u8) >= 2,
            ({
                exists|p1: VirtualMachine, mid: VirtualMachine, act: u32|
                    {
                        &&& spec_part_consumed(*old(self), p1)
                        &&& #[trigger] spec_thread_step_rel(
                            p1,
                            mid,
                            *old(video),
                            *final(video),
                            *resources_manager,
                            p1.active_thread as int,
                            resources_manager.files@[p1.script_file_id as int].content@,
                            resources_manager.files@[p1.polys1_file_id as int].content@,
                            act,
                        )
                        &&& r == (if ((act >> 24) as u8) >= 2 {
                            act
                        } else {
                            0u32
                        })
                        &&& (if ((act >> 24) as u8) == 1 || mid.threads@[
                            p1.active_thread as int].pc == INACTIVE_THREAD {
                            spec_sched_rel(mid, *final(self))
                        } else {
                            *final(self) == mid
                        })
                    }
            }),
    {
        if self.next_part_id != 0 {
            let part = self.next_part_id;
            self.load_part(part);
            self.next_part_id = 0;
        }
        let ghost p1 = *self;
        proof {
            assert(spec_part_consumed(*old(self), p1));
        }

        let tidx = self.active_thread as usize;
        let script = resources_manager.get_file(self.script_file_id);
        let poly1 = resources_manager.get_file(self.polys1_file_id);
        let poly2 = resources_manager.get_file(self.polys2_file_id);

        let at = self.active_thread;
        let action_requested = self.thread_step(resources_manager, video, at, script, poly1, poly2);
        let ghost mid = *self;
        let ghost vpost = *video;

        proof {
            assert(forall|x: u32| #![auto] x >> 24u32 < 256) by (bit_vector);
        }
        let action = #[verifier::truncate] ((action_requested >> 24u32) as u8);

        if action == 1 || self.threads[tidx].pc == INACTIVE_THREAD {
            let start = (tidx + 1) % NUM_THREADS;
            let mut selected: usize = NUM_THREADS;

            if start != 0 {
                let mut idx = start;
                while selected == NUM_THREADS && idx < NUM_THREADS
                    invariant
                        *self == mid,
                        self.wf(),
                        1 <= start <= idx <= NUM_THREADS,
                        selected == NUM_THREADS || (start <= selected < NUM_THREADS && selected
                            == idx && spec_runnable(self.threads@[selected as int])),
                        forall|k: int|
                            start <= k < idx ==> !spec_runnable(#[trigger] self.threads@[k]),
                    decreases NUM_THREADS - idx, (if selected == NUM_THREADS {
                        1int
                    } else {
                        0int
                    }),
                {
                    if self.threads[idx].pc != INACTIVE_THREAD && !self.threads[idx].active {
                        selected = idx;
                    } else {
                        idx = idx + 1;
                    }
                }
            }

            if selected < NUM_THREADS {
                self.active_thread = selected as u8;
                proof {
                    lemma_scan_from_first(mid.threads@, ((at + 1) as int) % (NUM_THREADS as int), selected as int);
                    assert(spec_sched_rel(mid, *self));
                }
            } else {
                proof {
                    if start != 0 {
                        lemma_scan_from_none(mid.threads@, start as int);
                    }
                }
                // The round boundary: project the input, then commit every
                // thread's staged scheduling state.
                self.process_input();
                let ghost projected = *self;

                let mut i: usize = 0;
                while i < NUM_THREADS
                    invariant
                        self.wf(),
                        i <= NUM_THREADS,
                        self.spec_same_but_threads(projected),
                        projected.threads == mid.threads,
                        forall|k: int|
                            0 <= k < i ==> #[trigger] self.threads@[k] == spec_commit_thread(
                                mid.threads@[k],
                            ),
                        forall|k: int|
                            i <= k < NUM_THREADS ==> #[trigger] self.threads@[k]
                                == mid.threads@[k],
                    decreases NUM_THREADS - i,
                {
                    let na = self.threads[i].next_active;
                    self.threads[i].active = na;
                    let np = self.threads[i].next_pc;
                    if np != INACTIVE_THREAD {
                        if np == INACTIVE_THREAD - 1 {
                            self.threads[i].pc = INACTIVE_THREAD;
                        } else {
                            self.threads[i].pc = np;
                        }
                        self.threads[i].next_pc = INACTIVE_THREAD;
                    }
                    i = i + 1;
                }
                proof {
                    assert(self.threads@ =~= Seq::new(
                        NUM_THREADS as nat,
                        |k: int| spec_commit_thread(mid.threads@[k]),
                    ));
                }

                let mut idx2: usize = 0;
                let mut sel2: usize = NUM_THREADS;
                let ghost committed_vm = *self;
                while sel2 == NUM_THREADS && idx2 < NUM_THREADS
                    invariant
                        *self == committed_vm,
                        self.wf(),
                        idx2 <= NUM_THREADS,
                        sel2 == NUM_THREADS || (sel2 < NUM_THREADS && sel2 == idx2
                            && spec_runnable(self.threads@[sel2 as int])),
                        forall|k: int|
                            0 <= k < idx2 ==> !spec_runnable(#[trigger] self.threads@[k]),
                    decreases NUM_THREADS - idx2, (if sel2 == NUM_THREADS {
                        1int
                    } else {
                        0int
                    }),
                {
                    if self.threads[idx2].pc != INACTIVE_THREAD && !self.threads[idx2].active {
                        sel2 = idx2;
                    } else {
                        idx2 = idx2 + 1;
                    }
                }

                if sel2 < NUM_THREADS {
                    self.active_thread = sel2 as u8;
                    proof {
                        lemma_scan_from_first(committed_vm.threads@, 0, sel2 as int);
                        assert(spec_sched_rel(mid, *self));
                    }
                } else {
                    // No thread is runnable even after the commit; the
                    // scheduler stays where it was and later steps find the
                    // machine idle.
                    proof {
                        lemma_scan_from_none(committed_vm.threads@, 0);
                        assert(spec_sched_rel(mid, *self));
                    }
                }
            }
        }

        proof {
            assert(spec_thread_step_rel(
                p1,
                mid,
                *old(video),
                vpost,
                *resources_manager,
                p1.active_thread as int,
                resources_manager.files@[p1.script_file_id as int].content@,
                resources_manager.files@[p1.polys1_file_id as int].content@,
                action_requested,
            ));
        }

        // Only actions the host must see leave the machine.
        if action >= 2 {
            return action_requested;
        }
        0
    }
}

} // verus!
