//! The instruction set: decoding an opcode byte to an instruction descriptor
//! and computing each instruction's encoded length. Two high-bit-selected
//! variants draw polygons; the remaining six bits of such an opcode byte are
//! part of the operand. Execution lives with the machine state in
//! [`crate::virtual_machine`].

use vstd::prelude::*;

verus! {

/// What one step of the machine asks the host to do. The numeric codes of
/// [`ActionRequest::code`] are packed into the action word a step returns.
#[derive(Clone, Copy, PartialEq, Eq, Structural, Debug)]
pub enum ActionRequest {
    YieldThread,
    Blit,
    LoadPart,
    PlaySound,
}

impl ActionRequest {
    /// The numeric code packed into the top byte of an action word.
    pub open spec fn spec_code(self) -> u8 {
        match self {
            ActionRequest::YieldThread => 1,
            ActionRequest::Blit => 2,
            ActionRequest::LoadPart => 3,
            ActionRequest::PlaySound => 4,
        }
    }

    pub fn code(self) -> (r: u8)
        ensures
            r == self.spec_code(),
    {
        match self {
            ActionRequest::YieldThread => 1,
            ActionRequest::Blit => 2,
            ActionRequest::LoadPart => 3,
            ActionRequest::PlaySound => 4,
        }
    }
}

/// An action word: the action code in the top byte, a parameter next.
pub open spec fn spec_action_request(action: ActionRequest, param: u8) -> u32 {
    ((action.spec_code() as u32) << 24) | ((param as u32) << 16)
}

/// Packs an action and its parameter into an action word.
pub fn build_action_request(action: ActionRequest, param: u8) -> (r: u32)
    ensures
        r == spec_action_request(action, param),
{
    ((action.code() as u32) << 24u32) | ((param as u32) << 16u32)
}

/// A play-sound action word: sound id, then channel and frequency packed in
/// one byte, then volume.
pub open spec fn spec_play_sound_action_request(snd_id: u8, freq: u8, vol: u8, channel: u8) -> u32 {
    ((ActionRequest::PlaySound.spec_code() as u32) << 24) | ((snd_id as u32) << 16) | (((((
    channel as u16) << 6) | (freq as u16)) as u32) << 8) | (vol as u32)
}

/// Packs the play-sound parameters into an action word.
pub fn build_play_sound_action_request(snd_id: u8, freq: u8, vol: u8, channel: u8) -> (r: u32)
    ensures
        r == spec_play_sound_action_request(snd_id, freq, vol, channel),
{
    ((ActionRequest::PlaySound.code() as u32) << 24u32) | ((snd_id as u32) << 16u32) | (((((
    channel as u16) << 6u32) | (freq as u16)) as u32) << 8u32) | (vol as u32)
}

/// The instructions of the machine. The first twenty-seven stand for opcode
/// bytes `0x00..=0x1a`; the two polygon variants are selected by the high
/// bits of the opcode byte; any other byte is invalid.
#[derive(Clone, Copy, PartialEq, Eq, Structural, Debug)]
pub enum OpcodeKind {
    /// Move an immediate 16-bit value into a register.
    MovImm,
    /// Move a register into a register.
    Mov,
    /// Add a register into a register, wrapping.
    Add,
    /// Add an immediate into a register, wrapping.
    AddImm,
    /// Push the return address and jump.
    Call,
    /// Pop the return address and jump back.
    Ret,
    /// Yield the current thread for this round.
    Yield,
    /// Unconditional jump.
    Jmp,
    /// Stage another thread's program counter for the next round.
    SetVec,
    /// Decrement a register and jump if it did not reach zero.
    Jnz,
    /// Six-way compare-and-jump with three operand addressing modes.
    CondJmp,
    /// Stage a palette change, committed at the next blit.
    SetPalette,
    /// Kill or (de)activate an inclusive range of threads, staged.
    ResetThreads,
    /// Select the page drawing operations target.
    SelectVideoPage,
    /// Fill a page with a color.
    FillVideoPage,
    /// Copy a page onto another, honoring the vertical scroll register.
    CopyVideoPage,
    /// Present a page and request a frame from the host.
    Blit,
    /// Kill the current thread immediately.
    Kill,
    /// Draw a built-in string.
    DrawString,
    /// Subtract a register from a register, wrapping.
    Sub,
    /// Bitwise and with an immediate, on the unsigned bit pattern.
    And,
    /// Bitwise or with an immediate.
    Or,
    /// Shift left by an immediate.
    Shl,
    /// Shift right by an immediate.
    Shr,
    /// Request a sound from the host.
    Sound,
    /// Trigger a deferred part switch, or draw a bitmap resource to page 0.
    LoadResource,
    /// Accepted and ignored.
    Music,
    /// Draw from the primary polygon table at a fixed immediate position.
    DrawPolyBackground,
    /// Draw a polygon with mode bits selecting operand sources and table.
    DrawPolySpecial,
    /// An opcode byte no instruction answers to.
    Invalid,
}

/// Which instruction an opcode byte selects: bit 7 set picks the simple
/// polygon draw, bit 6 alone the extended one, else the low bits index the
/// fixed table.
pub open spec fn spec_decode(opcode: u8) -> OpcodeKind {
    if opcode & 0x80 != 0 {
        OpcodeKind::DrawPolyBackground
    } else if opcode & 0x40 != 0 {
        OpcodeKind::DrawPolySpecial
    } else {
        match opcode {
            0x00 => OpcodeKind::MovImm,
            0x01 => OpcodeKind::Mov,
            0x02 => OpcodeKind::Add,
            0x03 => OpcodeKind::AddImm,
            0x04 => OpcodeKind::Call,
            0x05 => OpcodeKind::Ret,
            0x06 => OpcodeKind::Yield,
            0x07 => OpcodeKind::Jmp,
            0x08 => OpcodeKind::SetVec,
            0x09 => OpcodeKind::Jnz,
            0x0a => OpcodeKind::CondJmp,
            0x0b => OpcodeKind::SetPalette,
            0x0c => OpcodeKind::ResetThreads,
            0x0d => OpcodeKind::SelectVideoPage,
            0x0e => OpcodeKind::FillVideoPage,
            0x0f => OpcodeKind::CopyVideoPage,
            0x10 => OpcodeKind::Blit,
            0x11 => OpcodeKind::Kill,
            0x12 => OpcodeKind::DrawString,
            0x13 => OpcodeKind::Sub,
            0x14 => OpcodeKind::And,
            0x15 => OpcodeKind::Or,
            0x16 => OpcodeKind::Shl,
            0x17 => OpcodeKind::Shr,
            0x18 => OpcodeKind::Sound,
            0x19 => OpcodeKind::LoadResource,
            0x1a => OpcodeKind::Music,
            _ => OpcodeKind::Invalid,
        }
    }
}

/// One instruction descriptor.
pub struct Opcode {
    pub kind: OpcodeKind,
}

/// How many bytes the instruction at `pc - 1` occupies, the opcode byte
/// included. `pc` is the address right after the opcode byte, as the
/// execution loop holds it; two instructions read operand or opcode bytes to
/// settle their length, and `None` means that read runs past the script.
pub open spec fn spec_instruction_len(kind: OpcodeKind, script: Seq<u8>, pc: int) -> Option<u8> {
    match kind {
        OpcodeKind::MovImm => Some(4u8),
        OpcodeKind::Mov => Some(3u8),
        OpcodeKind::Add => Some(3u8),
        OpcodeKind::AddImm => Some(4u8),
        OpcodeKind::Call => Some(3u8),
        OpcodeKind::Ret => Some(1u8),
        OpcodeKind::Yield => Some(1u8),
        OpcodeKind::Jmp => Some(3u8),
        OpcodeKind::SetVec => Some(4u8),
        OpcodeKind::Jnz => Some(4u8),
        OpcodeKind::CondJmp => if 0 <= pc < script.len() {
            Some(if script[pc] & 0x40 != 0 { 7u8 } else { 6u8 })
        } else {
            None
        },
        OpcodeKind::SetPalette => Some(3u8),
        OpcodeKind::ResetThreads => Some(4u8),
        OpcodeKind::SelectVideoPage => Some(2u8),
        OpcodeKind::FillVideoPage => Some(3u8),
        OpcodeKind::CopyVideoPage => Some(3u8),
        OpcodeKind::Blit => Some(2u8),
        OpcodeKind::Kill => Some(1u8),
        OpcodeKind::DrawString => Some(6u8),
        OpcodeKind::Sub => Some(3u8),
        OpcodeKind::And => Some(4u8),
        OpcodeKind::Or => Some(4u8),
        OpcodeKind::Shl => Some(4u8),
        OpcodeKind::Shr => Some(4u8),
        OpcodeKind::Sound => Some(6u8),
        OpcodeKind::LoadResource => Some(3u8),
        OpcodeKind::Music => Some(6u8),
        OpcodeKind::DrawPolyBackground => Some(4u8),
        OpcodeKind::DrawPolySpecial => if 1 <= pc && pc - 1 < script.len() {
            Some(spec_poly_special_len(script[pc - 1]))
        } else {
            None
        },
        OpcodeKind::Invalid => None,
    }
}

/// The extended polygon draw's length, settled by its own opcode byte's mode
/// bits: a 16-bit x or y operand adds a byte, an omitted or table-selecting
/// zoom operand drops one.
pub open spec fn spec_poly_special_len(opcode: u8) -> u8 {
    let base: u8 = 6;
    let with_x: u8 = if opcode & 0x20 == 0 && opcode & 0x10 == 0 {
        (base + 1) as u8
    } else {
        base
    };
    let with_y: u8 = if opcode & 0x8 == 0 && opcode & 0x4 == 0 {
        (with_x + 1) as u8
    } else {
        with_x
    };
    if opcode & 0x2 == 0 {
        if opcode & 0x1 == 0 {
            (with_y - 1) as u8
        } else {
            with_y
        }
    } else if opcode & 0x1 != 0 {
        (with_y - 1) as u8
    } else {
        with_y
    }
}

impl Opcode {
    /// Computes the instruction's encoded length, per
    /// [`spec_instruction_len`].
    pub fn len(&self, pc: u16, script: &[u8]) -> (r: Option<u8>)
        ensures
            r == spec_instruction_len(self.kind, script@, pc as int),
            r is Some ==> 1 <= r.unwrap() <= 8,
    {
        match self.kind {
            OpcodeKind::MovImm => Some(4),
            OpcodeKind::Mov => Some(3),
            OpcodeKind::Add => Some(3),
            OpcodeKind::AddImm => Some(4),
            OpcodeKind::Call => Some(3),
            OpcodeKind::Ret => Some(1),
            OpcodeKind::Yield => Some(1),
            OpcodeKind::Jmp => Some(3),
            OpcodeKind::SetVec => Some(4),
            OpcodeKind::Jnz => Some(4),
            OpcodeKind::CondJmp => {
                if (pc as usize) < script.len() {
                    if script[pc as usize] & 0x40 != 0 {
                        Some(7)
                    } else {
                        Some(6)
                    }
                } else {
                    None
                }
            },
            OpcodeKind::SetPalette => Some(3),
            OpcodeKind::ResetThreads => Some(4),
            OpcodeKind::SelectVideoPage => Some(2),
            OpcodeKind::FillVideoPage => Some(3),
            OpcodeKind::CopyVideoPage => Some(3),
            OpcodeKind::Blit => Some(2),
            OpcodeKind::Kill => Some(1),
            OpcodeKind::DrawString => Some(6),
            OpcodeKind::Sub => Some(3),
            OpcodeKind::And => Some(4),
            OpcodeKind::Or => Some(4),
            OpcodeKind::Shl => Some(4),
            OpcodeKind::Shr => Some(4),
            OpcodeKind::Sound => Some(6),
            OpcodeKind::LoadResource => Some(3),
            OpcodeKind::Music => Some(6),
            OpcodeKind::DrawPolyBackground => Some(4),
            OpcodeKind::DrawPolySpecial => {
                if pc >= 1 && ((pc - 1) as usize) < script.len() {
                    let opcode = script[(pc - 1) as usize];
                    let mut len: u8 = 6;
                    if opcode & 0x20 == 0 && opcode & 0x10 == 0 {
                        len = len + 1;
                    }
                    if opcode & 0x8 == 0 && opcode & 0x4 == 0 {
                        len = len + 1;
                    }
                    if opcode & 0x2 == 0 {
                        if opcode & 0x1 == 0 {
                            len = len - 1;
                        }
                    } else if opcode & 0x1 != 0 {
                        len = len - 1;
                    }
                    Some(len)
                } else {
                    None
                }
            },
            OpcodeKind::Invalid => None,
        }
    }
}

/// The fixed instruction table.
pub struct Opcodes {
    /// The descriptors, indexed by opcode byte for the fixed instructions.
    pub opcodes: Vec<Opcode>,
}

impl Opcodes {
    /// Builds the table.
    pub fn new() -> (r: Opcodes)
        ensures
            r.wf(),
    {
        let mut opcodes: Vec<Opcode> = Vec::new();
        opcodes.push(Opcode { kind: OpcodeKind::MovImm });
        opcodes.push(Opcode { kind: OpcodeKind::Mov });
        opcodes.push(Opcode { kind: OpcodeKind::Add });
        opcodes.push(Opcode { kind: OpcodeKind::AddImm });
        opcodes.push(Opcode { kind: OpcodeKind::Call });
        opcodes.push(Opcode { kind: OpcodeKind::Ret });
        opcodes.push(Opcode { kind: OpcodeKind::Yield });
        opcodes.push(Opcode { kind: OpcodeKind::Jmp });
        opcodes.push(Opcode { kind: OpcodeKind::SetVec });
        opcodes.push(Opcode { kind: OpcodeKind::Jnz });
        opcodes.push(Opcode { kind: OpcodeKind::CondJmp });
        opcodes.push(Opcode { kind: OpcodeKind::SetPalette });
        opcodes.push(Opcode { kind: OpcodeKind::ResetThreads });
        opcodes.push(Opcode { kind: OpcodeKind::SelectVideoPage });
        opcodes.push(Opcode { kind: OpcodeKind::FillVideoPage });
        opcodes.push(Opcode { kind: OpcodeKind::CopyVideoPage });
        opcodes.push(Opcode { kind: OpcodeKind::Blit });
        opcodes.push(Opcode { kind: OpcodeKind::Kill });
        opcodes.push(Opcode { kind: OpcodeKind::DrawString });
        opcodes.push(Opcode { kind: OpcodeKind::Sub });
        opcodes.push(Opcode { kind: OpcodeKind::And });
        opcodes.push(Opcode { kind: OpcodeKind::Or });
        opcodes.push(Opcode { kind: OpcodeKind::Shl });
        opcodes.push(Opcode { kind: OpcodeKind::Shr });
        opcodes.push(Opcode { kind: OpcodeKind::Sound });
        opcodes.push(Opcode { kind: OpcodeKind::LoadResource });
        opcodes.push(Opcode { kind: OpcodeKind::Music });
        proof {
            assert(forall|b: u8| b < 27 ==> (b & 0x80 == 0 && b & 0x40 == 0)) by (bit_vector);
        }
        Opcodes { opcodes }
    }

    /// Each fixed instruction sits at its opcode byte's index.
    pub open spec fn wf(self) -> bool {
        &&& self.opcodes@.len() == 27
        &&& forall|k: int|
            0 <= k < 27 ==> (#[trigger] self.opcodes@[k]).kind == spec_decode(k as u8)
    }

    /// The instruction an opcode byte selects, per [`spec_decode`].
    pub fn get(&self, opcode: u8) -> (r: Opcode)
        requires
            self.wf(),
        ensures
            r.kind == spec_decode(opcode),
    {
        if opcode & 0x80 != 0 {
            return Opcode { kind: OpcodeKind::DrawPolyBackground };
        }
        if opcode & 0x40 != 0 {
            return Opcode { kind: OpcodeKind::DrawPolySpecial };
        }
        if (opcode as usize) < 27 {
            return Opcode { kind: self.opcodes[opcode as usize].kind };
        }
        Opcode { kind: OpcodeKind::Invalid }
    }
}

} // verus!
