//! The instruction set: which cell values are instructions, and how many
//! operand cells follow each.
use vstd::prelude::*;

verus! {

/// An instruction.
#[derive(Clone, Copy, Debug, PartialEq, Eq, Structural)]
pub enum Opcode {
    /// Does nothing.
    Nop,
    /// Loads the cell at an address.
    LoadAbs,
    /// Stores the bus at an address.
    StoreAbs,
    /// Loads the cell a signed offset away from the instruction.
    LoadRel,
    /// Stores the bus a signed offset away from the instruction.
    StoreRel,
    /// Loads the cell at a base plus a constant.
    LoadOffK,
    /// Stores the bus at a base plus a constant.
    StoreOffK,
    /// Loads the cell that lies the signed value of the bus away from the
    /// instruction.
    LoadRelBus,
    /// Pushes the bus and adds.
    AluAdd,
    /// Pushes the bus and multiplies.
    AluMul,
    /// Pushes the bus and divides.
    AluDiv,
    /// Jumps to the address on the bus.
    Jump,
    /// Jumps to an address where the compare flag is set.
    JumpIf,
    /// Puts the address of the instruction on the bus where the compare flag
    /// is set.
    LinkIf,
    /// Puts the high result word on the bus.
    GetHi,
    /// Puts the low result word on the bus.
    GetLo,
    /// Switches the unit to integer mode, keeping bits.
    AluInt,
    /// Switches the unit to float mode, keeping bits.
    AluFloat,
    /// Appends a page to the memory.
    NewPage,
    /// Calls the host.
    Syscall,
    /// Halts the machine.
    Halt,
    /// Pauses the machine.
    Pause,
    /// Puts a constant on the bus.
    LoadImm,
    /// Pushes the bus.
    PushAlu,
    /// Loads the cell at a base plus the cell at another address.
    LoadOffV,
    /// Stores the bus at a base plus the cell at another address.
    StoreOffV,
    /// Puts the address of the instruction on the bus.
    GetIp,
    /// Compares under the relation that the operand selects.
    AluCmp,
    /// Pushes the bus and ors the integers.
    AluOr,
    /// Pushes the bus and ands the integers.
    AluAnd,
    /// Pushes the bus and shifts left.
    AluShl,
    /// Pushes the bus and shifts right.
    AluShr,
}

/// The instruction that a cell value stands for, if it stands for one.
pub open spec fn opcode_of(cell: u32) -> Option<Opcode> {
    if cell == 0 {
        Some(Opcode::Nop)
    } else if cell == 1 {
        Some(Opcode::LoadAbs)
    } else if cell == 2 {
        Some(Opcode::StoreAbs)
    } else if cell == 3 {
        Some(Opcode::LoadRel)
    } else if cell == 4 {
        Some(Opcode::StoreRel)
    } else if cell == 5 {
        Some(Opcode::LoadOffK)
    } else if cell == 6 {
        Some(Opcode::StoreOffK)
    } else if cell == 7 {
        Some(Opcode::LoadRelBus)
    } else if cell == 9 {
        Some(Opcode::AluAdd)
    } else if cell == 11 {
        Some(Opcode::AluMul)
    } else if cell == 12 {
        Some(Opcode::AluDiv)
    } else if cell == 13 {
        Some(Opcode::Jump)
    } else if cell == 14 {
        Some(Opcode::JumpIf)
    } else if cell == 15 {
        Some(Opcode::LinkIf)
    } else if cell == 16 {
        Some(Opcode::GetHi)
    } else if cell == 17 {
        Some(Opcode::GetLo)
    } else if cell == 18 {
        Some(Opcode::AluInt)
    } else if cell == 19 {
        Some(Opcode::AluFloat)
    } else if cell == 20 {
        Some(Opcode::NewPage)
    } else if cell == 21 {
        Some(Opcode::Syscall)
    } else if cell == 22 {
        Some(Opcode::Halt)
    } else if cell == 23 {
        Some(Opcode::Pause)
    } else if cell == 24 {
        Some(Opcode::LoadImm)
    } else if cell == 25 {
        Some(Opcode::PushAlu)
    } else if cell == 26 {
        Some(Opcode::LoadOffV)
    } else if cell == 27 {
        Some(Opcode::StoreOffV)
    } else if cell == 28 {
        Some(Opcode::GetIp)
    } else if cell == 29 {
        Some(Opcode::AluCmp)
    } else if cell == 30 {
        Some(Opcode::AluOr)
    } else if cell == 31 {
        Some(Opcode::AluAnd)
    } else if cell == 32 {
        Some(Opcode::AluShl)
    } else if cell == 33 {
        Some(Opcode::AluShr)
    } else {
        None
    }
}

/// Decodes a cell: the instruction it stands for, or `None`.
pub fn decode(cell: u32) -> (r: Option<Opcode>)
    ensures
        r == opcode_of(cell),
{
    match cell {
        0 => Some(Opcode::Nop),
        1 => Some(Opcode::LoadAbs),
        2 => Some(Opcode::StoreAbs),
        3 => Some(Opcode::LoadRel),
        4 => Some(Opcode::StoreRel),
        5 => Some(Opcode::LoadOffK),
        6 => Some(Opcode::StoreOffK),
        7 => Some(Opcode::LoadRelBus),
        9 => Some(Opcode::AluAdd),
        11 => Some(Opcode::AluMul),
        12 => Some(Opcode::AluDiv),
        13 => Some(Opcode::Jump),
        14 => Some(Opcode::JumpIf),
        15 => Some(Opcode::LinkIf),
        16 => Some(Opcode::GetHi),
        17 => Some(Opcode::GetLo),
        18 => Some(Opcode::AluInt),
        19 => Some(Opcode::AluFloat),
        20 => Some(Opcode::NewPage),
        21 => Some(Opcode::Syscall),
        22 => Some(Opcode::Halt),
        23 => Some(Opcode::Pause),
        24 => Some(Opcode::LoadImm),
        25 => Some(Opcode::PushAlu),
        26 => Some(Opcode::LoadOffV),
        27 => Some(Opcode::StoreOffV),
        28 => Some(Opcode::GetIp),
        29 => Some(Opcode::AluCmp),
        30 => Some(Opcode::AluOr),
        31 => Some(Opcode::AluAnd),
        32 => Some(Opcode::AluShl),
        33 => Some(Opcode::AluShr),
        _ => None,
    }
}

impl Opcode {
    /// The number of cells after the opcode that the instruction reads as
    /// operands.
    pub open spec fn operands(self) -> nat {
        match self {
            Opcode::LoadAbs
            | Opcode::StoreAbs
            | Opcode::LoadRel
            | Opcode::StoreRel
            | Opcode::JumpIf
            | Opcode::Syscall
            | Opcode::LoadImm
            | Opcode::AluCmp => 1,
            Opcode::LoadOffK | Opcode::StoreOffK | Opcode::LoadOffV | Opcode::StoreOffV => 2,
            _ => 0,
        }
    }

    /// The number of operand cells of the instruction.
    pub fn operand_count(self) -> (r: u32)
        ensures
            r == self.operands(),
    {
        match self {
            Opcode::LoadAbs
            | Opcode::StoreAbs
            | Opcode::LoadRel
            | Opcode::StoreRel
            | Opcode::JumpIf
            | Opcode::Syscall
            | Opcode::LoadImm
            | Opcode::AluCmp => 1,
            Opcode::LoadOffK | Opcode::StoreOffK | Opcode::LoadOffV | Opcode::StoreOffV => 2,
            _ => 0,
        }
    }
}

} // verus!
