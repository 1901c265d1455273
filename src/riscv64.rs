//! The riscv64 register catalog: the 32 general-purpose and 32 floating-point
//! registers, each at its DWARF number's slot of its register file.

use vstd::prelude::*;

use crate::register_info::{RegisterFormat, RegisterType, RegisterWidth};

verus! {

/// Registers of riscv64. The calling convention has the caller save the
/// temporaries (t registers) and the callee save the s registers.
#[derive(Clone, Copy, Debug, Hash, PartialEq, Eq, Structural)]
pub enum Register {
    /// `zero`
    X0,
    /// `ra`
    X1,
    /// `sp`
    X2,
    /// `gp`
    X3,
    /// `tp`
    X4,
    /// `t0`
    X5,
    /// `t1`
    X6,
    /// `t2`
    X7,
    /// `s0/fp`
    X8,
    /// `s1`
    X9,
    /// `a0`
    X10,
    /// `a1`
    X11,
    /// `a2`
    X12,
    /// `a3`
    X13,
    /// `a4`
    X14,
    /// `a5`
    X15,
    /// `a6`
    X16,
    /// `a7`
    X17,
    /// `s2`
    X18,
    /// `s3`
    X19,
    /// `s4`
    X20,
    /// `s5`
    X21,
    /// `s6`
    X22,
    /// `s7`
    X23,
    /// `s8`
    X24,
    /// `s9`
    X25,
    /// `s10`
    X26,
    /// `s11`
    X27,
    /// `t3`
    X28,
    /// `t4`
    X29,
    /// `t5`
    X30,
    /// `t6`
    X31,
    /// `ft0`
    F0,
    /// `ft1`
    F1,
    /// `ft2`
    F2,
    /// `ft3`
    F3,
    /// `ft4`
    F4,
    /// `ft5`
    F5,
    /// `ft6`
    F6,
    /// `ft7`
    F7,
    /// `fs0`
    F8,
    /// `fs1`
    F9,
    /// `fa0`
    F10,
    /// `fa1`
    F11,
    /// `fa2`
    F12,
    /// `fa3`
    F13,
    /// `fa4`
    F14,
    /// `fa5`
    F15,
    /// `fa6`
    F16,
    /// `fa7`
    F17,
    /// `fs2`
    F18,
    /// `fs3`
    F19,
    /// `fs4`
    F20,
    /// `fs5`
    F21,
    /// `fs6`
    F22,
    /// `fs7`
    F23,
    /// `fs8`
    F24,
    /// `fs9`
    F25,
    /// `fs10`
    F26,
    /// `fs11`
    F27,
    /// `ft8`
    F28,
    /// `ft9`
    F29,
    /// `ft10`
    F30,
    /// `ft11`
    F31,
}

/// Declarative metadata of a register.
#[derive(Clone, Copy, Debug)]
pub struct RegisterDecl {
    pub register: Register,
    pub name: &'static str,
    pub dwarf: i32,
    pub width: RegisterWidth,
    pub reg_type: RegisterType,
    pub format: RegisterFormat,
}

/// Fully derived register metadata.
#[derive(Clone, Copy, Debug)]
pub struct RegisterInfo {
    pub register: Register,
    pub name: &'static str,
    pub dwarf_id: i32,
    /// Byte offset of the register within its register file.
    pub offset: usize,
    /// Size in bytes of the register's value.
    pub size: usize,
    pub width: RegisterWidth,
    pub register_type: RegisterType,
    pub format: RegisterFormat,
}

/// The number of registers in the catalog.
pub const REGISTER_COUNT: usize = 64;

impl RegisterDecl {
    /// Byte offset of the register in its file: every register is as wide as
    /// the others of its file, and its DWARF number counts the slots from 0 to 31.
    pub open spec fn spec_offset(self) -> nat {
        ((self.dwarf % 32) as nat) * self.width.spec_bytes()
    }

    /// Byte offset of the register in its file.
    pub fn offset(&self) -> (r: usize)
        requires
            self.dwarf >= 0,
        ensures
            r == self.spec_offset(),
    {
        let slot = (self.dwarf % 32) as usize;
        let bytes = self.width.bytes();
        proof {
            assert(slot * bytes <= 31 * 16) by (nonlinear_arith)
                requires
                    slot <= 31,
                    bytes <= 16,
            ;
        }
        slot * bytes
    }
}

/// The metadata that a declaration derives.
pub open spec fn info_from_decl(d: RegisterDecl) -> RegisterInfo {
    RegisterInfo {
        register: d.register,
        name: d.name,
        dwarf_id: d.dwarf,
        offset: d.spec_offset() as usize,
        size: d.width.spec_bytes() as usize,
        width: d.width,
        register_type: d.reg_type,
        format: d.format,
    }
}

impl RegisterInfo {
    /// Derives the full metadata of a declaration.
    pub fn from_decl(decl: &RegisterDecl) -> (r: RegisterInfo)
        requires
            decl.dwarf >= 0,
        ensures
            r == info_from_decl(*decl),
    {
        RegisterInfo {
            register: decl.register,
            name: decl.name,
            dwarf_id: decl.dwarf,
            offset: decl.offset(),
            size: decl.width.bytes(),
            width: decl.width,
            register_type: decl.reg_type,
            format: decl.format,
        }
    }
}

/// The declaration at each position of the catalog.
pub open spec fn decl_at(i: nat) -> Option<RegisterDecl> {
    if i == 0 {
        Some(RegisterDecl { register: Register::X0, name: "x0", dwarf: 0, width: RegisterWidth::W64, reg_type: RegisterType::GeneralPurpose, format: RegisterFormat::Uint64 })
    } else if i == 1 {
        Some(RegisterDecl { register: Register::X1, name: "x1", dwarf: 1, width: RegisterWidth::W64, reg_type: RegisterType::GeneralPurpose, format: RegisterFormat::Uint64 })
    } else if i == 2 {
        Some(RegisterDecl { register: Register::X2, name: "x2", dwarf: 2, width: RegisterWidth::W64, reg_type: RegisterType::GeneralPurpose, format: RegisterFormat::Uint64 })
    } else if i == 3 {
        Some(RegisterDecl { register: Register::X3, name: "x3", dwarf: 3, width: RegisterWidth::W64, reg_type: RegisterType::GeneralPurpose, format: RegisterFormat::Uint64 })
    } else if i == 4 {
        Some(RegisterDecl { register: Register::X4, name: "x4", dwarf: 4, width: RegisterWidth::W64, reg_type: RegisterType::GeneralPurpose, format: RegisterFormat::Uint64 })
    } else if i == 5 {
        Some(RegisterDecl { register: Register::X5, name: "x5", dwarf: 5, width: RegisterWidth::W64, reg_type: RegisterType::GeneralPurpose, format: RegisterFormat::Uint64 })
    } else if i == 6 {
        Some(RegisterDecl { register: Register::X6, name: "x6", dwarf: 6, width: RegisterWidth::W64, reg_type: RegisterType::GeneralPurpose, format: RegisterFormat::Uint64 })
    } else if i == 7 {
        Some(RegisterDecl { register: Register::X7, name: "x7", dwarf: 7, width: RegisterWidth::W64, reg_type: RegisterType::GeneralPurpose, format: RegisterFormat::Uint64 })
    } else if i == 8 {
        Some(RegisterDecl { register: Register::X8, name: "x8", dwarf: 8, width: RegisterWidth::W64, reg_type: RegisterType::GeneralPurpose, format: RegisterFormat::Uint64 })
    } else if i == 9 {
        Some(RegisterDecl { register: Register::X9, name: "x9", dwarf: 9, width: RegisterWidth::W64, reg_type: RegisterType::GeneralPurpose, format: RegisterFormat::Uint64 })
    } else if i == 10 {
        Some(RegisterDecl { register: Register::X10, name: "x10", dwarf: 10, width: RegisterWidth::W64, reg_type: RegisterType::GeneralPurpose, format: RegisterFormat::Uint64 })
    } else if i == 11 {
        Some(RegisterDecl { register: Register::X11, name: "x11", dwarf: 11, width: RegisterWidth::W64, reg_type: RegisterType::GeneralPurpose, format: RegisterFormat::Uint64 })
    } else if i == 12 {
        Some(RegisterDecl { register: Register::X12, name: "x12", dwarf: 12, width: RegisterWidth::W64, reg_type: RegisterType::GeneralPurpose, format: RegisterFormat::Uint64 })
    } else if i == 13 {
        Some(RegisterDecl { register: Register::X13, name: "x13", dwarf: 13, width: RegisterWidth::W64, reg_type: RegisterType::GeneralPurpose, format: RegisterFormat::Uint64 })
    } else if i == 14 {
        Some(RegisterDecl { register: Register::X14, name: "x14", dwarf: 14, width: RegisterWidth::W64, reg_type: RegisterType::GeneralPurpose, format: RegisterFormat::Uint64 })
    } else if i == 15 {
        Some(RegisterDecl { register: Register::X15, name: "x15", dwarf: 15, width: RegisterWidth::W64, reg_type: RegisterType::GeneralPurpose, format: RegisterFormat::Uint64 })
    } else if i == 16 {
        Some(RegisterDecl { register: Register::X16, name: "x16", dwarf: 16, width: RegisterWidth::W64, reg_type: RegisterType::GeneralPurpose, format: RegisterFormat::Uint64 })
    } else if i == 17 {
        Some(RegisterDecl { register: Register::X17, name: "x17", dwarf: 17, width: RegisterWidth::W64, reg_type: RegisterType::GeneralPurpose, format: RegisterFormat::Uint64 })
    } else if i == 18 {
        Some(RegisterDecl { register: Register::X18, name: "x18", dwarf: 18, width: RegisterWidth::W64, reg_type: RegisterType::GeneralPurpose, format: RegisterFormat::Uint64 })
    } else if i == 19 {
        Some(RegisterDecl { register: Register::X19, name: "x19", dwarf: 19, width: RegisterWidth::W64, reg_type: RegisterType::GeneralPurpose, format: RegisterFormat::Uint64 })
    } else if i == 20 {
        Some(RegisterDecl { register: Register::X20, name: "x20", dwarf: 20, width: RegisterWidth::W64, reg_type: RegisterType::GeneralPurpose, format: RegisterFormat::Uint64 })
    } else if i == 21 {
        Some(RegisterDecl { register: Register::X21, name: "x21", dwarf: 21, width: RegisterWidth::W64, reg_type: RegisterType::GeneralPurpose, format: RegisterFormat::Uint64 })
    } else if i == 22 {
        Some(RegisterDecl { register: Register::X22, name: "x22", dwarf: 22, width: RegisterWidth::W64, reg_type: RegisterType::GeneralPurpose, format: RegisterFormat::Uint64 })
    } else if i == 23 {
        Some(RegisterDecl { register: Register::X23, name: "x23", dwarf: 23, width: RegisterWidth::W64, reg_type: RegisterType::GeneralPurpose, format: RegisterFormat::Uint64 })
    } else if i == 24 {
        Some(RegisterDecl { register: Register::X24, name: "x24", dwarf: 24, width: RegisterWidth::W64, reg_type: RegisterType::GeneralPurpose, format: RegisterFormat::Uint64 })
    } else if i == 25 {
        Some(RegisterDecl { register: Register::X25, name: "x25", dwarf: 25, width: RegisterWidth::W64, reg_type: RegisterType::GeneralPurpose, format: RegisterFormat::Uint64 })
    } else if i == 26 {
        Some(RegisterDecl { register: Register::X26, name: "x26", dwarf: 26, width: RegisterWidth::W64, reg_type: RegisterType::GeneralPurpose, format: RegisterFormat::Uint64 })
    } else if i == 27 {
        Some(RegisterDecl { register: Register::X27, name: "x27", dwarf: 27, width: RegisterWidth::W64, reg_type: RegisterType::GeneralPurpose, format: RegisterFormat::Uint64 })
    } else if i == 28 {
        Some(RegisterDecl { register: Register::X28, name: "x28", dwarf: 28, width: RegisterWidth::W64, reg_type: RegisterType::GeneralPurpose, format: RegisterFormat::Uint64 })
    } else if i == 29 {
        Some(RegisterDecl { register: Register::X29, name: "x29", dwarf: 29, width: RegisterWidth::W64, reg_type: RegisterType::GeneralPurpose, format: RegisterFormat::Uint64 })
    } else if i == 30 {
        Some(RegisterDecl { register: Register::X30, name: "x30", dwarf: 30, width: RegisterWidth::W64, reg_type: RegisterType::GeneralPurpose, format: RegisterFormat::Uint64 })
    } else if i == 31 {
        Some(RegisterDecl { register: Register::X31, name: "x31", dwarf: 31, width: RegisterWidth::W64, reg_type: RegisterType::GeneralPurpose, format: RegisterFormat::Uint64 })
    } else if i == 32 {
        Some(RegisterDecl { register: Register::F0, name: "f0", dwarf: 0, width: RegisterWidth::W64, reg_type: RegisterType::FloatingPoint, format: RegisterFormat::Double })
    } else if i == 33 {
        Some(RegisterDecl { register: Register::F1, name: "f1", dwarf: 1, width: RegisterWidth::W64, reg_type: RegisterType::FloatingPoint, format: RegisterFormat::Double })
    } else if i == 34 {
        Some(RegisterDecl { register: Register::F2, name: "f2", dwarf: 2, width: RegisterWidth::W64, reg_type: RegisterType::FloatingPoint, format: RegisterFormat::Double })
    } else if i == 35 {
        Some(RegisterDecl { register: Register::F3, name: "f3", dwarf: 3, width: RegisterWidth::W64, reg_type: RegisterType::FloatingPoint, format: RegisterFormat::Double })
    } else if i == 36 {
        Some(RegisterDecl { register: Register::F4, name: "f4", dwarf: 4, width: RegisterWidth::W64, reg_type: RegisterType::FloatingPoint, format: RegisterFormat::Double })
    } else if i == 37 {
        Some(RegisterDecl { register: Register::F5, name: "f5", dwarf: 5, width: RegisterWidth::W64, reg_type: RegisterType::FloatingPoint, format: RegisterFormat::Double })
    } else if i == 38 {
        Some(RegisterDecl { register: Register::F6, name: "f6", dwarf: 6, width: RegisterWidth::W64, reg_type: RegisterType::FloatingPoint, format: RegisterFormat::Double })
    } else if i == 39 {
        Some(RegisterDecl { register: Register::F7, name: "f7", dwarf: 7, width: RegisterWidth::W64, reg_type: RegisterType::FloatingPoint, format: RegisterFormat::Double })
    } else if i == 40 {
        Some(RegisterDecl { register: Register::F8, name: "f8", dwarf: 8, width: RegisterWidth::W64, reg_type: RegisterType::FloatingPoint, format: RegisterFormat::Double })
    } else if i == 41 {
        Some(RegisterDecl { register: Register::F9, name: "f9", dwarf: 9, width: RegisterWidth::W64, reg_type: RegisterType::FloatingPoint, format: RegisterFormat::Double })
    } else if i == 42 {
        Some(RegisterDecl { register: Register::F10, name: "f10", dwarf: 10, width: RegisterWidth::W64, reg_type: RegisterType::FloatingPoint, format: RegisterFormat::Double })
    } else if i == 43 {
        Some(RegisterDecl { register: Register::F11, name: "f11", dwarf: 11, width: RegisterWidth::W64, reg_type: RegisterType::FloatingPoint, format: RegisterFormat::Double })
    } else if i == 44 {
        Some(RegisterDecl { register: Register::F12, name: "f12", dwarf: 12, width: RegisterWidth::W64, reg_type: RegisterType::FloatingPoint, format: RegisterFormat::Double })
    } else if i == 45 {
        Some(RegisterDecl { register: Register::F13, name: "f13", dwarf: 13, width: RegisterWidth::W64, reg_type: RegisterType::FloatingPoint, format: RegisterFormat::Double })
    } else if i == 46 {
        Some(RegisterDecl { register: Register::F14, name: "f14", dwarf: 14, width: RegisterWidth::W64, reg_type: RegisterType::FloatingPoint, format: RegisterFormat::Double })
    } else if i == 47 {
        Some(RegisterDecl { register: Register::F15, name: "f15", dwarf: 15, width: RegisterWidth::W64, reg_type: RegisterType::FloatingPoint, format: RegisterFormat::Double })
    } else if i == 48 {
        Some(RegisterDecl { register: Register::F16, name: "f16", dwarf: 16, width: RegisterWidth::W64, reg_type: RegisterType::FloatingPoint, format: RegisterFormat::Double })
    } else if i == 49 {
        Some(RegisterDecl { register: Register::F17, name: "f17", dwarf: 17, width: RegisterWidth::W64, reg_type: RegisterType::FloatingPoint, format: RegisterFormat::Double })
    } else if i == 50 {
        Some(RegisterDecl { register: Register::F18, name: "f18", dwarf: 18, width: RegisterWidth::W64, reg_type: RegisterType::FloatingPoint, format: RegisterFormat::Double })
    } else if i == 51 {
        Some(RegisterDecl { register: Register::F19, name: "f19", dwarf: 19, width: RegisterWidth::W64, reg_type: RegisterType::FloatingPoint, format: RegisterFormat::Double })
    } else if i == 52 {
        Some(RegisterDecl { register: Register::F20, name: "f20", dwarf: 20, width: RegisterWidth::W64, reg_type: RegisterType::FloatingPoint, format: RegisterFormat::Double })
    } else if i == 53 {
        Some(RegisterDecl { register: Register::F21, name: "f21", dwarf: 21, width: RegisterWidth::W64, reg_type: RegisterType::FloatingPoint, format: RegisterFormat::Double })
    } else if i == 54 {
        Some(RegisterDecl { register: Register::F22, name: "f22", dwarf: 22, width: RegisterWidth::W64, reg_type: RegisterType::FloatingPoint, format: RegisterFormat::Double })
    } else if i == 55 {
        Some(RegisterDecl { register: Register::F23, name: "f23", dwarf: 23, width: RegisterWidth::W64, reg_type: RegisterType::FloatingPoint, format: RegisterFormat::Double })
    } else if i == 56 {
        Some(RegisterDecl { register: Register::F24, name: "f24", dwarf: 24, width: RegisterWidth::W64, reg_type: RegisterType::FloatingPoint, format: RegisterFormat::Double })
    } else if i == 57 {
        Some(RegisterDecl { register: Register::F25, name: "f25", dwarf: 25, width: RegisterWidth::W64, reg_type: RegisterType::FloatingPoint, format: RegisterFormat::Double })
    } else if i == 58 {
        Some(RegisterDecl { register: Register::F26, name: "f26", dwarf: 26, width: RegisterWidth::W64, reg_type: RegisterType::FloatingPoint, format: RegisterFormat::Double })
    } else if i == 59 {
        Some(RegisterDecl { register: Register::F27, name: "f27", dwarf: 27, width: RegisterWidth::W64, reg_type: RegisterType::FloatingPoint, format: RegisterFormat::Double })
    } else if i == 60 {
        Some(RegisterDecl { register: Register::F28, name: "f28", dwarf: 28, width: RegisterWidth::W64, reg_type: RegisterType::FloatingPoint, format: RegisterFormat::Double })
    } else if i == 61 {
        Some(RegisterDecl { register: Register::F29, name: "f29", dwarf: 29, width: RegisterWidth::W64, reg_type: RegisterType::FloatingPoint, format: RegisterFormat::Double })
    } else if i == 62 {
        Some(RegisterDecl { register: Register::F30, name: "f30", dwarf: 30, width: RegisterWidth::W64, reg_type: RegisterType::FloatingPoint, format: RegisterFormat::Double })
    } else if i == 63 {
        Some(RegisterDecl { register: Register::F31, name: "f31", dwarf: 31, width: RegisterWidth::W64, reg_type: RegisterType::FloatingPoint, format: RegisterFormat::Double })
    } else {
        None
    }
}

/// The declaration at position `i` of the catalog, if there is one.
pub fn register_decl_at(i: usize) -> (r: Option<RegisterDecl>)
    ensures
        r == decl_at(i as nat),
{
    match i {
        0 => return Some(RegisterDecl { register: Register::X0, name: "x0", dwarf: 0, width: RegisterWidth::W64, reg_type: RegisterType::GeneralPurpose, format: RegisterFormat::Uint64 }),
        1 => return Some(RegisterDecl { register: Register::X1, name: "x1", dwarf: 1, width: RegisterWidth::W64, reg_type: RegisterType::GeneralPurpose, format: RegisterFormat::Uint64 }),
        2 => return Some(RegisterDecl { register: Register::X2, name: "x2", dwarf: 2, width: RegisterWidth::W64, reg_type: RegisterType::GeneralPurpose, format: RegisterFormat::Uint64 }),
        3 => return Some(RegisterDecl { register: Register::X3, name: "x3", dwarf: 3, width: RegisterWidth::W64, reg_type: RegisterType::GeneralPurpose, format: RegisterFormat::Uint64 }),
        4 => return Some(RegisterDecl { register: Register::X4, name: "x4", dwarf: 4, width: RegisterWidth::W64, reg_type: RegisterType::GeneralPurpose, format: RegisterFormat::Uint64 }),
        5 => return Some(RegisterDecl { register: Register::X5, name: "x5", dwarf: 5, width: RegisterWidth::W64, reg_type: RegisterType::GeneralPurpose, format: RegisterFormat::Uint64 }),
        6 => return Some(RegisterDecl { register: Register::X6, name: "x6", dwarf: 6, width: RegisterWidth::W64, reg_type: RegisterType::GeneralPurpose, format: RegisterFormat::Uint64 }),
        7 => return Some(RegisterDecl { register: Register::X7, name: "x7", dwarf: 7, width: RegisterWidth::W64, reg_type: RegisterType::GeneralPurpose, format: RegisterFormat::Uint64 }),
        8 => return Some(RegisterDecl { register: Register::X8, name: "x8", dwarf: 8, width: RegisterWidth::W64, reg_type: RegisterType::GeneralPurpose, format: RegisterFormat::Uint64 }),
        9 => return Some(RegisterDecl { register: Register::X9, name: "x9", dwarf: 9, width: RegisterWidth::W64, reg_type: RegisterType::GeneralPurpose, format: RegisterFormat::Uint64 }),
        10 => return Some(RegisterDecl { register: Register::X10, name: "x10", dwarf: 10, width: RegisterWidth::W64, reg_type: RegisterType::GeneralPurpose, format: RegisterFormat::Uint64 }),
        11 => return Some(RegisterDecl { register: Register::X11, name: "x11", dwarf: 11, width: RegisterWidth::W64, reg_type: RegisterType::GeneralPurpose, format: RegisterFormat::Uint64 }),
        12 => return Some(RegisterDecl { register: Register::X12, name: "x12", dwarf: 12, width: RegisterWidth::W64, reg_type: RegisterType::GeneralPurpose, format: RegisterFormat::Uint64 }),
        13 => return Some(RegisterDecl { register: Register::X13, name: "x13", dwarf: 13, width: RegisterWidth::W64, reg_type: RegisterType::GeneralPurpose, format: RegisterFormat::Uint64 }),
        14 => return Some(RegisterDecl { register: Register::X14, name: "x14", dwarf: 14, width: RegisterWidth::W64, reg_type: RegisterType::GeneralPurpose, format: RegisterFormat::Uint64 }),
        15 => return Some(RegisterDecl { register: Register::X15, name: "x15", dwarf: 15, width: RegisterWidth::W64, reg_type: RegisterType::GeneralPurpose, format: RegisterFormat::Uint64 }),
        16 => return Some(RegisterDecl { register: Register::X16, name: "x16", dwarf: 16, width: RegisterWidth::W64, reg_type: RegisterType::GeneralPurpose, format: RegisterFormat::Uint64 }),
        17 => return Some(RegisterDecl { register: Register::X17, name: "x17", dwarf: 17, width: RegisterWidth::W64, reg_type: RegisterType::GeneralPurpose, format: RegisterFormat::Uint64 }),
        18 => return Some(RegisterDecl { register: Register::X18, name: "x18", dwarf: 18, width: RegisterWidth::W64, reg_type: RegisterType::GeneralPurpose, format: RegisterFormat::Uint64 }),
        19 => return Some(RegisterDecl { register: Register::X19, name: "x19", dwarf: 19, width: RegisterWidth::W64, reg_type: RegisterType::GeneralPurpose, format: RegisterFormat::Uint64 }),
        20 => return Some(RegisterDecl { register: Register::X20, name: "x20", dwarf: 20, width: RegisterWidth::W64, reg_type: RegisterType::GeneralPurpose, format: RegisterFormat::Uint64 }),
        21 => return Some(RegisterDecl { register: Register::X21, name: "x21", dwarf: 21, width: RegisterWidth::W64, reg_type: RegisterType::GeneralPurpose, format: RegisterFormat::Uint64 }),
        22 => return Some(RegisterDecl { register: Register::X22, name: "x22", dwarf: 22, width: RegisterWidth::W64, reg_type: RegisterType::GeneralPurpose, format: RegisterFormat::Uint64 }),
        23 => return Some(RegisterDecl { register: Register::X23, name: "x23", dwarf: 23, width: RegisterWidth::W64, reg_type: RegisterType::GeneralPurpose, format: RegisterFormat::Uint64 }),
        24 => return Some(RegisterDecl { register: Register::X24, name: "x24", dwarf: 24, width: RegisterWidth::W64, reg_type: RegisterType::GeneralPurpose, format: RegisterFormat::Uint64 }),
        25 => return Some(RegisterDecl { register: Register::X25, name: "x25", dwarf: 25, width: RegisterWidth::W64, reg_type: RegisterType::GeneralPurpose, format: RegisterFormat::Uint64 }),
        26 => return Some(RegisterDecl { register: Register::X26, name: "x26", dwarf: 26, width: RegisterWidth::W64, reg_type: RegisterType::GeneralPurpose, format: RegisterFormat::Uint64 }),
        27 => return Some(RegisterDecl { register: Register::X27, name: "x27", dwarf: 27, width: RegisterWidth::W64, reg_type: RegisterType::GeneralPurpose, format: RegisterFormat::Uint64 }),
        28 => return Some(RegisterDecl { register: Register::X28, name: "x28", dwarf: 28, width: RegisterWidth::W64, reg_type: RegisterType::GeneralPurpose, format: RegisterFormat::Uint64 }),
        29 => return Some(RegisterDecl { register: Register::X29, name: "x29", dwarf: 29, width: RegisterWidth::W64, reg_type: RegisterType::GeneralPurpose, format: RegisterFormat::Uint64 }),
        30 => return Some(RegisterDecl { register: Register::X30, name: "x30", dwarf: 30, width: RegisterWidth::W64, reg_type: RegisterType::GeneralPurpose, format: RegisterFormat::Uint64 }),
        31 => return Some(RegisterDecl { register: Register::X31, name: "x31", dwarf: 31, width: RegisterWidth::W64, reg_type: RegisterType::GeneralPurpose, format: RegisterFormat::Uint64 }),
        32 => return Some(RegisterDecl { register: Register::F0, name: "f0", dwarf: 0, width: RegisterWidth::W64, reg_type: RegisterType::FloatingPoint, format: RegisterFormat::Double }),
        33 => return Some(RegisterDecl { register: Register::F1, name: "f1", dwarf: 1, width: RegisterWidth::W64, reg_type: RegisterType::FloatingPoint, format: RegisterFormat::Double }),
        34 => return Some(RegisterDecl { register: Register::F2, name: "f2", dwarf: 2, width: RegisterWidth::W64, reg_type: RegisterType::FloatingPoint, format: RegisterFormat::Double }),
        35 => return Some(RegisterDecl { register: Register::F3, name: "f3", dwarf: 3, width: RegisterWidth::W64, reg_type: RegisterType::FloatingPoint, format: RegisterFormat::Double }),
        36 => return Some(RegisterDecl { register: Register::F4, name: "f4", dwarf: 4, width: RegisterWidth::W64, reg_type: RegisterType::FloatingPoint, format: RegisterFormat::Double }),
        37 => return Some(RegisterDecl { register: Register::F5, name: "f5", dwarf: 5, width: RegisterWidth::W64, reg_type: RegisterType::FloatingPoint, format: RegisterFormat::Double }),
        38 => return Some(RegisterDecl { register: Register::F6, name: "f6", dwarf: 6, width: RegisterWidth::W64, reg_type: RegisterType::FloatingPoint, format: RegisterFormat::Double }),
        39 => return Some(RegisterDecl { register: Register::F7, name: "f7", dwarf: 7, width: RegisterWidth::W64, reg_type: RegisterType::FloatingPoint, format: RegisterFormat::Double }),
        40 => return Some(RegisterDecl { register: Register::F8, name: "f8", dwarf: 8, width: RegisterWidth::W64, reg_type: RegisterType::FloatingPoint, format: RegisterFormat::Double }),
        41 => return Some(RegisterDecl { register: Register::F9, name: "f9", dwarf: 9, width: RegisterWidth::W64, reg_type: RegisterType::FloatingPoint, format: RegisterFormat::Double }),
        42 => return Some(RegisterDecl { register: Register::F10, name: "f10", dwarf: 10, width: RegisterWidth::W64, reg_type: RegisterType::FloatingPoint, format: RegisterFormat::Double }),
        43 => return Some(RegisterDecl { register: Register::F11, name: "f11", dwarf: 11, width: RegisterWidth::W64, reg_type: RegisterType::FloatingPoint, format: RegisterFormat::Double }),
        44 => return Some(RegisterDecl { register: Register::F12, name: "f12", dwarf: 12, width: RegisterWidth::W64, reg_type: RegisterType::FloatingPoint, format: RegisterFormat::Double }),
        45 => return Some(RegisterDecl { register: Register::F13, name: "f13", dwarf: 13, width: RegisterWidth::W64, reg_type: RegisterType::FloatingPoint, format: RegisterFormat::Double }),
        46 => return Some(RegisterDecl { register: Register::F14, name: "f14", dwarf: 14, width: RegisterWidth::W64, reg_type: RegisterType::FloatingPoint, format: RegisterFormat::Double }),
        47 => return Some(RegisterDecl { register: Register::F15, name: "f15", dwarf: 15, width: RegisterWidth::W64, reg_type: RegisterType::FloatingPoint, format: RegisterFormat::Double }),
        48 => return Some(RegisterDecl { register: Register::F16, name: "f16", dwarf: 16, width: RegisterWidth::W64, reg_type: RegisterType::FloatingPoint, format: RegisterFormat::Double }),
        49 => return Some(RegisterDecl { register: Register::F17, name: "f17", dwarf: 17, width: RegisterWidth::W64, reg_type: RegisterType::FloatingPoint, format: RegisterFormat::Double }),
        50 => return Some(RegisterDecl { register: Register::F18, name: "f18", dwarf: 18, width: RegisterWidth::W64, reg_type: RegisterType::FloatingPoint, format: RegisterFormat::Double }),
        51 => return Some(RegisterDecl { register: Register::F19, name: "f19", dwarf: 19, width: RegisterWidth::W64, reg_type: RegisterType::FloatingPoint, format: RegisterFormat::Double }),
        52 => return Some(RegisterDecl { register: Register::F20, name: "f20", dwarf: 20, width: RegisterWidth::W64, reg_type: RegisterType::FloatingPoint, format: RegisterFormat::Double }),
        53 => return Some(RegisterDecl { register: Register::F21, name: "f21", dwarf: 21, width: RegisterWidth::W64, reg_type: RegisterType::FloatingPoint, format: RegisterFormat::Double }),
        54 => return Some(RegisterDecl { register: Register::F22, name: "f22", dwarf: 22, width: RegisterWidth::W64, reg_type: RegisterType::FloatingPoint, format: RegisterFormat::Double }),
        55 => return Some(RegisterDecl { register: Register::F23, name: "f23", dwarf: 23, width: RegisterWidth::W64, reg_type: RegisterType::FloatingPoint, format: RegisterFormat::Double }),
        56 => return Some(RegisterDecl { register: Register::F24, name: "f24", dwarf: 24, width: RegisterWidth::W64, reg_type: RegisterType::FloatingPoint, format: RegisterFormat::Double }),
        57 => return Some(RegisterDecl { register: Register::F25, name: "f25", dwarf: 25, width: RegisterWidth::W64, reg_type: RegisterType::FloatingPoint, format: RegisterFormat::Double }),
        58 => return Some(RegisterDecl { register: Register::F26, name: "f26", dwarf: 26, width: RegisterWidth::W64, reg_type: RegisterType::FloatingPoint, format: RegisterFormat::Double }),
        59 => return Some(RegisterDecl { register: Register::F27, name: "f27", dwarf: 27, width: RegisterWidth::W64, reg_type: RegisterType::FloatingPoint, format: RegisterFormat::Double }),
        60 => return Some(RegisterDecl { register: Register::F28, name: "f28", dwarf: 28, width: RegisterWidth::W64, reg_type: RegisterType::FloatingPoint, format: RegisterFormat::Double }),
        61 => return Some(RegisterDecl { register: Register::F29, name: "f29", dwarf: 29, width: RegisterWidth::W64, reg_type: RegisterType::FloatingPoint, format: RegisterFormat::Double }),
        62 => return Some(RegisterDecl { register: Register::F30, name: "f30", dwarf: 30, width: RegisterWidth::W64, reg_type: RegisterType::FloatingPoint, format: RegisterFormat::Double }),
        63 => return Some(RegisterDecl { register: Register::F31, name: "f31", dwarf: 31, width: RegisterWidth::W64, reg_type: RegisterType::FloatingPoint, format: RegisterFormat::Double }),
        _ => return None,
    }
}

/// The metadata of every register, in catalog order.
pub fn registers_info_iter() -> (v: Vec<RegisterInfo>)
    ensures
        v@.len() == REGISTER_COUNT,
        forall|i: int| 0 <= i < v@.len() ==> #[trigger] v@[i] == info_from_decl(decl_at(i as nat)->Some_0),
{
    let mut v: Vec<RegisterInfo> = Vec::new();
    let mut i: usize = 0;
    while i < REGISTER_COUNT
        invariant
            i <= REGISTER_COUNT,
            v@.len() == i,
            forall|k: int| 0 <= k < v@.len() ==> #[trigger] v@[k] == info_from_decl(decl_at(k as nat)->Some_0),
        decreases REGISTER_COUNT - i,
    {
        match register_decl_at(i) {
            Some(d) => {
                v.push(RegisterInfo::from_decl(&d));
            },
            None => {},
        }
        i = i + 1;
    }
    v
}

/// Every declaration has a DWARF number from 0 to 31, and a size that fills its width.
pub proof fn lemma_catalog_entry(i: nat)
    requires
        i < REGISTER_COUNT,
    ensures
        decl_at(i) is Some,
        0 <= decl_at(i)->Some_0.dwarf < 32,
        info_from_decl(decl_at(i)->Some_0).size * 8 == decl_at(i)->Some_0.width.spec_bits(),
{
}

} // verus!
