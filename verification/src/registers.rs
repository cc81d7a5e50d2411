//! The register file: sixteen general 8-bit registers and the 16-bit
//! address register, each a type of its own behind one reading and writing
//! interface.

use vstd::prelude::*;

verus! {

/// A register that holds a value of type `T`.
pub trait Register<T> {
    /// The value the register currently holds.
    spec fn value(&self) -> T;

    /// Reads the register.
    fn read(&self) -> (value: T)
        ensures
            value == self.value(),
    ;

    /// Overwrites the register with `value`.
    fn write(&mut self, value: T)
        ensures
            final(self).value() == value,
    ;
}

/// The general register `V0`.
#[derive(Debug)]
pub struct V0 {
    data: u8,
}

/// The general register `V1`.
#[derive(Debug)]
pub struct V1 {
    data: u8,
}

/// The general register `V2`.
#[derive(Debug)]
pub struct V2 {
    data: u8,
}

/// The general register `V3`.
#[derive(Debug)]
pub struct V3 {
    data: u8,
}

/// The general register `V4`.
#[derive(Debug)]
pub struct V4 {
    data: u8,
}

/// The general register `V5`.
#[derive(Debug)]
pub struct V5 {
    data: u8,
}

/// The general register `V6`.
#[derive(Debug)]
pub struct V6 {
    data: u8,
}

/// The general register `V7`.
#[derive(Debug)]
pub struct V7 {
    data: u8,
}

/// The general register `V8`.
#[derive(Debug)]
pub struct V8 {
    data: u8,
}

/// The general register `V9`.
#[derive(Debug)]
pub struct V9 {
    data: u8,
}

/// The general register `VA`.
#[derive(Debug)]
pub struct VA {
    data: u8,
}

/// The general register `VB`.
#[derive(Debug)]
pub struct VB {
    data: u8,
}

/// The general register `VC`.
#[derive(Debug)]
pub struct VC {
    data: u8,
}

/// The general register `VD`.
#[derive(Debug)]
pub struct VD {
    data: u8,
}

/// The general register `VE`.
#[derive(Debug)]
pub struct VE {
    data: u8,
}

/// The general register `VF`, which doubles as the flag register.
#[derive(Debug)]
pub struct VF {
    data: u8,
}

/// The address register `I`.
#[derive(Debug)]
pub struct I {
    data: u16,
}

/// The whole register file.
#[derive(Debug)]
pub struct Chip8Registers {
    pub v0: V0,
    pub v1: V1,
    pub v2: V2,
    pub v3: V3,
    pub v4: V4,
    pub v5: V5,
    pub v6: V6,
    pub v7: V7,
    pub v8: V8,
    pub v9: V9,
    pub va: VA,
    pub vb: VB,
    pub vc: VC,
    pub vd: VD,
    pub ve: VE,
    pub vf: VF,
    pub i: I,
}

impl View for Chip8Registers {
    type V = Seq<u8>;

    /// The values of the sixteen general registers, `V0` first.
    open spec fn view(&self) -> Seq<u8> {
        seq![
            self.v0.value(),
            self.v1.value(),
            self.v2.value(),
            self.v3.value(),
            self.v4.value(),
            self.v5.value(),
            self.v6.value(),
            self.v7.value(),
            self.v8.value(),
            self.v9.value(),
            self.va.value(),
            self.vb.value(),
            self.vc.value(),
            self.vd.value(),
            self.ve.value(),
            self.vf.value(),
        ]
    }
}

impl Chip8Registers {
    /// A register file with every register at zero.
    pub fn new() -> (registers: Chip8Registers)
        ensures
            registers@ == Seq::new(16, |k: int| 0u8),
            registers.i.value() == 0,
    {
        let registers = Chip8Registers {
            v0: V0 { data: 0 },
            v1: V1 { data: 0 },
            v2: V2 { data: 0 },
            v3: V3 { data: 0 },
            v4: V4 { data: 0 },
            v5: V5 { data: 0 },
            v6: V6 { data: 0 },
            v7: V7 { data: 0 },
            v8: V8 { data: 0 },
            v9: V9 { data: 0 },
            va: VA { data: 0 },
            vb: VB { data: 0 },
            vc: VC { data: 0 },
            vd: VD { data: 0 },
            ve: VE { data: 0 },
            vf: VF { data: 0 },
            i: I { data: 0 },
        };
        registers
    }

    /// Reads the general register numbered `id`.
    pub fn read(&self, id: usize) -> (value: u8)
        requires
            id < 16,
        ensures
            value == self@[id as int],
    {
        match id {
            0x0 => self.v0.read(),
            0x1 => self.v1.read(),
            0x2 => self.v2.read(),
            0x3 => self.v3.read(),
            0x4 => self.v4.read(),
            0x5 => self.v5.read(),
            0x6 => self.v6.read(),
            0x7 => self.v7.read(),
            0x8 => self.v8.read(),
            0x9 => self.v9.read(),
            0xA => self.va.read(),
            0xB => self.vb.read(),
            0xC => self.vc.read(),
            0xD => self.vd.read(),
            0xE => self.ve.read(),
            _ => self.vf.read(),
        }
    }

    /// Overwrites the general register numbered `id` with `value`.
    pub fn write(&mut self, id: usize, value: u8)
        requires
            id < 16,
        ensures
            final(self)@ == old(self)@.update(id as int, value),
            final(self).i.value() == old(self).i.value(),
    {
        match id {
            0x0 => self.v0.write(value),
            0x1 => self.v1.write(value),
            0x2 => self.v2.write(value),
            0x3 => self.v3.write(value),
            0x4 => self.v4.write(value),
            0x5 => self.v5.write(value),
            0x6 => self.v6.write(value),
            0x7 => self.v7.write(value),
            0x8 => self.v8.write(value),
            0x9 => self.v9.write(value),
            0xA => self.va.write(value),
            0xB => self.vb.write(value),
            0xC => self.vc.write(value),
            0xD => self.vd.write(value),
            0xE => self.ve.write(value),
            _ => self.vf.write(value),
        }
    }

    /// Reads the address register.
    pub fn read_i(&self) -> (value: u16)
        ensures
            value == self.i.value(),
    {
        self.i.read()
    }

    /// Overwrites the address register with `value`.
    pub fn write_i(&mut self, value: u16)
        ensures
            final(self).i.value() == value,
            final(self)@ == old(self)@,
    {
        self.i.write(value);
    }
}

impl Register<u8> for V0 {
    closed spec fn value(&self) -> u8 {
        self.data
    }

    fn read(&self) -> (value: u8) {
        self.data
    }

    fn write(&mut self, value: u8) {
        self.data = value;
    }
}

impl Register<u8> for V1 {
    closed spec fn value(&self) -> u8 {
        self.data
    }

    fn read(&self) -> (value: u8) {
        self.data
    }

    fn write(&mut self, value: u8) {
        self.data = value;
    }
}

impl Register<u8> for V2 {
    closed spec fn value(&self) -> u8 {
        self.data
    }

    fn read(&self) -> (value: u8) {
        self.data
    }

    fn write(&mut self, value: u8) {
        self.data = value;
    }
}

impl Register<u8> for V3 {
    closed spec fn value(&self) -> u8 {
        self.data
    }

    fn read(&self) -> (value: u8) {
        self.data
    }

    fn write(&mut self, value: u8) {
        self.data = value;
    }
}

impl Register<u8> for V4 {
    closed spec fn value(&self) -> u8 {
        self.data
    }

    fn read(&self) -> (value: u8) {
        self.data
    }

    fn write(&mut self, value: u8) {
        self.data = value;
    }
}

impl Register<u8> for V5 {
    closed spec fn value(&self) -> u8 {
        self.data
    }

    fn read(&self) -> (value: u8) {
        self.data
    }

    fn write(&mut self, value: u8) {
        self.data = value;
    }
}

impl Register<u8> for V6 {
    closed spec fn value(&self) -> u8 {
        self.data
    }

    fn read(&self) -> (value: u8) {
        self.data
    }

    fn write(&mut self, value: u8) {
        self.data = value;
    }
}

impl Register<u8> for V7 {
    closed spec fn value(&self) -> u8 {
        self.data
    }

    fn read(&self) -> (value: u8) {
        self.data
    }

    fn write(&mut self, value: u8) {
        self.data = value;
    }
}

impl Register<u8> for V8 {
    closed spec fn value(&self) -> u8 {
        self.data
    }

    fn read(&self) -> (value: u8) {
        self.data
    }

    fn write(&mut self, value: u8) {
        self.data = value;
    }
}

impl Register<u8> for V9 {
    closed spec fn value(&self) -> u8 {
        self.data
    }

    fn read(&self) -> (value: u8) {
        self.data
    }

    fn write(&mut self, value: u8) {
        self.data = value;
    }
}

impl Register<u8> for VA {
    closed spec fn value(&self) -> u8 {
        self.data
    }

    fn read(&self) -> (value: u8) {
        self.data
    }

    fn write(&mut self, value: u8) {
        self.data = value;
    }
}

impl Register<u8> for VB {
    closed spec fn value(&self) -> u8 {
        self.data
    }

    fn read(&self) -> (value: u8) {
        self.data
    }

    fn write(&mut self, value: u8) {
        self.data = value;
    }
}

impl Register<u8> for VC {
    closed spec fn value(&self) -> u8 {
        self.data
    }

    fn read(&self) -> (value: u8) {
        self.data
    }

    fn write(&mut self, value: u8) {
        self.data = value;
    }
}

impl Register<u8> for VD {
    closed spec fn value(&self) -> u8 {
        self.data
    }

    fn read(&self) -> (value: u8) {
        self.data
    }

    fn write(&mut self, value: u8) {
        self.data = value;
    }
}

impl Register<u8> for VE {
    closed spec fn value(&self) -> u8 {
        self.data
    }

    fn read(&self) -> (value: u8) {
        self.data
    }

    fn write(&mut self, value: u8) {
        self.data = value;
    }
}

impl Register<u8> for VF {
    closed spec fn value(&self) -> u8 {
        self.data
    }

    fn read(&self) -> (value: u8) {
        self.data
    }

    fn write(&mut self, value: u8) {
        self.data = value;
    }
}

impl Register<u16> for I {
    closed spec fn value(&self) -> u16 {
        self.data
    }

    fn read(&self) -> (value: u16) {
        self.data
    }

    fn write(&mut self, value: u16) {
        self.data = value;
    }
}

} // verus!
