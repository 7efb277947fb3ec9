//! The picture processor's register block, as the CPU sees it.

use vstd::prelude::*;

verus! {

/// What the latest write to the register block asks of the object attribute memory.
#[derive(Clone, Copy, Debug, PartialEq, Eq, Structural)]
pub enum RegisterIO {
    /// Nothing to do.
    Idle,
    /// The OAM address register was written.
    WriteOamAddr,
    /// The OAM data register was written.
    WriteOamData,
}

/// Index of the OAM address register within the block.
pub const OAM_ADDR: u16 = 3;

/// Index of the OAM data register within the block.
pub const OAM_DATA: u16 = 4;

/// Eight byte-wide registers, selected by the low three bits of the address,
/// and the intent left by the latest write.
#[derive(Clone, Copy, Debug, PartialEq, Eq, Structural)]
pub struct PpuRegisters {
    pub io: RegisterIO,
    pub ctrl: u8,
    pub mask: u8,
    pub status: u8,
    pub oam_addr: u8,
    pub oam_data: u8,
    pub scroll: u8,
    pub addr: u8,
    pub data: u8,
}

/// The intent that a write to `addr` leaves behind.
pub open spec fn intent_of(addr: u16) -> RegisterIO {
    if addr % 8 == OAM_ADDR {
        RegisterIO::WriteOamAddr
    } else if addr % 8 == OAM_DATA {
        RegisterIO::WriteOamData
    } else {
        RegisterIO::Idle
    }
}

impl PpuRegisters {
    /// The byte held by the register that `addr` selects.
    pub open spec fn read_spec(self, addr: u16) -> u8 {
        let index = addr % 8;
        if index == 0 {
            self.ctrl
        } else if index == 1 {
            self.mask
        } else if index == 2 {
            self.status
        } else if index == 3 {
            self.oam_addr
        } else if index == 4 {
            self.oam_data
        } else if index == 5 {
            self.scroll
        } else if index == 6 {
            self.addr
        } else {
            self.data
        }
    }

    /// The block after `value` was written to the register that `addr` selects.
    pub open spec fn write_spec(self, addr: u16, value: u8) -> Self {
        let index = addr % 8;
        let latched = PpuRegisters { io: intent_of(addr), ..self };
        if index == 0 {
            PpuRegisters { ctrl: value, ..latched }
        } else if index == 1 {
            PpuRegisters { mask: value, ..latched }
        } else if index == 2 {
            PpuRegisters { status: value, ..latched }
        } else if index == 3 {
            PpuRegisters { oam_addr: value, ..latched }
        } else if index == 4 {
            PpuRegisters { oam_data: value, ..latched }
        } else if index == 5 {
            PpuRegisters { scroll: value, ..latched }
        } else if index == 6 {
            PpuRegisters { addr: value, ..latched }
        } else {
            PpuRegisters { data: value, ..latched }
        }
    }

    /// Reads the register that `addr` selects. Nothing changes.
    pub fn read(&self, addr: u16) -> (value: u8)
        ensures
            value == self.read_spec(addr),
    {
        match addr % 8 {
            0 => self.ctrl,
            1 => self.mask,
            2 => self.status,
            3 => self.oam_addr,
            4 => self.oam_data,
            5 => self.scroll,
            6 => self.addr,
            _ => self.data,
        }
    }

    /// Writes `value` to the register that `addr` selects and records the intent.
    pub fn write(&mut self, addr: u16, value: u8)
        ensures
            *final(self) == old(self).write_spec(addr, value),
    {
        let index: u16 = addr % 8;
        match index {
            0 => self.ctrl = value,
            1 => self.mask = value,
            2 => self.status = value,
            3 => self.oam_addr = value,
            4 => self.oam_data = value,
            5 => self.scroll = value,
            6 => self.addr = value,
            _ => self.data = value,
        }
        self.io =
        if index == OAM_ADDR {
            RegisterIO::WriteOamAddr
        } else if index == OAM_DATA {
            RegisterIO::WriteOamData
        } else {
            RegisterIO::Idle
        };
    }
}

impl Default for PpuRegisters {
    /// All registers zero, no intent pending.
    fn default() -> (registers: Self)
        ensures
            registers == (PpuRegisters {
                io: RegisterIO::Idle,
                ctrl: 0,
                mask: 0,
                status: 0,
                oam_addr: 0,
                oam_data: 0,
                scroll: 0,
                addr: 0,
                data: 0,
            }),
    {
        PpuRegisters {
            io: RegisterIO::Idle,
            ctrl: 0,
            mask: 0,
            status: 0,
            oam_addr: 0,
            oam_data: 0,
            scroll: 0,
            addr: 0,
            data: 0,
        }
    }
}

} // verus!
