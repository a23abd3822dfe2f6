use vstd::prelude::*;

verus! {

pub const ROM_BANK_SIZE: usize = 0x4000;
pub const RAM_BANK_SIZE: usize = 0x2000;
pub const CARTRIDGE_TYPE_ADDRESS: usize = 0x147;
pub const RAM_SIZE_ADDRESS: usize = 0x149;
pub const CARTRIDGE_HEADER_END: usize = 0x150;

/// The memory-bank controller family of a cartridge.
#[derive(Clone, Copy, Debug, PartialEq, Eq, Structural)]
pub enum MbcKind {
    NoMbc,
    Mbc1,
    Mbc3,
    Mbc5,
}

/// Why a cartridge image could not be given a controller.
#[derive(Clone, Copy, Debug, PartialEq, Eq, Structural)]
pub enum CartridgeError {
    /// The image ends before its header does.
    HeaderTooShort,
    /// Byte 0x147 names a controller that is not supported.
    UnsupportedMbc(u8),
    /// Byte 0x149 is not a known RAM size code.
    UnsupportedRamSize(u8),
}

/// The model of a controller: its ROM and RAM contents and its select registers.
pub struct MbcState {
    pub kind: MbcKind,
    pub rom: Seq<u8>,
    pub ram: Seq<u8>,
    pub ram_enabled: bool,
    pub rom_bank_register: u8,
    pub high_register: u8,
    pub banking_mode: bool,
    pub rom_bank_bit8: bool,
}

impl MbcState {
    /// The ROM bank mapped at 0x4000..0x7FFF.
    pub open spec fn rom_bank(self) -> int {
        match self.kind {
            MbcKind::NoMbc => 1,
            MbcKind::Mbc1 => {
                let low = self.rom_bank_register % 32;
                self.high_register * 32 + (if low == 0 { 1 } else { low as int })
            },
            MbcKind::Mbc3 => {
                let low = self.rom_bank_register % 128;
                if low == 0 { 1 } else { low as int }
            },
            MbcKind::Mbc5 => (if self.rom_bank_bit8 { 256int } else { 0 }) + self.rom_bank_register,
        }
    }

    /// The external RAM bank mapped at 0xA000..0xBFFF.
    pub open spec fn ram_bank(self) -> int {
        match self.kind {
            MbcKind::Mbc1 => if self.banking_mode { self.high_register as int } else { 0 },
            _ => self.high_register as int,
        }
    }

    pub open spec fn rom_byte(self, index: int) -> u8 {
        if 0 <= index < self.rom.len() { self.rom[index] } else { 0xFF }
    }

    pub open spec fn read_bank0(self, address: u16) -> u8 {
        self.rom_byte(address as int)
    }

    pub open spec fn read_current_bank(self, offset: u16) -> u8 {
        self.rom_byte(self.rom_bank() * ROM_BANK_SIZE + offset)
    }

    pub open spec fn ram_index(self, offset: u16) -> int {
        self.ram_bank() * RAM_BANK_SIZE + offset
    }

    /// External RAM can be read and written at `offset`.
    pub open spec fn ram_accessible(self, offset: u16) -> bool {
        self.kind != MbcKind::NoMbc && self.ram_enabled && self.ram_index(offset) < self.ram.len()
    }

    pub open spec fn read_external_ram(self, offset: u16) -> u8 {
        if self.ram_accessible(offset) { self.ram[self.ram_index(offset)] } else { 0xFF }
    }

    /// The effect of a write into the ROM area, which sets the select registers.
    pub open spec fn write_rom(self, address: u16, value: u8) -> MbcState {
        if self.kind == MbcKind::NoMbc {
            self
        } else if address < 0x2000 {
            MbcState { ram_enabled: value % 16 == 0x0A, ..self }
        } else if address < 0x4000 {
            match self.kind {
                MbcKind::Mbc1 => MbcState { rom_bank_register: value % 32, ..self },
                MbcKind::Mbc3 => MbcState { rom_bank_register: value % 128, ..self },
                _ => if address < 0x3000 {
                    MbcState { rom_bank_register: value, ..self }
                } else {
                    MbcState { rom_bank_bit8: value % 2 == 1, ..self }
                },
            }
        } else if address < 0x6000 {
            match self.kind {
                MbcKind::Mbc1 => MbcState { high_register: value % 4, ..self },
                _ => MbcState { high_register: value % 16, ..self },
            }
        } else {
            match self.kind {
                MbcKind::Mbc1 => MbcState { banking_mode: value % 2 == 1, ..self },
                _ => self,
            }
        }
    }

    pub open spec fn write_external_ram(self, offset: u16, value: u8) -> MbcState {
        if self.ram_accessible(offset) {
            MbcState { ram: self.ram.update(self.ram_index(offset), value), ..self }
        } else {
            self
        }
    }
}

/// The RAM size in bytes that header code `code` declares.
pub open spec fn ram_size_of(code: u8) -> Option<nat> {
    if code == 0 {
        Some(0)
    } else if code == 1 {
        Some(0x800)
    } else if code == 2 {
        Some(0x2000)
    } else if code == 3 {
        Some(0x8000)
    } else if code == 4 {
        Some(0x20000)
    } else if code == 5 {
        Some(0x10000)
    } else {
        None
    }
}

/// The controller that cartridge type `code` names.
pub open spec fn kind_of(code: u8) -> Option<MbcKind> {
    if code == 0 {
        Some(MbcKind::NoMbc)
    } else if 0x01 <= code <= 0x03 {
        Some(MbcKind::Mbc1)
    } else if 0x0F <= code <= 0x13 {
        Some(MbcKind::Mbc3)
    } else if 0x19 <= code <= 0x1E {
        Some(MbcKind::Mbc5)
    } else {
        None
    }
}

/// A cartridge's memory-bank controller, owning its ROM and external RAM.
pub struct Mbc {
    kind: MbcKind,
    rom: Vec<u8>,
    ram: Vec<u8>,
    ram_enabled: bool,
    rom_bank_register: u8,
    high_register: u8,
    banking_mode: bool,
    rom_bank_bit8: bool,
}

impl View for Mbc {
    type V = MbcState;

    closed spec fn view(&self) -> MbcState {
        MbcState {
            kind: self.kind,
            rom: self.rom@,
            ram: self.ram@,
            ram_enabled: self.ram_enabled,
            rom_bank_register: self.rom_bank_register,
            high_register: self.high_register,
            banking_mode: self.banking_mode,
            rom_bank_bit8: self.rom_bank_bit8,
        }
    }
}

impl Mbc {
    /// A controller of `kind` over `rom` and `ram`, in its power-on state.
    pub fn new(kind: MbcKind, rom: Vec<u8>, ram: Vec<u8>) -> (r: Mbc)
        ensures
            r@.kind == kind,
            r@.rom == rom@,
            r@.ram == ram@,
            !r@.ram_enabled,
            r@.rom_bank_register == 1,
            r@.high_register == 0,
            !r@.banking_mode,
            !r@.rom_bank_bit8,
    {
        Mbc {
            kind,
            rom,
            ram,
            ram_enabled: false,
            rom_bank_register: 1,
            high_register: 0,
            banking_mode: false,
            rom_bank_bit8: false,
        }
    }

    /// Reads the cartridge header and builds the controller it declares, with
    /// zeroed external RAM of the declared size.
    pub fn from_rom(rom: Vec<u8>) -> (r: Result<Mbc, CartridgeError>)
        ensures
            rom@.len() < CARTRIDGE_HEADER_END ==> r == Err::<Mbc, _>(
                CartridgeError::HeaderTooShort,
            ),
            rom@.len() >= CARTRIDGE_HEADER_END ==> {
                let t = rom@[CARTRIDGE_TYPE_ADDRESS as int];
                let s = rom@[RAM_SIZE_ADDRESS as int];
                match r {
                    Ok(m) => kind_of(t) == Some(m@.kind) && ram_size_of(s) == Some(m@.ram.len())
                        && m@.rom == rom@ && (forall|i: int|
                        0 <= i < m@.ram.len() ==> m@.ram[i] == 0) && !m@.ram_enabled
                        && m@.rom_bank_register == 1 && m@.high_register == 0
                        && !m@.banking_mode && !m@.rom_bank_bit8,
                    Err(e) => (kind_of(t).is_none() && e == CartridgeError::UnsupportedMbc(t))
                        || (kind_of(t).is_some() && ram_size_of(s).is_none() && e
                        == CartridgeError::UnsupportedRamSize(s)),
                }
            },
    {
        if rom.len() < CARTRIDGE_HEADER_END {
            return Err(CartridgeError::HeaderTooShort);
        }
        let t = rom[CARTRIDGE_TYPE_ADDRESS];
        let s = rom[RAM_SIZE_ADDRESS];
        let kind = if t == 0 {
            MbcKind::NoMbc
        } else if 0x01 <= t && t <= 0x03 {
            MbcKind::Mbc1
        } else if 0x0F <= t && t <= 0x13 {
            MbcKind::Mbc3
        } else if 0x19 <= t && t <= 0x1E {
            MbcKind::Mbc5
        } else {
            return Err(CartridgeError::UnsupportedMbc(t));
        };
        let size: usize = if s == 0 {
            0
        } else if s == 1 {
            0x800
        } else if s == 2 {
            0x2000
        } else if s == 3 {
            0x8000
        } else if s == 4 {
            0x20000
        } else if s == 5 {
            0x10000
        } else {
            return Err(CartridgeError::UnsupportedRamSize(s));
        };
        let mut ram: Vec<u8> = Vec::new();
        while ram.len() < size
            invariant
                ram@.len() <= size,
                forall|i: int| 0 <= i < ram@.len() ==> ram@[i] == 0,
            decreases size - ram@.len(),
        {
            ram.push(0);
        }
        Ok(Mbc::new(kind, rom, ram))
    }

    pub fn kind(&self) -> (r: MbcKind)
        ensures
            r == self@.kind,
    {
        self.kind
    }

    fn rom_byte(&self, index: usize) -> (r: u8)
        ensures
            r == self@.rom_byte(index as int),
    {
        if index < self.rom.len() {
            self.rom[index]
        } else {
            0xFF
        }
    }

    fn rom_bank(&self) -> (r: usize)
        ensures
            r == self@.rom_bank(),
            r < 0x2000,
    {
        match self.kind {
            MbcKind::NoMbc => 1,
            MbcKind::Mbc1 => {
                let low = self.rom_bank_register % 32;
                self.high_register as usize * 32 + (if low == 0 { 1 } else { low as usize })
            },
            MbcKind::Mbc3 => {
                let low = self.rom_bank_register % 128;
                if low == 0 { 1 } else { low as usize }
            },
            MbcKind::Mbc5 => (if self.rom_bank_bit8 { 256 } else { 0 }) + self.rom_bank_register as usize,
        }
    }

    fn ram_index(&self, offset: u16) -> (r: usize)
        ensures
            r == self@.ram_index(offset),
    {
        let bank: usize = match self.kind {
            MbcKind::Mbc1 => if self.banking_mode { self.high_register as usize } else { 0 },
            _ => self.high_register as usize,
        };
        bank * RAM_BANK_SIZE + offset as usize
    }

    fn ram_accessible(&self, offset: u16) -> (r: bool)
        ensures
            r == self@.ram_accessible(offset),
    {
        self.kind != MbcKind::NoMbc && self.ram_enabled && self.ram_index(offset) < self.ram.len()
    }

    /// Reads `address` of the fixed bank 0 (0x0000..0x3FFF).
    pub fn read_bank0(&self, address: u16) -> (r: u8)
        ensures
            r == self@.read_bank0(address),
    {
        self.rom_byte(address as usize)
    }

    /// Reads `offset` into the switchable ROM bank.
    pub fn read_current_bank(&self, offset: u16) -> (r: u8)
        ensures
            r == self@.read_current_bank(offset),
    {
        let bank = self.rom_bank();
        self.rom_byte(bank * ROM_BANK_SIZE + offset as usize)
    }

    /// Reads `offset` into the mapped external RAM bank; 0xFF where RAM is
    /// disabled or absent.
    pub fn read_external_ram(&self, offset: u16) -> (r: u8)
        ensures
            r == self@.read_external_ram(offset),
    {
        if self.ram_accessible(offset) {
            self.ram[self.ram_index(offset)]
        } else {
            0xFF
        }
    }

    /// A write into 0x0000..0x7FFF: sets the RAM gate, bank selects or mode.
    pub fn write_rom(&mut self, address: u16, value: u8)
        requires
            address < 0x8000,
        ensures
            final(self)@ == old(self)@.write_rom(address, value),
    {
        if self.kind == MbcKind::NoMbc {
        } else if address < 0x2000 {
            self.ram_enabled = value % 16 == 0x0A;
        } else if address < 0x4000 {
            match self.kind {
                MbcKind::Mbc1 => self.rom_bank_register = value % 32,
                MbcKind::Mbc3 => self.rom_bank_register = value % 128,
                _ => if address < 0x3000 {
                    self.rom_bank_register = value;
                } else {
                    self.rom_bank_bit8 = value % 2 == 1;
                },
            }
        } else if address < 0x6000 {
            match self.kind {
                MbcKind::Mbc1 => self.high_register = value % 4,
                _ => self.high_register = value % 16,
            }
        } else {
            match self.kind {
                MbcKind::Mbc1 => self.banking_mode = value % 2 == 1,
                _ => {},
            }
        }
    }

    /// Writes `offset` of the mapped external RAM bank, when RAM is enabled.
    pub fn write_external_ram(&mut self, offset: u16, value: u8)
        ensures
            final(self)@ == old(self)@.write_external_ram(offset, value),
    {
        if self.ram_accessible(offset) {
            let i = self.ram_index(offset);
            self.ram.set(i, value);
        }
    }

    /// The external RAM, for the host to persist.
    pub fn external_ram(&self) -> (r: &Vec<u8>)
        ensures
            r@ == self@.ram,
    {
        &self.ram
    }

    /// Restores external RAM saved earlier; refused unless `data` has the
    /// cartridge's RAM size.
    pub fn load_external_ram(&mut self, data: Vec<u8>) -> (r: bool)
        ensures
            r == (data@.len() == old(self)@.ram.len()),
            r ==> final(self)@ == (MbcState { ram: data@, ..old(self)@ }),
            !r ==> final(self)@ == old(self)@,
    {
        if data.len() == self.ram.len() {
            self.ram = data;
            true
        } else {
            false
        }
    }
}

} // verus!
