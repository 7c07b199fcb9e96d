use vstd::prelude::*;

verus! {

/// Mathematical view of the memory bus: the flat 64K byte store, the boot
/// overlay, and the two dirty flags polled by the background compositor.
pub ghost struct MmuView {
    pub ram: Seq<u8>,
    pub boot_rom: Seq<u8>,
    pub dirty_vram: bool,
    pub dirty_viewport: bool,
}

impl MmuView {
    pub open spec fn wf(self) -> bool {
        &&& self.ram.len() == 0x10000
        &&& self.boot_rom.len() == 0x100
    }

    /// What a read of `address` returns: the boot overlay shadows addresses
    /// below 0x0100 while the disable latch at 0xFF50 reads zero.
    pub open spec fn read(self, address: u16) -> u8 {
        if address < 0x100 && self.ram[0xFF50] == 0 {
            self.boot_rom[address as int]
        } else {
            self.ram[address as int]
        }
    }

    /// The bus after a write: the byte lands in general storage, and a write
    /// into the tile-data/tile-map range or onto a scroll register raises the
    /// matching dirty flag.
    pub open spec fn write(self, address: u16, value: u8) -> MmuView {
        MmuView {
            ram: self.ram.update(address as int, value),
            boot_rom: self.boot_rom,
            dirty_vram: self.dirty_vram || (0x8000 <= address && address < 0xA000),
            dirty_viewport: self.dirty_viewport || address == 0xFF42 || address == 0xFF43,
        }
    }
}

/// The memory bus: a flat addressable byte store covering 0x0000..=0xFFFF,
/// with a fixed boot overlay visible below 0x0100 until the disable latch at
/// 0xFF50 is written non-zero.
pub struct MMU {
    ram: Vec<u8>,
    boot_rom: Vec<u8>,
    pub dirty_vram_flag: bool,
    pub dirty_viewport_flag: bool,
}

impl View for MMU {
    type V = MmuView;

    closed spec fn view(&self) -> MmuView {
        MmuView {
            ram: self.ram@,
            boot_rom: self.boot_rom@,
            dirty_vram: self.dirty_vram_flag,
            dirty_viewport: self.dirty_viewport_flag,
        }
    }
}

impl MMU {
    /// A bus with all storage and the boot overlay zeroed and both dirty
    /// flags lowered.
    pub fn new() -> (r: MMU)
        ensures
            r@.wf(),
            forall|i: int| 0 <= i < 0x10000 ==> r@.ram[i] == 0u8,
            forall|i: int| 0 <= i < 0x100 ==> r@.boot_rom[i] == 0u8,
            !r@.dirty_vram,
            !r@.dirty_viewport,
    {
        let mut ram: Vec<u8> = Vec::new();
        let mut i: usize = 0;
        while i < 0x10000
            invariant
                i <= 0x10000,
                ram@.len() == i,
                forall|j: int| 0 <= j < i ==> ram@[j] == 0u8,
            decreases 0x10000 - i,
        {
            ram.push(0u8);
            i += 1;
        }
        let mut boot_rom: Vec<u8> = Vec::new();
        let mut k: usize = 0;
        while k < 0x100
            invariant
                k <= 0x100,
                boot_rom@.len() == k,
                forall|j: int| 0 <= j < k ==> boot_rom@[j] == 0u8,
            decreases 0x100 - k,
        {
            boot_rom.push(0u8);
            k += 1;
        }
        MMU { ram, boot_rom, dirty_vram_flag: false, dirty_viewport_flag: false }
    }

    /// Installs the 256-byte boot overlay. General storage and the dirty
    /// flags are untouched.
    pub fn load_boot_rom(&mut self, data: &[u8])
        requires
            old(self)@.wf(),
            data@.len() == 0x100,
        ensures
            final(self)@.wf(),
            final(self)@ == (MmuView { boot_rom: data@, ..old(self)@ }),
    {
        let mut fresh: Vec<u8> = Vec::new();
        let mut i: usize = 0;
        while i < 0x100
            invariant
                i <= 0x100,
                data@.len() == 0x100,
                fresh@.len() == i,
                forall|j: int| 0 <= j < i ==> fresh@[j] == data@[j],
            decreases 0x100 - i,
        {
            fresh.push(data[i]);
            i += 1;
        }
        proof {
            assert(fresh@ =~= data@);
        }
        self.boot_rom = fresh;
    }

    /// Stores `value` at `address`, raising the dirty flag of the
    /// tile-data/tile-map range or of the scroll registers where the write
    /// touches them.
    pub fn write_byte(&mut self, address: u16, value: u8)
        requires
            old(self)@.wf(),
        ensures
            final(self)@.wf(),
            final(self)@ == old(self)@.write(address, value),
    {
        let idx: usize = address as usize;
        self.ram.set(idx, value);
        if address >= 0x8000 && address < 0xA000 {
            self.dirty_vram_flag = true;
        }
        if address == 0xFF42 || address == 0xFF43 {
            self.dirty_viewport_flag = true;
        }
    }

    /// Reads the byte at `address`: the boot overlay below 0x0100 while its
    /// disable latch is zero, general storage otherwise.
    pub fn read_byte(&self, address: u16) -> (r: u8)
        requires
            self@.wf(),
        ensures
            r == self@.read(address),
    {
        if address < 0x100 && self.ram[0xFF50] == 0u8 {
            self.boot_rom[address as usize]
        } else {
            self.ram[address as usize]
        }
    }

    /// Whether a write has touched the tile-data/tile-map range since the
    /// compositor last ran.
    pub fn vram_dirty(&self) -> (r: bool)
        ensures
            r == self@.dirty_vram,
    {
        self.dirty_vram_flag
    }

    /// Whether a write has touched a scroll register since the compositor
    /// last ran.
    pub fn viewport_dirty(&self) -> (r: bool)
        ensures
            r == self@.dirty_viewport,
    {
        self.dirty_viewport_flag
    }

    /// Lowers the tile-data/tile-map dirty flag, once the compositor has
    /// consumed it.
    pub fn clear_vram_dirty(&mut self)
        ensures
            final(self)@ == (MmuView { dirty_vram: false, ..old(self)@ }),
    {
        self.dirty_vram_flag = false;
    }

    /// Lowers the scroll-register dirty flag, once the compositor has
    /// consumed it.
    pub fn clear_viewport_dirty(&mut self)
        ensures
            final(self)@ == (MmuView { dirty_viewport: false, ..old(self)@ }),
    {
        self.dirty_viewport_flag = false;
    }

    /// Copies a program image byte-for-byte into general storage starting at
    /// address zero, through the ordinary write path (so the dirty flags rise
    /// exactly where the image covers the watched ranges).
    pub fn from_rom_file(&mut self, rom_file: &[u8])
        requires
            old(self)@.wf(),
            rom_file@.len() <= 0x10000,
        ensures
            final(self)@.wf(),
            forall|i: int| 0 <= i < rom_file@.len() ==> final(self)@.ram[i] == rom_file@[i],
            forall|i: int| rom_file@.len() <= i < 0x10000 ==> final(self)@.ram[i] == old(self)@.ram[i],
            final(self)@.boot_rom == old(self)@.boot_rom,
            final(self)@.dirty_vram == (old(self)@.dirty_vram || rom_file@.len() > 0x8000),
            final(self)@.dirty_viewport == (old(self)@.dirty_viewport || rom_file@.len() > 0xFF42),
    {
        let n = rom_file.len();
        let mut i: usize = 0;
        while i < n
            invariant
                old(self)@.wf(),
                self@.wf(),
                i <= n,
                n == rom_file@.len(),
                n <= 0x10000,
                forall|j: int| 0 <= j < i ==> self@.ram[j] == rom_file@[j],
                forall|j: int| i <= j < 0x10000 ==> self@.ram[j] == old(self)@.ram[j],
                self@.boot_rom == old(self)@.boot_rom,
                self@.dirty_vram == (old(self)@.dirty_vram || i > 0x8000),
                self@.dirty_viewport == (old(self)@.dirty_viewport || i > 0xFF42),
            decreases n - i,
        {
            self.write_byte(i as u16, rom_file[i]);
            i += 1;
        }
    }
}

} // verus!
