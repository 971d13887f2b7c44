//! The console: the processor, its work RAM, the register banks and the
//! cartridge in the slot.

use vstd::prelude::*;
use crate::cartridge::{Cartridge, CartridgeView};
use crate::cpu::CPU;
use crate::registers::{DMARegisters, DmaState, MMIORegisters};

verus! {

/// The size of the work RAM: 128 KiB.
pub const WRAM_SIZE: usize = 0x20000;

/// The whole machine. It owns all of its parts; nothing is shared and
/// nothing is global.
#[derive(Debug, Clone)]
pub struct Console {
    pub cpu: CPU,
    pub cartridge: Cartridge,
    /// Work RAM. Only the first 128 KiB are ever addressed.
    pub ram: Vec<u8>,
    pub mmio: MMIORegisters,
    pub dma: DMARegisters,
}

/// The mathematical model of a [`Console`]: what the contracts of the core
/// speak of.
#[verifier::ext_equal]
pub struct Machine {
    pub cpu: CPU,
    pub cartridge: CartridgeView,
    pub ram: Seq<u8>,
    pub mmio: MMIORegisters,
    pub dma: DmaState,
}

impl View for Console {
    type V = Machine;

    open spec fn view(&self) -> Machine {
        Machine {
            cpu: self.cpu,
            cartridge: self.cartridge@,
            ram: self.ram@,
            mmio: self.mmio,
            dma: self.dma@,
        }
    }
}

impl Console {
    /// The machine as it is switched on: the processor after reset with
    /// its program counter at the reset vector of the cartridge, 128 KiB
    /// of work RAM at zero, and every latch at zero.
    pub open spec fn switched_on(cartridge: CartridgeView) -> Machine {
        Machine {
            cpu: CPU { PC: cartridge.vectors.reset, ..CPU::reset() },
            cartridge: cartridge,
            ram: Seq::new(WRAM_SIZE as nat, |i: int| 0u8),
            mmio: MMIORegisters::zeroed(),
            dma: DmaState::zeroed(),
        }
    }

    /// A console with `cartridge` in its slot, switched on.
    pub fn new(cartridge: Cartridge) -> (r: Console)
        ensures
            r@ == Console::switched_on(cartridge@),
    {
        let mut cpu: CPU = CPU::new();
        cpu.PC = cartridge.header.interrupt_vectors.reset;
        let ram: Vec<u8> = vec![0u8; WRAM_SIZE];
        assert(ram@ =~= Seq::new(WRAM_SIZE as nat, |i: int| 0u8));
        Console {
            cpu,
            cartridge,
            ram,
            mmio: MMIORegisters::default(),
            dma: DMARegisters::default(),
        }
    }
}

} // verus!
