use vstd::prelude::*;

verus! {

/// The bus an OAM DMA transfer reads its source from.
#[derive(Clone, Copy, Debug, PartialEq, Eq, Structural)]
pub enum AccessBus {
    External,
    Video,
}

/// The state of the OAM DMA engine: armed by a write to 0xFF46.
#[derive(Clone, Copy, Debug, PartialEq, Eq, Structural)]
pub struct OamDmaTransferer {
    pub soure_address: u16,
    /// The bus of the transfer in progress; `None` when no transfer runs.
    pub enable: Option<AccessBus>,
    /// How many of the 160 bytes have been copied.
    pub dma_cycle_counter: u16,
}

impl OamDmaTransferer {
    pub open spec fn new_spec() -> OamDmaTransferer {
        OamDmaTransferer { soure_address: 0, enable: None, dma_cycle_counter: 0 }
    }

    pub fn new() -> (r: OamDmaTransferer)
        ensures
            r == OamDmaTransferer::new_spec(),
    {
        OamDmaTransferer { soure_address: 0, enable: None, dma_cycle_counter: 0 }
    }
}

} // verus!
