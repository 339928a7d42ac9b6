//! The configuration of the engine as it is usually built.
use crate::channel::{max_len_of, Direaction};
use crate::{AxiDma, AxiDmaConfig};
use vstd::prelude::*;

verus! {

impl Default for AxiDmaConfig {
    /// Both channels at their usual offsets, 32-bit data paths and addresses,
    /// 16-bit length fields, scatter-gather mode, no realignment, no
    /// status/control stream.
    fn default() -> (cfg: Self)
        ensures
            cfg.base_address == 0x6010_0000,
            cfg.rx_channel_offset == 0x30,
            cfg.tx_channel_offset == 0,
            !cfg.has_sts_cntrl_strm,
            !cfg.is_micro_dma,
            cfg.has_mm2s,
            !cfg.has_mm2s_dre,
            cfg.mm2s_data_width == 32,
            cfg.mm2s_burst_size == 16,
            cfg.has_s2mm,
            !cfg.has_s2mm_dre,
            cfg.s2mm_data_width == 32,
            cfg.s2mm_burst_size == 16,
            cfg.has_sg,
            cfg.sg_length_width == 16,
            cfg.addr_width == 32,
    {
        AxiDmaConfig {
            base_address: 0x6010_0000,
            rx_channel_offset: 0x30,
            tx_channel_offset: 0,
            has_sts_cntrl_strm: false,
            is_micro_dma: false,
            has_mm2s: true,
            has_mm2s_dre: false,
            mm2s_data_width: 32,
            mm2s_burst_size: 16,
            has_s2mm: true,
            has_s2mm_dre: false,
            s2mm_data_width: 32,
            s2mm_burst_size: 16,
            has_sg: true,
            sg_length_width: 16,
            addr_width: 32,
        }
    }
}

impl Default for AxiDma {
    /// The engine of the usual configuration: both channels, not
    /// initialised.
    fn default() -> (dma: Self)
        ensures
            dma.wf(),
            !dma@.initialized,
            dma@.polls_left == 0,
            dma@.addr_width == 32,
            dma@.tx is Some,
            dma@.rx is Some,
            dma@.tx->Some_0.ring.max_len == max_len_of(16),
            dma@.rx->Some_0.ring.max_len == max_len_of(16),
            dma@.tx->Some_0.direction == Direaction::TX,
            dma@.rx->Some_0.direction == Direaction::RX,
    {
        AxiDma::new(AxiDmaConfig::default())
    }
}

} // verus!
