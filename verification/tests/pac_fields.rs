use axidma::pac::axi_dma::mm2s_curdesc as axi_dma_mm2s_curdesc;
use axidma::pac::axi_dma::mm2s_curdesc_msb as axi_dma_mm2s_curdesc_msb;
use axidma::pac::axi_dma::mm2s_length as axi_dma_mm2s_length;
use axidma::pac::axi_dma::mm2s_sa as axi_dma_mm2s_sa;
use axidma::pac::axi_dma::mm2s_sa_msb as axi_dma_mm2s_sa_msb;
use axidma::pac::axi_dma::mm2s_taildesc as axi_dma_mm2s_taildesc;
use axidma::pac::axi_dma::mm2s_taildesc_msb as axi_dma_mm2s_taildesc_msb;
use axidma::pac::axi_dma::s2mm_curdesc as axi_dma_s2mm_curdesc;
use axidma::pac::axi_dma::s2mm_curdesc_msb as axi_dma_s2mm_curdesc_msb;
use axidma::pac::axi_dma::s2mm_da as axi_dma_s2mm_da;
use axidma::pac::axi_dma::s2mm_da_msb as axi_dma_s2mm_da_msb;
use axidma::pac::axi_dma::s2mm_dmacr as axi_dma_s2mm_dmacr;
use axidma::pac::axi_dma::s2mm_length as axi_dma_s2mm_length;
use axidma::pac::axi_dma::s2mm_taildesc as axi_dma_s2mm_taildesc;
use axidma::pac::axi_dma::sg_ctl as axi_dma_sg_ctl;
use axidma::pac::channel::curdesc as channel_curdesc;
use axidma::pac::channel::curdesc_msb as channel_curdesc_msb;
use axidma::pac::channel::dmacr as channel_dmacr;
use axidma::pac::channel::dmasr as channel_dmasr;
use axidma::pac::channel::taildesc as channel_taildesc;
use axidma::pac::channel::taildesc_msb as channel_taildesc_msb;
use axidma::pac::generic::Reg;
use axidma::pac::sg_desc::app as sg_desc_app;
use axidma::pac::sg_desc::buf_addr as sg_desc_buf_addr;
use axidma::pac::sg_desc::buf_addr_msb as sg_desc_buf_addr_msb;
use axidma::pac::sg_desc::control as sg_desc_control;
use axidma::pac::sg_desc::nxt_desc as sg_desc_nxt_desc;
use axidma::pac::sg_desc::nxt_desc_msb as sg_desc_nxt_desc_msb;
use axidma::pac::sg_desc::status as sg_desc_status;

#[test]
fn every_field_of_channel_dmacr() {
    let mut reg: Reg<channel_dmacr::DmacrSpec> = Reg::new(0);
    reg.modify(|_, w| w.run_stop().run());
    assert_eq!(reg.read().bits(), 1 << 0);
    assert!(reg.read().run_stop().is_run());
    assert!(!reg.read().run_stop().is_stop());
    assert_eq!(reg.read().run_stop().variant(), channel_dmacr::RunStop::Run);
    reg.load(0xffff_ffff);
    reg.modify(|_, w| w.run_stop().stop());
    assert_eq!(reg.read().bits(), !(1u32 << 0));
    assert!(reg.read().run_stop().is_stop());
    assert_eq!(reg.read().run_stop().variant(), channel_dmacr::RunStop::Stop);
    let mut reg: Reg<channel_dmacr::DmacrSpec> = Reg::new(0);
    reg.modify(|_, w| w.reset().reset());
    assert_eq!(reg.read().bits(), 1 << 2);
    assert!(reg.read().reset().is_reset());
    assert!(!reg.read().reset().is_normal());
    assert_eq!(reg.read().reset().variant(), channel_dmacr::Reset::Reset);
    reg.load(0xffff_ffff);
    reg.modify(|_, w| w.reset().normal());
    assert_eq!(reg.read().bits(), !(1u32 << 2));
    assert!(reg.read().reset().is_normal());
    assert_eq!(reg.read().reset().variant(), channel_dmacr::Reset::Normal);
    let mut reg: Reg<channel_dmacr::DmacrSpec> = Reg::new(0);
    reg.modify(|_, w| w.keyhole().enable());
    assert_eq!(reg.read().bits(), 1 << 3);
    assert!(reg.read().keyhole().is_enable());
    assert!(!reg.read().keyhole().is_disable());
    assert_eq!(reg.read().keyhole().variant(), channel_dmacr::Keyhole::Enable);
    reg.load(0xffff_ffff);
    reg.modify(|_, w| w.keyhole().disable());
    assert_eq!(reg.read().bits(), !(1u32 << 3));
    assert!(reg.read().keyhole().is_disable());
    assert_eq!(reg.read().keyhole().variant(), channel_dmacr::Keyhole::Disable);
    let mut reg: Reg<channel_dmacr::DmacrSpec> = Reg::new(0);
    reg.modify(|_, w| w.cyclic_enable().enable());
    assert_eq!(reg.read().bits(), 1 << 4);
    assert!(reg.read().cyclic_enable().is_enable());
    assert!(!reg.read().cyclic_enable().is_disable());
    assert_eq!(reg.read().cyclic_enable().variant(), channel_dmacr::CyclicEnable::Enable);
    reg.load(0xffff_ffff);
    reg.modify(|_, w| w.cyclic_enable().disable());
    assert_eq!(reg.read().bits(), !(1u32 << 4));
    assert!(reg.read().cyclic_enable().is_disable());
    assert_eq!(reg.read().cyclic_enable().variant(), channel_dmacr::CyclicEnable::Disable);
    let mut reg: Reg<channel_dmacr::DmacrSpec> = Reg::new(0);
    reg.modify(|_, w| w.ioc_irq_en().enable());
    assert_eq!(reg.read().bits(), 1 << 12);
    assert!(reg.read().ioc_irq_en().is_enable());
    assert!(!reg.read().ioc_irq_en().is_disable());
    assert_eq!(reg.read().ioc_irq_en().variant(), channel_dmacr::IocIrqEn::Enable);
    reg.load(0xffff_ffff);
    reg.modify(|_, w| w.ioc_irq_en().disable());
    assert_eq!(reg.read().bits(), !(1u32 << 12));
    assert!(reg.read().ioc_irq_en().is_disable());
    assert_eq!(reg.read().ioc_irq_en().variant(), channel_dmacr::IocIrqEn::Disable);
    let mut reg: Reg<channel_dmacr::DmacrSpec> = Reg::new(0);
    reg.modify(|_, w| w.dly_irq_en().enable());
    assert_eq!(reg.read().bits(), 1 << 13);
    assert!(reg.read().dly_irq_en().is_enable());
    assert!(!reg.read().dly_irq_en().is_disable());
    assert_eq!(reg.read().dly_irq_en().variant(), channel_dmacr::DlyIrqEn::Enable);
    reg.load(0xffff_ffff);
    reg.modify(|_, w| w.dly_irq_en().disable());
    assert_eq!(reg.read().bits(), !(1u32 << 13));
    assert!(reg.read().dly_irq_en().is_disable());
    assert_eq!(reg.read().dly_irq_en().variant(), channel_dmacr::DlyIrqEn::Disable);
    let mut reg: Reg<channel_dmacr::DmacrSpec> = Reg::new(0);
    reg.modify(|_, w| w.err_irq_en().enable());
    assert_eq!(reg.read().bits(), 1 << 14);
    assert!(reg.read().err_irq_en().is_enable());
    assert!(!reg.read().err_irq_en().is_disable());
    assert_eq!(reg.read().err_irq_en().variant(), channel_dmacr::ErrIrqEn::Enable);
    reg.load(0xffff_ffff);
    reg.modify(|_, w| w.err_irq_en().disable());
    assert_eq!(reg.read().bits(), !(1u32 << 14));
    assert!(reg.read().err_irq_en().is_disable());
    assert_eq!(reg.read().err_irq_en().variant(), channel_dmacr::ErrIrqEn::Disable);
    let mut reg: Reg<channel_dmacr::DmacrSpec> = Reg::new(0);
    reg.modify(|_, w| w.irq_threshold().bits(0xa5));
    assert_eq!(reg.read().bits(), 0xa50000);
    assert_eq!(reg.read().irq_threshold().bits(), 0xa5);
    reg.load(0xffff_ffff);
    reg.modify(|_, w| w.irq_threshold().bits(0));
    assert_eq!(reg.read().bits(), 0xff00ffff);
    assert_eq!(reg.read().irq_threshold().bits(), 0);
    let mut reg: Reg<channel_dmacr::DmacrSpec> = Reg::new(0);
    reg.modify(|_, w| w.irq_delay().bits(0xa5));
    assert_eq!(reg.read().bits(), 0xa5000000);
    assert_eq!(reg.read().irq_delay().bits(), 0xa5);
    reg.load(0xffff_ffff);
    reg.modify(|_, w| w.irq_delay().bits(0));
    assert_eq!(reg.read().bits(), 0xffffff);
    assert_eq!(reg.read().irq_delay().bits(), 0);
}

#[test]
fn every_field_of_channel_dmasr() {
    let mut reg: Reg<channel_dmasr::DmasrSpec> = Reg::new(0);
    reg.modify(|_, w| w.halted().halted());
    assert_eq!(reg.read().bits(), 1 << 0);
    assert!(reg.read().halted().is_halted());
    assert!(!reg.read().halted().is_running());
    assert_eq!(reg.read().halted().variant(), channel_dmasr::Halted::Halted);
    reg.load(0xffff_ffff);
    reg.modify(|_, w| w.halted().running());
    assert_eq!(reg.read().bits(), !(1u32 << 0));
    assert!(reg.read().halted().is_running());
    assert_eq!(reg.read().halted().variant(), channel_dmasr::Halted::Running);
    let mut reg: Reg<channel_dmasr::DmasrSpec> = Reg::new(0);
    reg.modify(|_, w| w.idle().idle());
    assert_eq!(reg.read().bits(), 1 << 1);
    assert!(reg.read().idle().is_idle());
    assert!(!reg.read().idle().is_not_idle());
    assert_eq!(reg.read().idle().variant(), channel_dmasr::Idle::Idle);
    reg.load(0xffff_ffff);
    reg.modify(|_, w| w.idle().not_idle());
    assert_eq!(reg.read().bits(), !(1u32 << 1));
    assert!(reg.read().idle().is_not_idle());
    assert_eq!(reg.read().idle().variant(), channel_dmasr::Idle::NotIdle);
    let mut reg: Reg<channel_dmasr::DmasrSpec> = Reg::new(0);
    reg.modify(|_, w| w.sg_incld().sg_enabled());
    assert_eq!(reg.read().bits(), 1 << 3);
    assert!(reg.read().sg_incld().is_sg_enabled());
    assert!(!reg.read().sg_incld().is_sg_disabled());
    assert_eq!(reg.read().sg_incld().variant(), channel_dmasr::SgIncld::SgEnabled);
    reg.load(0xffff_ffff);
    reg.modify(|_, w| w.sg_incld().sg_disabled());
    assert_eq!(reg.read().bits(), !(1u32 << 3));
    assert!(reg.read().sg_incld().is_sg_disabled());
    assert_eq!(reg.read().sg_incld().variant(), channel_dmasr::SgIncld::SgDisabled);
    let mut reg: Reg<channel_dmasr::DmasrSpec> = Reg::new(0);
    reg.modify(|_, w| w.dma_int_err().detected());
    assert_eq!(reg.read().bits(), 1 << 4);
    assert!(reg.read().dma_int_err().is_detected());
    assert!(!reg.read().dma_int_err().is_no_err());
    assert_eq!(reg.read().dma_int_err().variant(), channel_dmasr::DmaIntErr::Detected);
    reg.load(0xffff_ffff);
    reg.modify(|_, w| w.dma_int_err().no_err());
    assert_eq!(reg.read().bits(), !(1u32 << 4));
    assert!(reg.read().dma_int_err().is_no_err());
    assert_eq!(reg.read().dma_int_err().variant(), channel_dmasr::DmaIntErr::NoErr);
    let mut reg: Reg<channel_dmasr::DmasrSpec> = Reg::new(0);
    reg.modify(|_, w| w.dma_slv_err().detected());
    assert_eq!(reg.read().bits(), 1 << 5);
    assert!(reg.read().dma_slv_err().is_detected());
    assert!(!reg.read().dma_slv_err().is_no_err());
    assert_eq!(reg.read().dma_slv_err().variant(), channel_dmasr::DmaSlvErr::Detected);
    reg.load(0xffff_ffff);
    reg.modify(|_, w| w.dma_slv_err().no_err());
    assert_eq!(reg.read().bits(), !(1u32 << 5));
    assert!(reg.read().dma_slv_err().is_no_err());
    assert_eq!(reg.read().dma_slv_err().variant(), channel_dmasr::DmaSlvErr::NoErr);
    let mut reg: Reg<channel_dmasr::DmasrSpec> = Reg::new(0);
    reg.modify(|_, w| w.dma_dec_err().detected());
    assert_eq!(reg.read().bits(), 1 << 6);
    assert!(reg.read().dma_dec_err().is_detected());
    assert!(!reg.read().dma_dec_err().is_no_err());
    assert_eq!(reg.read().dma_dec_err().variant(), channel_dmasr::DmaDecErr::Detected);
    reg.load(0xffff_ffff);
    reg.modify(|_, w| w.dma_dec_err().no_err());
    assert_eq!(reg.read().bits(), !(1u32 << 6));
    assert!(reg.read().dma_dec_err().is_no_err());
    assert_eq!(reg.read().dma_dec_err().variant(), channel_dmasr::DmaDecErr::NoErr);
    let mut reg: Reg<channel_dmasr::DmasrSpec> = Reg::new(0);
    reg.modify(|_, w| w.sg_int_err().detected());
    assert_eq!(reg.read().bits(), 1 << 8);
    assert!(reg.read().sg_int_err().is_detected());
    assert!(!reg.read().sg_int_err().is_no_err());
    assert_eq!(reg.read().sg_int_err().variant(), channel_dmasr::SgIntErr::Detected);
    reg.load(0xffff_ffff);
    reg.modify(|_, w| w.sg_int_err().no_err());
    assert_eq!(reg.read().bits(), !(1u32 << 8));
    assert!(reg.read().sg_int_err().is_no_err());
    assert_eq!(reg.read().sg_int_err().variant(), channel_dmasr::SgIntErr::NoErr);
    let mut reg: Reg<channel_dmasr::DmasrSpec> = Reg::new(0);
    reg.modify(|_, w| w.sg_slv_err().detected());
    assert_eq!(reg.read().bits(), 1 << 9);
    assert!(reg.read().sg_slv_err().is_detected());
    assert!(!reg.read().sg_slv_err().is_no_err());
    assert_eq!(reg.read().sg_slv_err().variant(), channel_dmasr::SgSlvErr::Detected);
    reg.load(0xffff_ffff);
    reg.modify(|_, w| w.sg_slv_err().no_err());
    assert_eq!(reg.read().bits(), !(1u32 << 9));
    assert!(reg.read().sg_slv_err().is_no_err());
    assert_eq!(reg.read().sg_slv_err().variant(), channel_dmasr::SgSlvErr::NoErr);
    let mut reg: Reg<channel_dmasr::DmasrSpec> = Reg::new(0);
    reg.modify(|_, w| w.sg_dec_err().detected());
    assert_eq!(reg.read().bits(), 1 << 10);
    assert!(reg.read().sg_dec_err().is_detected());
    assert!(!reg.read().sg_dec_err().is_no_err());
    assert_eq!(reg.read().sg_dec_err().variant(), channel_dmasr::SgDecErr::Detected);
    reg.load(0xffff_ffff);
    reg.modify(|_, w| w.sg_dec_err().no_err());
    assert_eq!(reg.read().bits(), !(1u32 << 10));
    assert!(reg.read().sg_dec_err().is_no_err());
    assert_eq!(reg.read().sg_dec_err().variant(), channel_dmasr::SgDecErr::NoErr);
    let mut reg: Reg<channel_dmasr::DmasrSpec> = Reg::new(0);
    reg.modify(|_, w| w.ioc_irq().detected());
    assert_eq!(reg.read().bits(), 1 << 12);
    assert!(reg.read().ioc_irq().is_detected());
    assert!(!reg.read().ioc_irq().is_no_intr());
    assert_eq!(reg.read().ioc_irq().variant(), channel_dmasr::IocIrq::Detected);
    reg.load(0xffff_ffff);
    reg.modify(|_, w| w.ioc_irq().no_intr());
    assert_eq!(reg.read().bits(), !(1u32 << 12));
    assert!(reg.read().ioc_irq().is_no_intr());
    assert_eq!(reg.read().ioc_irq().variant(), channel_dmasr::IocIrq::NoIntr);
    let mut reg: Reg<channel_dmasr::DmasrSpec> = Reg::new(0);
    reg.modify(|_, w| w.dly_irq().detected());
    assert_eq!(reg.read().bits(), 1 << 13);
    assert!(reg.read().dly_irq().is_detected());
    assert!(!reg.read().dly_irq().is_no_intr());
    assert_eq!(reg.read().dly_irq().variant(), channel_dmasr::DlyIrq::Detected);
    reg.load(0xffff_ffff);
    reg.modify(|_, w| w.dly_irq().no_intr());
    assert_eq!(reg.read().bits(), !(1u32 << 13));
    assert!(reg.read().dly_irq().is_no_intr());
    assert_eq!(reg.read().dly_irq().variant(), channel_dmasr::DlyIrq::NoIntr);
    let mut reg: Reg<channel_dmasr::DmasrSpec> = Reg::new(0);
    reg.modify(|_, w| w.err_irq().detected());
    assert_eq!(reg.read().bits(), 1 << 14);
    assert!(reg.read().err_irq().is_detected());
    assert!(!reg.read().err_irq().is_no_intr());
    assert_eq!(reg.read().err_irq().variant(), channel_dmasr::ErrIrq::Detected);
    reg.load(0xffff_ffff);
    reg.modify(|_, w| w.err_irq().no_intr());
    assert_eq!(reg.read().bits(), !(1u32 << 14));
    assert!(reg.read().err_irq().is_no_intr());
    assert_eq!(reg.read().err_irq().variant(), channel_dmasr::ErrIrq::NoIntr);
    let mut reg: Reg<channel_dmasr::DmasrSpec> = Reg::new(0);
    reg.modify(|_, w| w.irq_threshold_sts().bits(0xa5));
    assert_eq!(reg.read().bits(), 0xa50000);
    assert_eq!(reg.read().irq_threshold_sts().bits(), 0xa5);
    reg.load(0xffff_ffff);
    reg.modify(|_, w| w.irq_threshold_sts().bits(0));
    assert_eq!(reg.read().bits(), 0xff00ffff);
    assert_eq!(reg.read().irq_threshold_sts().bits(), 0);
    let mut reg: Reg<channel_dmasr::DmasrSpec> = Reg::new(0);
    reg.modify(|_, w| w.irq_delay_sts().bits(0xa5));
    assert_eq!(reg.read().bits(), 0xa5000000);
    assert_eq!(reg.read().irq_delay_sts().bits(), 0xa5);
    reg.load(0xffff_ffff);
    reg.modify(|_, w| w.irq_delay_sts().bits(0));
    assert_eq!(reg.read().bits(), 0xffffff);
    assert_eq!(reg.read().irq_delay_sts().bits(), 0);
}

#[test]
fn every_field_of_channel_curdesc() {
    let mut reg: Reg<channel_curdesc::CurdescSpec> = Reg::new(0);
    reg.modify(|_, w| w.curdesc_ptr().bits(0x1a5a5a5));
    assert_eq!(reg.read().bits(), 0x69696940);
    assert_eq!(reg.read().curdesc_ptr().bits(), 0x1a5a5a5);
    reg.load(0xffff_ffff);
    reg.modify(|_, w| w.curdesc_ptr().bits(0));
    assert_eq!(reg.read().bits(), 0x3f);
    assert_eq!(reg.read().curdesc_ptr().bits(), 0);
}

#[test]
fn every_field_of_channel_curdesc_msb() {
    let mut reg: Reg<channel_curdesc_msb::CurdescMsbSpec> = Reg::new(0);
    reg.modify(|_, w| w.curdesc_ptr().bits(0xa5a5a5a5));
    assert_eq!(reg.read().bits(), 0xa5a5a5a5);
    assert_eq!(reg.read().curdesc_ptr().bits(), 0xa5a5a5a5);
    reg.load(0xffff_ffff);
    reg.modify(|_, w| w.curdesc_ptr().bits(0));
    assert_eq!(reg.read().bits(), 0x0);
    assert_eq!(reg.read().curdesc_ptr().bits(), 0);
}

#[test]
fn every_field_of_channel_taildesc() {
    let mut reg: Reg<channel_taildesc::TaildescSpec> = Reg::new(0);
    reg.modify(|_, w| w.taildesc_ptr().bits(0x1a5a5a5));
    assert_eq!(reg.read().bits(), 0x69696940);
    assert_eq!(reg.read().taildesc_ptr().bits(), 0x1a5a5a5);
    reg.load(0xffff_ffff);
    reg.modify(|_, w| w.taildesc_ptr().bits(0));
    assert_eq!(reg.read().bits(), 0x3f);
    assert_eq!(reg.read().taildesc_ptr().bits(), 0);
}

#[test]
fn every_field_of_channel_taildesc_msb() {
    let mut reg: Reg<channel_taildesc_msb::TaildescMsbSpec> = Reg::new(0);
    reg.modify(|_, w| w.taildesc_ptr().bits(0xa5a5a5a5));
    assert_eq!(reg.read().bits(), 0xa5a5a5a5);
    assert_eq!(reg.read().taildesc_ptr().bits(), 0xa5a5a5a5);
    reg.load(0xffff_ffff);
    reg.modify(|_, w| w.taildesc_ptr().bits(0));
    assert_eq!(reg.read().bits(), 0x0);
    assert_eq!(reg.read().taildesc_ptr().bits(), 0);
}

#[test]
fn every_field_of_axi_dma_mm2s_curdesc() {
    let mut reg: Reg<axi_dma_mm2s_curdesc::Mm2sCurdescSpec> = Reg::new(0);
    reg.modify(|_, w| w.curdesc_ptr().bits(0x1a5a5a5));
    assert_eq!(reg.read().bits(), 0x69696940);
    assert_eq!(reg.read().curdesc_ptr().bits(), 0x1a5a5a5);
    reg.load(0xffff_ffff);
    reg.modify(|_, w| w.curdesc_ptr().bits(0));
    assert_eq!(reg.read().bits(), 0x3f);
    assert_eq!(reg.read().curdesc_ptr().bits(), 0);
}

#[test]
fn every_field_of_axi_dma_mm2s_curdesc_msb() {
    let mut reg: Reg<axi_dma_mm2s_curdesc_msb::Mm2sCurdescMsbSpec> = Reg::new(0);
    reg.modify(|_, w| w.curdesc_ptr().bits(0xa5a5a5a5));
    assert_eq!(reg.read().bits(), 0xa5a5a5a5);
    assert_eq!(reg.read().curdesc_ptr().bits(), 0xa5a5a5a5);
    reg.load(0xffff_ffff);
    reg.modify(|_, w| w.curdesc_ptr().bits(0));
    assert_eq!(reg.read().bits(), 0x0);
    assert_eq!(reg.read().curdesc_ptr().bits(), 0);
}

#[test]
fn every_field_of_axi_dma_mm2s_taildesc() {
    let mut reg: Reg<axi_dma_mm2s_taildesc::Mm2sTaildescSpec> = Reg::new(0);
    reg.modify(|_, w| w.taildesc_ptr().bits(0x1a5a5a5));
    assert_eq!(reg.read().bits(), 0x69696940);
    assert_eq!(reg.read().taildesc_ptr().bits(), 0x1a5a5a5);
    reg.load(0xffff_ffff);
    reg.modify(|_, w| w.taildesc_ptr().bits(0));
    assert_eq!(reg.read().bits(), 0x3f);
    assert_eq!(reg.read().taildesc_ptr().bits(), 0);
}

#[test]
fn every_field_of_axi_dma_s2mm_curdesc() {
    let mut reg: Reg<axi_dma_s2mm_curdesc::S2mmCurdescSpec> = Reg::new(0);
    reg.modify(|_, w| w.curdesc_ptr().bits(0x1a5a5a5));
    assert_eq!(reg.read().bits(), 0x69696940);
    assert_eq!(reg.read().curdesc_ptr().bits(), 0x1a5a5a5);
    reg.load(0xffff_ffff);
    reg.modify(|_, w| w.curdesc_ptr().bits(0));
    assert_eq!(reg.read().bits(), 0x3f);
    assert_eq!(reg.read().curdesc_ptr().bits(), 0);
}

#[test]
fn every_field_of_axi_dma_s2mm_curdesc_msb() {
    let mut reg: Reg<axi_dma_s2mm_curdesc_msb::S2mmCurdescMsbSpec> = Reg::new(0);
    reg.modify(|_, w| w.curdesc_ptr().bits(0xa5a5a5a5));
    assert_eq!(reg.read().bits(), 0xa5a5a5a5);
    assert_eq!(reg.read().curdesc_ptr().bits(), 0xa5a5a5a5);
    reg.load(0xffff_ffff);
    reg.modify(|_, w| w.curdesc_ptr().bits(0));
    assert_eq!(reg.read().bits(), 0x0);
    assert_eq!(reg.read().curdesc_ptr().bits(), 0);
}

#[test]
fn every_field_of_axi_dma_s2mm_taildesc() {
    let mut reg: Reg<axi_dma_s2mm_taildesc::S2mmTaildescSpec> = Reg::new(0);
    reg.modify(|_, w| w.taildesc_ptr().bits(0x1a5a5a5));
    assert_eq!(reg.read().bits(), 0x69696940);
    assert_eq!(reg.read().taildesc_ptr().bits(), 0x1a5a5a5);
    reg.load(0xffff_ffff);
    reg.modify(|_, w| w.taildesc_ptr().bits(0));
    assert_eq!(reg.read().bits(), 0x3f);
    assert_eq!(reg.read().taildesc_ptr().bits(), 0);
}

#[test]
fn every_field_of_axi_dma_mm2s_taildesc_msb() {
    let mut reg: Reg<axi_dma_mm2s_taildesc_msb::Mm2sTaildescMsbSpec> = Reg::new(0);
    reg.modify(|_, w| w.taildesc_ptr().bits(0xa5a5a5a5));
    assert_eq!(reg.read().bits(), 0xa5a5a5a5);
    assert_eq!(reg.read().taildesc_ptr().bits(), 0xa5a5a5a5);
    reg.load(0xffff_ffff);
    reg.modify(|_, w| w.taildesc_ptr().bits(0));
    assert_eq!(reg.read().bits(), 0x0);
    assert_eq!(reg.read().taildesc_ptr().bits(), 0);
}

#[test]
fn every_field_of_axi_dma_mm2s_sa() {
    let mut reg: Reg<axi_dma_mm2s_sa::Mm2sSaSpec> = Reg::new(0);
    reg.modify(|_, w| w.src_addr().bits(0xa5a5a5a5));
    assert_eq!(reg.read().bits(), 0xa5a5a5a5);
    assert_eq!(reg.read().src_addr().bits(), 0xa5a5a5a5);
    reg.load(0xffff_ffff);
    reg.modify(|_, w| w.src_addr().bits(0));
    assert_eq!(reg.read().bits(), 0x0);
    assert_eq!(reg.read().src_addr().bits(), 0);
}

#[test]
fn every_field_of_axi_dma_mm2s_sa_msb() {
    let mut reg: Reg<axi_dma_mm2s_sa_msb::Mm2sSaMsbSpec> = Reg::new(0);
    reg.modify(|_, w| w.src_addr().bits(0xa5a5a5a5));
    assert_eq!(reg.read().bits(), 0xa5a5a5a5);
    assert_eq!(reg.read().src_addr().bits(), 0xa5a5a5a5);
    reg.load(0xffff_ffff);
    reg.modify(|_, w| w.src_addr().bits(0));
    assert_eq!(reg.read().bits(), 0x0);
    assert_eq!(reg.read().src_addr().bits(), 0);
}

#[test]
fn every_field_of_axi_dma_s2mm_da() {
    let mut reg: Reg<axi_dma_s2mm_da::S2mmDaSpec> = Reg::new(0);
    reg.modify(|_, w| w.dst_addr().bits(0xa5a5a5a5));
    assert_eq!(reg.read().bits(), 0xa5a5a5a5);
    assert_eq!(reg.read().dst_addr().bits(), 0xa5a5a5a5);
    reg.load(0xffff_ffff);
    reg.modify(|_, w| w.dst_addr().bits(0));
    assert_eq!(reg.read().bits(), 0x0);
    assert_eq!(reg.read().dst_addr().bits(), 0);
}

#[test]
fn every_field_of_axi_dma_s2mm_da_msb() {
    let mut reg: Reg<axi_dma_s2mm_da_msb::S2mmDaMsbSpec> = Reg::new(0);
    reg.modify(|_, w| w.dst_addr().bits(0xa5a5a5a5));
    assert_eq!(reg.read().bits(), 0xa5a5a5a5);
    assert_eq!(reg.read().dst_addr().bits(), 0xa5a5a5a5);
    reg.load(0xffff_ffff);
    reg.modify(|_, w| w.dst_addr().bits(0));
    assert_eq!(reg.read().bits(), 0x0);
    assert_eq!(reg.read().dst_addr().bits(), 0);
}

#[test]
fn every_field_of_axi_dma_mm2s_length() {
    let mut reg: Reg<axi_dma_mm2s_length::Mm2sLengthSpec> = Reg::new(0);
    reg.modify(|_, w| w.length().bits(0x1a5a5a5));
    assert_eq!(reg.read().bits(), 0x1a5a5a5);
    assert_eq!(reg.read().length().bits(), 0x1a5a5a5);
    reg.load(0xffff_ffff);
    reg.modify(|_, w| w.length().bits(0));
    assert_eq!(reg.read().bits(), 0xfc000000);
    assert_eq!(reg.read().length().bits(), 0);
}

#[test]
fn every_field_of_axi_dma_s2mm_length() {
    let mut reg: Reg<axi_dma_s2mm_length::S2mmLengthSpec> = Reg::new(0);
    reg.modify(|_, w| w.ctl_lt_initialize_to_tx().enable());
    assert_eq!(reg.read().bits(), 1 << 0);
    assert!(reg.read().ctl_lt_initialize_to_tx().is_enable());
    assert!(!reg.read().ctl_lt_initialize_to_tx().is_disable());
    assert_eq!(reg.read().ctl_lt_initialize_to_tx().variant(), axi_dma_s2mm_length::CtlLtInitializeToTx::Enable);
    reg.load(0xffff_ffff);
    reg.modify(|_, w| w.ctl_lt_initialize_to_tx().disable());
    assert_eq!(reg.read().bits(), !(1u32 << 0));
    assert!(reg.read().ctl_lt_initialize_to_tx().is_disable());
    assert_eq!(reg.read().ctl_lt_initialize_to_tx().variant(), axi_dma_s2mm_length::CtlLtInitializeToTx::Disable);
}

#[test]
fn every_field_of_axi_dma_sg_ctl() {
    let mut reg: Reg<axi_dma_sg_ctl::SgCtlSpec> = Reg::new(0);
    reg.modify(|_, w| w.sg_cache().bits(0xa5));
    assert_eq!(reg.read().bits(), 0x5);
    assert_eq!(reg.read().sg_cache().bits(), 0x5);
    reg.load(0xffff_ffff);
    reg.modify(|_, w| w.sg_cache().bits(0));
    assert_eq!(reg.read().bits(), 0xfffffff0);
    assert_eq!(reg.read().sg_cache().bits(), 0);
    let mut reg: Reg<axi_dma_sg_ctl::SgCtlSpec> = Reg::new(0);
    reg.modify(|_, w| w.sg_user().bits(0xa5));
    assert_eq!(reg.read().bits(), 0x500);
    assert_eq!(reg.read().sg_user().bits(), 0x5);
    reg.load(0xffff_ffff);
    reg.modify(|_, w| w.sg_user().bits(0));
    assert_eq!(reg.read().bits(), 0xfffff0ff);
    assert_eq!(reg.read().sg_user().bits(), 0);
}

#[test]
fn every_field_of_axi_dma_s2mm_dmacr() {
    let mut reg: Reg<axi_dma_s2mm_dmacr::S2mmDmacrSpec> = Reg::new(0);
    reg.modify(|_, w| w.run_stop().run());
    assert_eq!(reg.read().bits(), 1 << 0);
    assert!(reg.read().run_stop().is_run());
    assert!(!reg.read().run_stop().is_stop());
    assert_eq!(reg.read().run_stop().variant(), axi_dma_s2mm_dmacr::RunStop::Run);
    reg.load(0xffff_ffff);
    reg.modify(|_, w| w.run_stop().stop());
    assert_eq!(reg.read().bits(), !(1u32 << 0));
    assert!(reg.read().run_stop().is_stop());
    assert_eq!(reg.read().run_stop().variant(), axi_dma_s2mm_dmacr::RunStop::Stop);
    let mut reg: Reg<axi_dma_s2mm_dmacr::S2mmDmacrSpec> = Reg::new(0);
    reg.modify(|_, w| w.reset().reset());
    assert_eq!(reg.read().bits(), 1 << 2);
    assert!(reg.read().reset().is_reset());
    assert!(!reg.read().reset().is_normal());
    assert_eq!(reg.read().reset().variant(), axi_dma_s2mm_dmacr::Reset::Reset);
    reg.load(0xffff_ffff);
    reg.modify(|_, w| w.reset().normal());
    assert_eq!(reg.read().bits(), !(1u32 << 2));
    assert!(reg.read().reset().is_normal());
    assert_eq!(reg.read().reset().variant(), axi_dma_s2mm_dmacr::Reset::Normal);
    let mut reg: Reg<axi_dma_s2mm_dmacr::S2mmDmacrSpec> = Reg::new(0);
    reg.modify(|_, w| w.keyhole().enable());
    assert_eq!(reg.read().bits(), 1 << 3);
    assert!(reg.read().keyhole().is_enable());
    assert!(!reg.read().keyhole().is_disable());
    assert_eq!(reg.read().keyhole().variant(), axi_dma_s2mm_dmacr::Keyhole::Enable);
    reg.load(0xffff_ffff);
    reg.modify(|_, w| w.keyhole().disable());
    assert_eq!(reg.read().bits(), !(1u32 << 3));
    assert!(reg.read().keyhole().is_disable());
    assert_eq!(reg.read().keyhole().variant(), axi_dma_s2mm_dmacr::Keyhole::Disable);
    let mut reg: Reg<axi_dma_s2mm_dmacr::S2mmDmacrSpec> = Reg::new(0);
    reg.modify(|_, w| w.cyclic_buffer_descriptor().enable());
    assert_eq!(reg.read().bits(), 1 << 4);
    assert!(reg.read().cyclic_buffer_descriptor().is_enable());
    assert!(!reg.read().cyclic_buffer_descriptor().is_disable());
    assert_eq!(reg.read().cyclic_buffer_descriptor().variant(), axi_dma_s2mm_dmacr::CyclicBufferDescriptor::Enable);
    reg.load(0xffff_ffff);
    reg.modify(|_, w| w.cyclic_buffer_descriptor().disable());
    assert_eq!(reg.read().bits(), !(1u32 << 4));
    assert!(reg.read().cyclic_buffer_descriptor().is_disable());
    assert_eq!(reg.read().cyclic_buffer_descriptor().variant(), axi_dma_s2mm_dmacr::CyclicBufferDescriptor::Disable);
    let mut reg: Reg<axi_dma_s2mm_dmacr::S2mmDmacrSpec> = Reg::new(0);
    reg.modify(|_, w| w.ioc_irq_en().enable());
    assert_eq!(reg.read().bits(), 1 << 12);
    assert!(reg.read().ioc_irq_en().is_enable());
    assert!(!reg.read().ioc_irq_en().is_disable());
    assert_eq!(reg.read().ioc_irq_en().variant(), axi_dma_s2mm_dmacr::IocIrqEn::Enable);
    reg.load(0xffff_ffff);
    reg.modify(|_, w| w.ioc_irq_en().disable());
    assert_eq!(reg.read().bits(), !(1u32 << 12));
    assert!(reg.read().ioc_irq_en().is_disable());
    assert_eq!(reg.read().ioc_irq_en().variant(), axi_dma_s2mm_dmacr::IocIrqEn::Disable);
    let mut reg: Reg<axi_dma_s2mm_dmacr::S2mmDmacrSpec> = Reg::new(0);
    reg.modify(|_, w| w.dly_irq_en().enable());
    assert_eq!(reg.read().bits(), 1 << 13);
    assert!(reg.read().dly_irq_en().is_enable());
    assert!(!reg.read().dly_irq_en().is_disable());
    assert_eq!(reg.read().dly_irq_en().variant(), axi_dma_s2mm_dmacr::DlyIrqEn::Enable);
    reg.load(0xffff_ffff);
    reg.modify(|_, w| w.dly_irq_en().disable());
    assert_eq!(reg.read().bits(), !(1u32 << 13));
    assert!(reg.read().dly_irq_en().is_disable());
    assert_eq!(reg.read().dly_irq_en().variant(), axi_dma_s2mm_dmacr::DlyIrqEn::Disable);
    let mut reg: Reg<axi_dma_s2mm_dmacr::S2mmDmacrSpec> = Reg::new(0);
    reg.modify(|_, w| w.err_irq_en().enable());
    assert_eq!(reg.read().bits(), 1 << 14);
    assert!(reg.read().err_irq_en().is_enable());
    assert!(!reg.read().err_irq_en().is_disable());
    assert_eq!(reg.read().err_irq_en().variant(), axi_dma_s2mm_dmacr::ErrIrqEn::Enable);
    reg.load(0xffff_ffff);
    reg.modify(|_, w| w.err_irq_en().disable());
    assert_eq!(reg.read().bits(), !(1u32 << 14));
    assert!(reg.read().err_irq_en().is_disable());
    assert_eq!(reg.read().err_irq_en().variant(), axi_dma_s2mm_dmacr::ErrIrqEn::Disable);
    let mut reg: Reg<axi_dma_s2mm_dmacr::S2mmDmacrSpec> = Reg::new(0);
    reg.modify(|_, w| w.irq_threshold().bits(0xa5));
    assert_eq!(reg.read().bits(), 0xa50000);
    assert_eq!(reg.read().irq_threshold().bits(), 0xa5);
    reg.load(0xffff_ffff);
    reg.modify(|_, w| w.irq_threshold().bits(0));
    assert_eq!(reg.read().bits(), 0xff00ffff);
    assert_eq!(reg.read().irq_threshold().bits(), 0);
    let mut reg: Reg<axi_dma_s2mm_dmacr::S2mmDmacrSpec> = Reg::new(0);
    reg.modify(|_, w| w.irq_delay().bits(0xa5));
    assert_eq!(reg.read().bits(), 0xa5000000);
    assert_eq!(reg.read().irq_delay().bits(), 0xa5);
    reg.load(0xffff_ffff);
    reg.modify(|_, w| w.irq_delay().bits(0));
    assert_eq!(reg.read().bits(), 0xffffff);
    assert_eq!(reg.read().irq_delay().bits(), 0);
}

#[test]
fn every_field_of_sg_desc_nxt_desc() {
    let mut reg: Reg<sg_desc_nxt_desc::NxtDescSpec> = Reg::new(0);
    reg.modify(|_, w| w.nxt_desc_ptr().bits(0x1a5a5a5));
    assert_eq!(reg.read().bits(), 0x69696940);
    assert_eq!(reg.read().nxt_desc_ptr().bits(), 0x1a5a5a5);
    reg.load(0xffff_ffff);
    reg.modify(|_, w| w.nxt_desc_ptr().bits(0));
    assert_eq!(reg.read().bits(), 0x3f);
    assert_eq!(reg.read().nxt_desc_ptr().bits(), 0);
}

#[test]
fn every_field_of_sg_desc_nxt_desc_msb() {
    let mut reg: Reg<sg_desc_nxt_desc_msb::NxtDescMsbSpec> = Reg::new(0);
    reg.modify(|_, w| w.nxt_desc_ptr().bits(0xa5a5a5a5));
    assert_eq!(reg.read().bits(), 0xa5a5a5a5);
    assert_eq!(reg.read().nxt_desc_ptr().bits(), 0xa5a5a5a5);
    reg.load(0xffff_ffff);
    reg.modify(|_, w| w.nxt_desc_ptr().bits(0));
    assert_eq!(reg.read().bits(), 0x0);
    assert_eq!(reg.read().nxt_desc_ptr().bits(), 0);
}

#[test]
fn every_field_of_sg_desc_buf_addr() {
    let mut reg: Reg<sg_desc_buf_addr::BufAddrSpec> = Reg::new(0);
    reg.modify(|_, w| w.buf_addr().bits(0xa5a5a5a5));
    assert_eq!(reg.read().bits(), 0xa5a5a5a5);
    assert_eq!(reg.read().buf_addr().bits(), 0xa5a5a5a5);
    reg.load(0xffff_ffff);
    reg.modify(|_, w| w.buf_addr().bits(0));
    assert_eq!(reg.read().bits(), 0x0);
    assert_eq!(reg.read().buf_addr().bits(), 0);
}

#[test]
fn every_field_of_sg_desc_buf_addr_msb() {
    let mut reg: Reg<sg_desc_buf_addr_msb::BufAddrMsbSpec> = Reg::new(0);
    reg.modify(|_, w| w.buf_addr().bits(0xa5a5a5a5));
    assert_eq!(reg.read().bits(), 0xa5a5a5a5);
    assert_eq!(reg.read().buf_addr().bits(), 0xa5a5a5a5);
    reg.load(0xffff_ffff);
    reg.modify(|_, w| w.buf_addr().bits(0));
    assert_eq!(reg.read().bits(), 0x0);
    assert_eq!(reg.read().buf_addr().bits(), 0);
}

#[test]
fn every_field_of_sg_desc_control() {
    let mut reg: Reg<sg_desc_control::ControlSpec> = Reg::new(0);
    reg.modify(|_, w| w.buf_len().bits(0x1a5a5a5));
    assert_eq!(reg.read().bits(), 0x1a5a5a5);
    assert_eq!(reg.read().buf_len().bits(), 0x1a5a5a5);
    reg.load(0xffff_ffff);
    reg.modify(|_, w| w.buf_len().bits(0));
    assert_eq!(reg.read().bits(), 0xfc000000);
    assert_eq!(reg.read().buf_len().bits(), 0);
    let mut reg: Reg<sg_desc_control::ControlSpec> = Reg::new(0);
    reg.modify(|_, w| w.eof().true_());
    assert_eq!(reg.read().bits(), 1 << 26);
    assert!(reg.read().eof().is_true());
    assert!(!reg.read().eof().is_false());
    assert_eq!(reg.read().eof().variant(), sg_desc_control::Eof::True);
    reg.load(0xffff_ffff);
    reg.modify(|_, w| w.eof().false_());
    assert_eq!(reg.read().bits(), !(1u32 << 26));
    assert!(reg.read().eof().is_false());
    assert_eq!(reg.read().eof().variant(), sg_desc_control::Eof::False);
    let mut reg: Reg<sg_desc_control::ControlSpec> = Reg::new(0);
    reg.modify(|_, w| w.sof().true_());
    assert_eq!(reg.read().bits(), 1 << 27);
    assert!(reg.read().sof().is_true());
    assert!(!reg.read().sof().is_false());
    assert_eq!(reg.read().sof().variant(), sg_desc_control::Sof::True);
    reg.load(0xffff_ffff);
    reg.modify(|_, w| w.sof().false_());
    assert_eq!(reg.read().bits(), !(1u32 << 27));
    assert!(reg.read().sof().is_false());
    assert_eq!(reg.read().sof().variant(), sg_desc_control::Sof::False);
}

#[test]
fn every_field_of_sg_desc_status() {
    let mut reg: Reg<sg_desc_status::StatusSpec> = Reg::new(0);
    reg.load(0x1a5a5a5);
    assert_eq!(reg.read().tfer_bytes().bits(), 0x1a5a5a5);
    reg.load(0xfc000000);
    assert_eq!(reg.read().tfer_bytes().bits(), 0);
    let mut reg: Reg<sg_desc_status::StatusSpec> = Reg::new(0);
    reg.load(1 << 26);
    assert!(reg.read().rxeof().is_true());
    assert!(!reg.read().rxeof().is_false());
    assert_eq!(reg.read().rxeof().variant(), sg_desc_status::Rxeof::True);
    reg.load(!(1u32 << 26));
    assert!(reg.read().rxeof().is_false());
    assert_eq!(reg.read().rxeof().variant(), sg_desc_status::Rxeof::False);
    let mut reg: Reg<sg_desc_status::StatusSpec> = Reg::new(0);
    reg.load(1 << 27);
    assert!(reg.read().rxsof().is_true());
    assert!(!reg.read().rxsof().is_false());
    assert_eq!(reg.read().rxsof().variant(), sg_desc_status::Rxsof::True);
    reg.load(!(1u32 << 27));
    assert!(reg.read().rxsof().is_false());
    assert_eq!(reg.read().rxsof().variant(), sg_desc_status::Rxsof::False);
    let mut reg: Reg<sg_desc_status::StatusSpec> = Reg::new(0);
    reg.load(1 << 28);
    assert!(reg.read().dma_int_err().is_detected());
    assert!(!reg.read().dma_int_err().is_no_err());
    assert_eq!(reg.read().dma_int_err().variant(), sg_desc_status::DmaIntErr::Detected);
    reg.load(!(1u32 << 28));
    assert!(reg.read().dma_int_err().is_no_err());
    assert_eq!(reg.read().dma_int_err().variant(), sg_desc_status::DmaIntErr::NoErr);
    let mut reg: Reg<sg_desc_status::StatusSpec> = Reg::new(0);
    reg.load(1 << 29);
    assert!(reg.read().dma_slv_err().is_detected());
    assert!(!reg.read().dma_slv_err().is_no_err());
    assert_eq!(reg.read().dma_slv_err().variant(), sg_desc_status::DmaSlvErr::Detected);
    reg.load(!(1u32 << 29));
    assert!(reg.read().dma_slv_err().is_no_err());
    assert_eq!(reg.read().dma_slv_err().variant(), sg_desc_status::DmaSlvErr::NoErr);
    let mut reg: Reg<sg_desc_status::StatusSpec> = Reg::new(0);
    reg.load(1 << 30);
    assert!(reg.read().dma_dec_err().is_detected());
    assert!(!reg.read().dma_dec_err().is_no_err());
    assert_eq!(reg.read().dma_dec_err().variant(), sg_desc_status::DmaDecErr::Detected);
    reg.load(!(1u32 << 30));
    assert!(reg.read().dma_dec_err().is_no_err());
    assert_eq!(reg.read().dma_dec_err().variant(), sg_desc_status::DmaDecErr::NoErr);
    let mut reg: Reg<sg_desc_status::StatusSpec> = Reg::new(0);
    reg.load(1 << 31);
    assert!(reg.read().cmplt().is_true());
    assert!(!reg.read().cmplt().is_false());
    assert_eq!(reg.read().cmplt().variant(), sg_desc_status::Cmplt::True);
    reg.load(!(1u32 << 31));
    assert!(reg.read().cmplt().is_false());
    assert_eq!(reg.read().cmplt().variant(), sg_desc_status::Cmplt::False);
}

#[test]
fn every_field_of_sg_desc_app() {
    let mut reg: Reg<sg_desc_app::AppSpec> = Reg::new(0);
    reg.modify(|_, w| w.app().bits(0xa5a5a5a5));
    assert_eq!(reg.read().bits(), 0xa5a5a5a5);
    assert_eq!(reg.read().app().bits(), 0xa5a5a5a5);
    reg.load(0xffff_ffff);
    reg.modify(|_, w| w.app().bits(0));
    assert_eq!(reg.read().bits(), 0x0);
    assert_eq!(reg.read().app().bits(), 0);
}
