use axidma::pac::axi_dma;
use axidma::pac::channel::dmacr::{DmacrSpec, RunStop};
use axidma::pac::channel::dmasr::{DmasrSpec, ErrIrq, Halted};
use axidma::pac::channel::RegisterBlock;
use axidma::pac::generic::Reg;
use axidma::pac::sg_desc;
use axidma::pac::sg_desc::control::ControlSpec;
use axidma::pac::sg_desc::nxt_desc::NxtDescSpec;
use axidma::pac::sg_desc::status::{Cmplt, StatusSpec};
use axidma::pac::{AXI_DMA, SG_DESC};

#[test]
fn a_new_image_holds_its_word() {
    let reg: Reg<DmacrSpec> = Reg::new(0x0001_0002);
    assert_eq!(reg.read().bits(), 0x0001_0002);
}

#[test]
fn load_replaces_the_word() {
    let mut reg: Reg<DmasrSpec> = Reg::new(0);
    reg.load(0x0000_1001);
    let status = reg.read();
    assert!(status.halted().is_halted());
    assert!(status.ioc_irq().is_detected());
    assert!(status.err_irq().is_no_intr());
    assert_eq!(status.halted().variant(), Halted::Halted);
    assert_eq!(status.err_irq().variant(), ErrIrq::NoIntr);
}

#[test]
fn modify_changes_one_bit_and_keeps_the_rest() {
    let mut reg: Reg<DmacrSpec> = Reg::new(0x00ff_7000);
    reg.modify(|_, w| w.run_stop().run());
    assert_eq!(reg.read().bits(), 0x00ff_7001);
    assert_eq!(reg.read().run_stop().variant(), RunStop::Run);
    reg.modify(|_, w| w.run_stop().stop());
    assert_eq!(reg.read().bits(), 0x00ff_7000);
    assert!(reg.read().run_stop().is_stop());
}

#[test]
fn modify_sees_what_was_read() {
    let mut reg: Reg<DmacrSpec> = Reg::new(0x4);
    reg.modify(|r, w| if r.reset().is_reset() { w.reset().normal() } else { w });
    assert_eq!(reg.read().bits(), 0);
}

#[test]
fn write_starts_from_the_reset_value() {
    let mut reg: Reg<DmacrSpec> = Reg::new(0xffff_ffff);
    reg.write(|w| w.reset().reset());
    assert_eq!(reg.read().bits(), 0x4);
    reg.write_with_zero(|w| w.keyhole().enable());
    assert_eq!(reg.read().bits(), 0x8);
    reg.reset();
    assert_eq!(reg.read().bits(), 0);
}

#[test]
fn threshold_and_delay_sit_in_the_two_high_bytes() {
    let mut reg: Reg<DmacrSpec> = Reg::new(0);
    reg.modify(|_, w| w.irq_threshold().bits(0x12).irq_delay().bits(0x34));
    assert_eq!(reg.read().bits(), 0x3412_0000);
    assert_eq!(reg.read().irq_threshold().bits(), 0x12);
    assert_eq!(reg.read().irq_delay().bits(), 0x34);
}

#[test]
fn the_three_interrupt_enables_are_bits_12_to_14() {
    let mut reg: Reg<DmacrSpec> = Reg::new(0);
    reg.modify(|_, w| w.ioc_irq_en().enable());
    assert_eq!(reg.read().bits(), 1 << 12);
    reg.modify(|_, w| w.dly_irq_en().enable());
    assert_eq!(reg.read().bits(), (1 << 12) | (1 << 13));
    reg.modify(|_, w| w.err_irq_en().enable());
    assert_eq!(reg.read().bits(), 0x7000);
    assert!(reg.read().ioc_irq_en().is_enable());
    reg.modify(|_, w| w.ioc_irq_en().disable());
    assert!(reg.read().ioc_irq_en().is_disable());
    assert_eq!(reg.read().bits(), 0x6000);
}

#[test]
fn cyclic_mode_is_bit_4() {
    let mut reg: Reg<DmacrSpec> = Reg::new(0);
    reg.modify(|_, w| w.cyclic_enable().set_bit());
    assert_eq!(reg.read().bits(), 0x10);
    assert!(reg.read().cyclic_enable().bit_is_set());
    reg.modify(|_, w| w.cyclic_enable().clear_bit());
    assert!(reg.read().cyclic_enable().bit_is_clear());
}

#[test]
fn status_fields_decode() {
    let reg: Reg<DmasrSpec> = Reg::new(0xab12_4772);
    let r = reg.read();
    assert!(r.halted().is_running());
    assert!(r.idle().is_idle());
    assert!(r.sg_incld().is_sg_disabled());
    assert!(r.dma_int_err().is_detected());
    assert!(r.dma_slv_err().is_detected());
    assert!(r.dma_dec_err().is_detected());
    assert!(r.sg_int_err().is_detected());
    assert!(r.sg_slv_err().is_detected());
    assert!(r.sg_dec_err().is_detected());
    assert!(r.ioc_irq().is_no_intr());
    assert!(r.dly_irq().is_no_intr());
    assert!(r.err_irq().is_detected());
    assert_eq!(r.irq_threshold_sts().bits(), 0x12);
    assert_eq!(r.irq_delay_sts().bits(), 0xab);
}

#[test]
fn pointer_fields_hold_address_bits_6_to_31() {
    let mut reg: Reg<NxtDescSpec> = Reg::new(0);
    reg.write(|w| w.nxt_desc_ptr().bits(0x4040 >> 6));
    assert_eq!(reg.read().bits(), 0x4040);
    assert_eq!(reg.read().nxt_desc_ptr().bits(), 0x101);
}

#[test]
fn a_field_takes_only_its_own_bits() {
    let mut reg: Reg<ControlSpec> = Reg::new(0);
    reg.modify(|_, w| w.sof().true_().eof().true_());
    reg.modify(|_, w| w.buf_len().bits(0xffff_ffff));
    assert_eq!(reg.read().buf_len().bits(), 0x03ff_ffff);
    assert!(reg.read().sof().is_true());
    assert!(reg.read().eof().is_true());
    reg.modify(|_, w| w.buf_len().bits(0x100).sof().false_());
    assert_eq!(reg.read().bits(), 0x0400_0100);
    assert!(reg.read().sof().is_false());
}

#[test]
fn descriptor_status_decodes() {
    let reg: Reg<StatusSpec> = Reg::new(0xd400_0123);
    let r = reg.read();
    assert_eq!(r.tfer_bytes().bits(), 0x123);
    assert!(r.rxeof().is_true());
    assert!(r.rxsof().is_false());
    assert!(r.dma_int_err().is_detected());
    assert!(r.dma_slv_err().is_no_err());
    assert!(r.dma_dec_err().is_detected());
    assert!(r.cmplt().is_true());
    assert_eq!(r.cmplt().variant(), Cmplt::True);
}

#[test]
fn a_new_channel_block_is_zero() {
    let block = RegisterBlock::new();
    assert_eq!(block.dmacr().read().bits(), 0);
    assert_eq!(block.dmasr().read().bits(), 0);
    assert_eq!(block.curdesc().read().bits(), 0);
    assert_eq!(block.curdesc_msb().read().bits(), 0);
    assert_eq!(block.taildesc().read().bits(), 0);
    assert_eq!(block.taildesc_msb().read().bits(), 0);
}

#[test]
fn a_new_descriptor_block_is_zero() {
    let block = sg_desc::RegisterBlock::new();
    assert_eq!(block.nxt_desc().read().bits(), 0);
    assert_eq!(block.nxt_desc_msb().read().bits(), 0);
    assert_eq!(block.buf_addr().read().bits(), 0);
    assert_eq!(block.buf_addr_msb().read().bits(), 0);
    assert_eq!(block.control().read().bits(), 0);
    assert_eq!(block.status().read().bits(), 0);
    for n in 0..5 {
        assert_eq!(block.app(n).read().app().bits(), 0);
    }
}

#[test]
fn the_device_block_has_both_halves() {
    let mut block = axi_dma::RegisterBlock::new();
    block.s2mm_dmacr.modify(|_, w| w.cyclic_buffer_descriptor().enable().run_stop().run());
    assert_eq!(block.s2mm_dmacr().read().bits(), 0x11);
    block.mm2s_length.write(|w| w.length().bits(0x1234));
    assert_eq!(block.mm2s_length().read().length().bits(), 0x1234);
    block.sg_ctl.write(|w| w.sg_cache().bits(0x3).sg_user().bits(0xf5));
    assert_eq!(block.sg_ctl().read().bits(), 0x0503);
    assert_eq!(block.sg_ctl().read().sg_user().bits(), 0x5);
    block.s2mm_length.write(|w| w.ctl_lt_initialize_to_tx().enable());
    assert!(block.s2mm_length().read().ctl_lt_initialize_to_tx().is_enable());
    block.mm2s_sa.write(|w| w.src_addr().bits(0xdead_beef));
    assert_eq!(block.mm2s_sa().read().src_addr().bits(), 0xdead_beef);
    block.s2mm_da_msb.write(|w| w.dst_addr().bits(7));
    assert_eq!(block.s2mm_da_msb().read().dst_addr().bits(), 7);
    block.mm2s_curdesc.write(|w| w.curdesc_ptr().bits(1));
    assert_eq!(block.mm2s_curdesc().read().bits(), 0x40);
    block.s2mm_taildesc.write(|w| w.taildesc_ptr().bits(2));
    assert_eq!(block.s2mm_taildesc().read().bits(), 0x80);
    assert_eq!(block.mm2s_dmasr().read().bits(), 0);
    assert_eq!(block.s2mm_dmasr().read().bits(), 0);
    assert_eq!(block.mm2s_dmacr().read().bits(), 0);
}

#[test]
fn the_usual_places() {
    assert_eq!(AXI_DMA::ptr(), 0x6010_0000);
    assert_eq!(SG_DESC::ptr(), 0);
}
