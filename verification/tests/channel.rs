use axidma::buffer::BufPtr;
use axidma::channel::{
    AxiDMAChannel, BusOp, Direaction, CURDESC, CURDESC_MSB, DMACR, DMASR, TAILDESC, TAILDESC_MSB,
};
use axidma::errno::AxiDMAErr;
use axidma::AxiDmaConfig;

const BASE: usize = 0x4000;
const DONE: u32 = 0x8000_0000;

fn cfg() -> AxiDmaConfig {
    AxiDmaConfig::default()
}

fn channel() -> AxiDMAChannel {
    let mut ch = AxiDMAChannel::new(Direaction::TX, &cfg());
    assert_eq!(ch.create(4, BASE), Ok(()));
    let _ = ch.take_ops();
    ch
}

fn control(ch: &AxiDMAChannel) -> u32 {
    ch.hardware().dmacr().read().bits()
}

fn status(ch: &AxiDMAChannel) -> u32 {
    ch.hardware().dmasr().read().bits()
}

#[test]
fn a_new_channel_is_quiet() {
    let ch = AxiDMAChannel::new(Direaction::RX, &cfg());
    assert_eq!(ch.dump_regs(), [0, 0, 0, 0, 0, 0]);
    assert_eq!(ch.direction(), Direaction::RX);
    assert_eq!(ch.base_address(), 0x6010_0030);
    assert_eq!(ch.max_transfer_len(), 0xffff);
    assert_eq!(ch.ring().len(), 0);
    assert!(ch.ring().is_halted());
    assert!(!ch.ctrl().is_intr_enable());
    assert!(!ch.ctrl().is_cyclic());
    assert_eq!(ch.ctrl().waiter_count(), 0);
    let tx = AxiDMAChannel::new(Direaction::TX, &cfg());
    assert_eq!(tx.base_address(), 0x6010_0000);
}

#[test]
fn the_length_field_width_sets_the_piece_limit() {
    for (width, max) in [(0usize, 0usize), (1, 1), (8, 0xff), (16, 0xffff), (23, 0x7f_ffff), (26, 0x3ff_ffff), (27, 0x3ff_ffff), (64, 0x3ff_ffff)] {
        let ch = AxiDMAChannel::new(Direaction::TX, &AxiDmaConfig { sg_length_width: width, ..cfg() });
        assert_eq!(ch.max_transfer_len(), max);
    }
}

#[test]
fn create_schedules_every_descriptor() {
    let mut ch = AxiDMAChannel::new(Direaction::TX, &cfg());
    assert_eq!(ch.create(3, BASE), Ok(()));
    assert_eq!(ch.take_ops(), vec![BusOp::Descriptor(0), BusOp::Descriptor(1), BusOp::Descriptor(2)]);
    assert_eq!(ch.take_ops(), vec![]);
    assert_eq!(ch.ring().free_cnt(), 3);
}

#[test]
fn create_refuses_what_the_ring_refuses() {
    let mut ch = AxiDMAChannel::new(Direaction::TX, &cfg());
    assert_eq!(ch.create(0, BASE), Err(AxiDMAErr::InValidParam));
    assert_eq!(ch.create(4, BASE + 4), Err(AxiDMAErr::InValidParam));
    assert_eq!(ch.take_ops(), vec![]);
    assert_eq!(ch.ring().len(), 0);
}

#[test]
fn reset_writes_the_reset_bit_and_halts() {
    let mut ch = channel();
    assert_eq!(ch.start(), Ok(()));
    let _ = ch.take_ops();
    assert_eq!(ch.reset(), Ok(()));
    assert_eq!(control(&ch), 0x5);
    assert!(ch.ring().is_halted());
    assert!(!ch.reset_is_done());
    assert_eq!(ch.take_ops(), vec![BusOp::Write(DMACR, 0x5)]);
    ch.load_control(0x1);
    assert!(ch.reset_is_done());
}

#[test]
fn start_and_stop_flip_the_run_bit() {
    let mut ch = channel();
    ch.load_control(0x0001_7000);
    assert_eq!(ch.start(), Ok(()));
    assert_eq!(control(&ch), 0x0001_7001);
    assert!(!ch.ring().is_halted());
    assert_eq!(ch.stop(), Ok(()));
    assert_eq!(control(&ch), 0x0001_7000);
    assert!(ch.ring().is_halted());
    assert_eq!(ch.take_ops(), vec![BusOp::Write(DMACR, 0x0001_7001), BusOp::Write(DMACR, 0x0001_7000)]);
}

#[test]
fn the_threshold_must_be_between_1_and_255() {
    let mut ch = channel();
    assert_eq!(ch.set_coalesce(0), Err(AxiDMAErr::InValidParam));
    assert_eq!(ch.set_coalesce(256), Err(AxiDMAErr::InValidParam));
    assert_eq!(ch.set_coalesce(usize::MAX), Err(AxiDMAErr::InValidParam));
    assert_eq!(control(&ch), 0);
    assert_eq!(ch.take_ops(), vec![]);
    assert_eq!(ch.set_coalesce(255), Ok(()));
    assert_eq!(control(&ch), 0x00ff_0000);
    assert_eq!(ch.get_coalesce(), 255);
    assert_eq!(ch.set_coalesce(1), Ok(()));
    assert_eq!(ch.get_coalesce(), 1);
    assert_eq!(ch.take_ops(), vec![BusOp::Write(DMACR, 0x00ff_0000), BusOp::Write(DMACR, 0x0001_0000)]);
}

#[test]
fn the_threshold_leaves_the_other_fields() {
    let mut ch = channel();
    ch.load_control(0xab12_7015);
    assert_eq!(ch.set_coalesce(0x34), Ok(()));
    assert_eq!(control(&ch), 0xab34_7015);
}

#[test]
fn cyclic_mode_flips_bit_4_and_keeps_the_rest() {
    let mut ch = channel();
    ch.load_control(0x0001_7001);
    ch.cyclic_enable();
    assert_eq!(control(&ch), 0x0001_7011);
    assert!(ch.ctrl().is_cyclic());
    ch.cyclic_disable();
    assert_eq!(control(&ch), 0x0001_7001);
    assert!(!ch.ctrl().is_cyclic());
}

#[test]
fn interrupts_are_switched_together() {
    let mut ch = channel();
    ch.load_control(0x0001_0001);
    ch.intr_enable();
    assert_eq!(control(&ch), 0x0001_7001);
    assert!(ch.ctrl().is_intr_enable());
    ch.intr_disable();
    assert_eq!(control(&ch), 0x0001_0001);
    assert!(!ch.ctrl().is_intr_enable());
    assert_eq!(ch.take_ops(), vec![BusOp::Write(DMACR, 0x0001_7001), BusOp::Write(DMACR, 0x0001_0001)]);
}

#[test]
fn submit_tells_the_device_in_order() {
    let mut ch = channel();
    let transfer = ch.submit(BufPtr::new(0x1000, 0x100)).ok().unwrap();
    assert_eq!(transfer.channel(), Direaction::TX);
    assert_eq!(transfer.first_bd(), 0);
    assert_eq!(transfer.bd_count(), 1);
    assert_eq!(
        ch.take_ops(),
        vec![
            BusOp::Descriptor(0),
            BusOp::Write(CURDESC, 0x4000),
            BusOp::Write(CURDESC_MSB, 0),
            BusOp::CompilerFence,
            BusOp::MemoryFence,
            BusOp::IoFence,
            BusOp::Write(DMACR, 0x1),
            BusOp::Write(TAILDESC, 0x4000),
            BusOp::Write(TAILDESC_MSB, 0),
        ]
    );
    assert_eq!(ch.dump_regs(), [0x1, 0, 0, 0x4000, 0, 0x4000]);
    assert!(!ch.ring().is_halted());
    assert_eq!(ch.ring().submit_cnt(), 1);
    assert_eq!(ch.ring().pending_cnt(), 0);
    assert_eq!(ch.ring().free_cnt(), 3);
}

#[test]
fn a_running_channel_gets_the_tail_only() {
    let mut ch = channel();
    assert!(ch.submit(BufPtr::new(0x1000, 0x100)).is_ok());
    let _ = ch.take_ops();
    assert!(ch.submit(BufPtr::new(0x2000, 0x100)).is_ok());
    assert_eq!(
        ch.take_ops(),
        vec![
            BusOp::Descriptor(1),
            BusOp::CompilerFence,
            BusOp::MemoryFence,
            BusOp::IoFence,
            BusOp::Write(DMACR, 0x1),
            BusOp::Write(TAILDESC, 0x4040),
            BusOp::Write(TAILDESC_MSB, 0),
        ]
    );
    assert_eq!(ch.hardware().curdesc().read().bits(), 0x4000);
    assert_eq!(ch.ring().submit_cnt(), 2);
}

#[test]
fn a_stopped_channel_starts_from_the_head() {
    let mut ch = channel();
    assert!(ch.submit(BufPtr::new(0x1000, 0x100)).is_ok());
    assert_eq!(ch.load_bd_status(0, DONE), Ok(()));
    assert_eq!(ch.from_hw(), Ok(1));
    assert_eq!(ch.stop(), Ok(()));
    let _ = ch.take_ops();
    assert!(ch.submit(BufPtr::new(0x2000, 0x100)).is_ok());
    let ops = ch.take_ops();
    assert_eq!(ops[0], BusOp::Descriptor(1));
    assert_eq!(ops[1], BusOp::Write(CURDESC, 0x4040));
    assert_eq!(ops[7], BusOp::Write(TAILDESC, 0x4040));
}

#[test]
fn to_hw_without_pending_descriptors_only_starts() {
    let mut ch = channel();
    assert_eq!(ch.to_hw(), Ok(()));
    assert_eq!(
        ch.take_ops(),
        vec![
            BusOp::Write(CURDESC, 0x4000),
            BusOp::Write(CURDESC_MSB, 0),
            BusOp::CompilerFence,
            BusOp::MemoryFence,
            BusOp::IoFence,
            BusOp::Write(DMACR, 0x1),
        ]
    );
    assert_eq!(ch.hardware().taildesc().read().bits(), 0);
}

#[test]
fn to_hw_needs_a_ring() {
    let mut ch = AxiDMAChannel::new(Direaction::TX, &cfg());
    assert_eq!(ch.to_hw(), Err(AxiDMAErr::BDRingNoList));
    assert_eq!(ch.take_ops(), vec![]);
    assert!(ch.ring().is_halted());
}

#[test]
fn pointers_above_4g_use_the_high_word() {
    if usize::BITS < 64 {
        return;
    }
    let mut ch = AxiDMAChannel::new(Direaction::TX, &cfg());
    let base = (0x7usize << 32) | 0xffff_ff00;
    assert_eq!(ch.create(2, base), Ok(()));
    let _ = ch.take_ops();
    assert!(ch.submit(BufPtr::new(0x1000, 8)).is_ok());
    assert_eq!(ch.dump_regs(), [0x1, 0, 0x7, 0xffff_ff00, 0x7, 0xffff_ff00]);
}

#[test]
fn a_buffer_above_the_piece_limit_is_refused_unless_split() {
    let mut ch = channel();
    assert_eq!(ch.submit(BufPtr::new(0x1000, 0x1_0000)).err(), Some(AxiDMAErr::InValidParam));
    assert_eq!(ch.take_ops(), vec![]);
    assert_eq!(ch.ring().free_cnt(), 4);
    ch.permit_split(true);
    let transfer = ch.submit(BufPtr::new(0x1000, 0x1_0000)).ok().unwrap();
    assert_eq!(transfer.bd_count(), 2);
    assert_eq!(ch.ring().bd(0).length(), 0xffff);
    assert_eq!(ch.ring().bd(1).length(), 1);
    assert_eq!(ch.hardware().taildesc().read().bits(), 0x4040);
    let ops = ch.take_ops();
    assert_eq!(ops[0], BusOp::Descriptor(0));
    assert_eq!(ops[1], BusOp::Descriptor(1));
}

#[test]
fn submit_passes_on_what_the_ring_refuses() {
    let mut ch = channel();
    assert_eq!(ch.submit(BufPtr::new(0x1000, 0)).err(), Some(AxiDMAErr::InValidParam));
    assert_eq!(ch.submit(BufPtr::new(0x1002, 4)).err(), Some(AxiDMAErr::InValidParam));
    for _ in 0..4 {
        assert!(ch.submit(BufPtr::new(0x1000, 4)).is_ok());
    }
    let _ = ch.take_ops();
    assert_eq!(ch.submit(BufPtr::new(0x1000, 4)).err(), Some(AxiDMAErr::BDRingNoList));
    assert_eq!(ch.take_ops(), vec![]);
    assert_eq!(ch.ring().submit_cnt(), 4);
}

#[test]
fn reaping_nothing_is_no_failure() {
    let mut ch = channel();
    assert_eq!(ch.from_hw(), Ok(0));
    assert!(ch.submit(BufPtr::new(0x1000, 4)).is_ok());
    assert_eq!(ch.from_hw(), Ok(0));
    assert_eq!(ch.load_bd_status(0, DONE), Ok(()));
    assert_eq!(ch.from_hw(), Ok(1));
    assert_eq!(ch.from_hw(), Ok(0));
}

#[test]
fn a_status_for_a_slot_that_is_not_there_is_refused() {
    let mut ch = channel();
    assert_eq!(ch.load_bd_status(4, DONE), Err(AxiDMAErr::InValidParam));
    assert_eq!(ch.load_bd_status(3, DONE), Ok(()));
    assert!(ch.ring().bd(3).is_completed());
}

#[test]
fn completion_shows_in_the_three_interrupt_bits() {
    let mut ch = channel();
    assert!(!ch.check_cmplt());
    for (word, done) in [(1u32 << 12, true), (1 << 13, true), (1 << 14, true), (0x8fff_0fff, false), (0x7000, true)] {
        ch.load_status(word);
        assert_eq!(ch.check_cmplt(), done);
    }
}

#[test]
fn the_handler_does_nothing_while_interrupts_are_disabled() {
    let mut ch = channel();
    ch.load_status(0x7000);
    ch.register_waiter(7);
    assert_eq!(ch.intr_handler(), Ok(None));
    assert_eq!(status(&ch), 0x7000);
    assert_eq!(ch.ctrl().waiter_count(), 1);
    assert_eq!(ch.take_ops(), vec![]);
}

#[test]
fn the_handler_does_nothing_without_a_condition() {
    let mut ch = channel();
    ch.intr_enable();
    let _ = ch.take_ops();
    ch.load_status(0x0001_0002);
    assert_eq!(ch.intr_handler(), Ok(None));
    assert_eq!(status(&ch), 0x0001_0002);
    assert_eq!(ch.take_ops(), vec![]);
}

#[test]
fn an_error_interrupt_is_acknowledged_and_reported() {
    let mut ch = channel();
    ch.intr_enable();
    let _ = ch.take_ops();
    ch.load_status(0x0001_5011);
    ch.register_waiter(7);
    assert_eq!(ch.intr_handler(), Err(AxiDMAErr::DMAErr));
    assert_eq!(ch.take_ops(), vec![BusOp::Write(DMASR, 0x0001_5011)]);
    assert_eq!(status(&ch), 0x0001_0011);
    assert_eq!(ch.ctrl().waiter_count(), 1);
}

#[test]
fn a_completion_wakes_the_oldest_waiter() {
    let mut ch = channel();
    ch.intr_enable();
    let _ = ch.take_ops();
    ch.register_waiter(7);
    ch.register_waiter(8);
    ch.load_status(0x1000);
    assert_eq!(ch.intr_handler(), Ok(Some(7)));
    assert_eq!(ch.ctrl().waiter_count(), 1);
    assert_eq!(ch.take_ops(), vec![BusOp::Write(DMASR, 0x1000)]);
    assert_eq!(status(&ch), 0);
    ch.load_status(0x1000);
    assert_eq!(ch.intr_handler(), Ok(Some(8)));
    ch.load_status(0x1000);
    assert_eq!(ch.intr_handler(), Ok(None));
    assert_eq!(ch.ctrl().waiter_count(), 0);
}

#[test]
fn completion_and_delay_are_both_acknowledged() {
    let mut ch = channel();
    ch.intr_enable();
    let _ = ch.take_ops();
    ch.load_status(0x3001);
    assert_eq!(ch.intr_handler(), Ok(None));
    assert_eq!(ch.take_ops(), vec![BusOp::Write(DMASR, 0x3001), BusOp::Write(DMASR, 0x2001)]);
    assert_eq!(status(&ch), 0x0001);
}

#[test]
fn a_delay_interrupt_alone_wakes_nobody() {
    let mut ch = channel();
    ch.intr_enable();
    let _ = ch.take_ops();
    ch.register_waiter(7);
    ch.load_status(0x2000);
    assert_eq!(ch.intr_handler(), Ok(None));
    assert_eq!(ch.take_ops(), vec![BusOp::Write(DMASR, 0x2000)]);
    assert_eq!(ch.ctrl().waiter_count(), 1);
}
