use axidma::buffer::BufPtr;
use axidma::channel::Direaction;
use axidma::errno::AxiDMAErr;
use axidma::transfer::{Poll, Transfer};
use axidma::{AxiDma, AxiDmaConfig};

const BASE: usize = 0x4000;
const DONE: u32 = 0x8000_0000;

fn ready(count: usize) -> AxiDma {
    let mut dma = AxiDma::default();
    assert_eq!(dma.reset(), Ok(()));
    dma.load_control(Direaction::TX, 0);
    dma.load_control(Direaction::RX, 0);
    assert_eq!(dma.reset_poll(), Ok(true));
    assert_eq!(dma.tx_channel_create(count, BASE), Ok(()));
    assert_eq!(dma.rx_channel_create(count, 0x8000), Ok(()));
    dma
}

fn pending(poll: Poll) -> Transfer {
    match poll {
        Poll::Pending(transfer) => transfer,
        Poll::Ready(_) => panic!("the buffer came out too early"),
    }
}

fn buffer(poll: Poll) -> BufPtr {
    match poll {
        Poll::Ready(buffer) => buffer,
        Poll::Pending(_) => panic!("the buffer is still with the device"),
    }
}

#[test]
fn the_buffer_that_went_in_comes_out() {
    let mut dma = ready(4);
    let transfer = dma.tx_submit(BufPtr::new(0x1230, 0x456)).ok().unwrap();
    assert_eq!(dma.load_bd_status(Direaction::TX, 0, DONE), Ok(()));
    dma.load_status(Direaction::TX, 0x1000);
    let (poll, woken) = transfer.wait(&mut dma).ok().unwrap();
    assert_eq!(woken, None);
    let out = buffer(poll);
    assert_eq!(out.as_ptr(), 0x1230);
    assert_eq!(out.len(), 0x456);
    assert_eq!(dma.tx_channel().unwrap().ring().free_cnt(), 4);
}

#[test]
fn a_buffer_still_with_the_device_stays_in_the_handle() {
    let mut dma = ready(4);
    let a = dma.tx_submit(BufPtr::new(0x1000, 0xffff)).ok().unwrap();
    let b = dma.tx_submit(BufPtr::new(0x2_0000, 0xffff)).ok().unwrap();
    assert_eq!(dma.load_bd_status(Direaction::TX, 0, DONE), Ok(()));
    let b = pending(b.recycle(&mut dma).ok().unwrap());
    assert_eq!(dma.tx_channel().unwrap().ring().head(), 1);
    assert_eq!(buffer(a.recycle(&mut dma).ok().unwrap()), BufPtr::new(0x1000, 0xffff));
    let b = pending(b.wait(&mut dma).ok().unwrap().0);
    assert_eq!(b.first_bd(), 1);
    assert_eq!(b.bd_count(), 1);
    assert_eq!(dma.load_bd_status(Direaction::TX, 1, DONE), Ok(()));
    assert_eq!(buffer(b.wait(&mut dma).ok().unwrap().0), BufPtr::new(0x2_0000, 0xffff));
}

#[test]
fn wait_acknowledges_the_interrupt() {
    let mut dma = ready(4);
    dma.intr_enable();
    dma.register_waiter(Direaction::TX, 5);
    let transfer = dma.tx_submit(BufPtr::new(0x1000, 8)).ok().unwrap();
    assert_eq!(dma.load_bd_status(Direaction::TX, 0, DONE), Ok(()));
    dma.load_status(Direaction::TX, 0x1000);
    let (poll, woken) = transfer.wait(&mut dma).ok().unwrap();
    assert_eq!(woken, Some(5));
    assert_eq!(buffer(poll), BufPtr::new(0x1000, 8));
    assert!(!dma.tx_complete());
}

#[test]
fn wait_reports_an_error_interrupt() {
    let mut dma = ready(4);
    dma.intr_enable();
    let transfer = dma.tx_submit(BufPtr::new(0x1000, 8)).ok().unwrap();
    dma.load_status(Direaction::TX, 0x4000);
    assert_eq!(transfer.wait(&mut dma).err(), Some(AxiDMAErr::DMAErr));
    assert!(!dma.tx_complete());
    assert!(dma.owns_run(Direaction::TX, 0, 1));
}

#[test]
fn recycle_leaves_the_interrupt_alone() {
    let mut dma = ready(4);
    dma.intr_enable();
    let transfer = dma.rx_submit(BufPtr::new(0x1000, 8)).ok().unwrap();
    assert_eq!(dma.load_bd_status(Direaction::RX, 0, DONE), Ok(()));
    dma.load_status(Direaction::RX, 0x5000);
    assert_eq!(buffer(transfer.recycle(&mut dma).ok().unwrap()), BufPtr::new(0x1000, 8));
    assert!(dma.rx_complete());
}

#[test]
fn the_first_poll_registers_the_waker() {
    let mut dma = ready(4);
    let transfer = dma.tx_submit(BufPtr::new(0x1000, 8)).ok().unwrap();
    assert_eq!(dma.load_bd_status(Direaction::TX, 0, DONE), Ok(()));
    let transfer = pending(transfer.poll(&mut dma, 9).ok().unwrap());
    assert_eq!(dma.tx_channel().unwrap().ctrl().waiter_count(), 1);
    assert_eq!(dma.tx_channel().unwrap().ring().submit_cnt(), 1);
    dma.intr_enable();
    dma.load_status(Direaction::TX, 0x1000);
    assert_eq!(dma.tx_intr_handler(), Ok(Some(9)));
    assert_eq!(buffer(transfer.poll(&mut dma, 9).ok().unwrap()), BufPtr::new(0x1000, 8));
    assert_eq!(dma.tx_channel().unwrap().ctrl().waiter_count(), 0);
    assert_eq!(dma.tx_channel().unwrap().ring().free_cnt(), 4);
}

#[test]
fn a_first_poll_after_the_signal_reaps_at_once() {
    let mut dma = ready(4);
    let transfer = dma.tx_submit(BufPtr::new(0x1000, 8)).ok().unwrap();
    assert_eq!(dma.load_bd_status(Direaction::TX, 0, DONE), Ok(()));
    dma.load_status(Direaction::TX, 0x1000);
    assert_eq!(buffer(transfer.poll(&mut dma, 9).ok().unwrap()), BufPtr::new(0x1000, 8));
    assert_eq!(dma.tx_channel().unwrap().ctrl().waiter_count(), 0);
}

#[test]
fn a_poll_that_finds_the_buffer_in_flight_waits_again() {
    let mut dma = ready(4);
    let transfer = dma.tx_submit(BufPtr::new(0x1000, 8)).ok().unwrap();
    let transfer = pending(transfer.poll(&mut dma, 9).ok().unwrap());
    let transfer = pending(transfer.poll(&mut dma, 9).ok().unwrap());
    assert_eq!(dma.tx_channel().unwrap().ctrl().waiter_count(), 2);
    assert_eq!(dma.load_bd_status(Direaction::TX, 0, DONE), Ok(()));
    assert_eq!(buffer(transfer.poll(&mut dma, 9).ok().unwrap()), BufPtr::new(0x1000, 8));
}

#[test]
fn a_handle_for_an_absent_channel_fails() {
    let mut dma = AxiDma::new(AxiDmaConfig { has_s2mm: false, ..AxiDmaConfig::default() });
    let make = || Transfer::new(BufPtr::new(0x1000, 8), Direaction::RX, 0, 1);
    assert_eq!(make().wait(&mut dma).err(), Some(AxiDMAErr::ChannelAbsent));
    assert_eq!(make().recycle(&mut dma).err(), Some(AxiDMAErr::ChannelAbsent));
    assert_eq!(make().poll(&mut dma, 1).err(), Some(AxiDMAErr::ChannelAbsent));
}

#[test]
fn a_split_buffer_comes_out_when_all_its_descriptors_are_done() {
    let mut dma = ready(4);
    dma.permit_split(Direaction::TX, true);
    let transfer = dma.tx_submit(BufPtr::new(0x1000, 0x1_0000)).ok().unwrap();
    assert_eq!(dma.load_bd_status(Direaction::TX, 0, DONE), Ok(()));
    let transfer = pending(transfer.recycle(&mut dma).ok().unwrap());
    assert_eq!(dma.tx_channel().unwrap().ring().head(), 0);
    assert_eq!(dma.load_bd_status(Direaction::TX, 1, DONE), Ok(()));
    assert_eq!(buffer(transfer.recycle(&mut dma).ok().unwrap()), BufPtr::new(0x1000, 0x1_0000));
    assert_eq!(dma.tx_channel().unwrap().ring().head(), 2);
}
