use mayastor::bridge::{BridgeTable, IoOp, Slot, Token};
use mayastor::device::{Bdevs, Release};
use mayastor::dma::DmaBuf;
use mayastor::error::{CoreError, DmaError};
use mayastor::handle::{snapshot_result, BdevHandle, NvmeCmd, CREATE_SNAPSHOT};

fn registry() -> Bdevs {
    let mut reg = Bdevs::new();
    assert!(reg.register("nvme0", 4096, 4).is_some());
    assert!(reg.register("nvme1", 512, 1).is_some());
    reg
}

#[test]
fn open_missing_device_is_not_found() {
    let mut reg = registry();
    let r = BdevHandle::open(&mut reg, 0, "missing0", true, true);
    assert_eq!(
        r.unwrap_err(),
        CoreError::BdevNotFound { name: "missing0".to_string() }
    );
}

#[test]
fn write_zero_buffer_returns_its_length() {
    let mut reg = registry();
    let mut bridges = BridgeTable::new();
    let h = BdevHandle::open(&mut reg, 0, "nvme0", true, false).unwrap();
    let buf = h.dma_malloc(&reg, 4096).unwrap();
    assert_eq!(buf.len(), 4096);
    assert!(buf.as_slice().iter().all(|b| *b == 0));
    let t = h.write_at(&reg, 0, &mut bridges, 0, &buf).unwrap();
    assert_eq!(bridges.dispatched(t, 0), Ok(()));
    assert!(bridges.complete(t, true));
    assert_eq!(bridges.collect(t), Some(Ok(4096)));
}

#[test]
fn write_refused_by_driver_gives_dispatch_error() {
    let mut reg = registry();
    let mut bridges = BridgeTable::new();
    let h = BdevHandle::open(&mut reg, 0, "nvme0", true, false).unwrap();
    let buf = h.dma_malloc(&reg, 4096).unwrap();
    let t = h.write_at(&reg, 0, &mut bridges, 0, &buf).unwrap();
    assert_eq!(
        bridges.dispatched(t, -5),
        Err(CoreError::WriteDispatch { errno: -5, offset: 0, len: 4096 })
    );
    // No completion is awaited: a late callback resolves nothing.
    assert!(!bridges.complete(t, true));
    assert_eq!(bridges.collect(t), None);
}

#[test]
fn concurrent_reads_resolve_independently() {
    let mut reg = registry();
    let mut bridges = BridgeTable::new();
    let h = BdevHandle::open(&mut reg, 0, "nvme0", false, false).unwrap();
    let a = h.dma_malloc(&reg, 512).unwrap();
    let b = h.dma_malloc(&reg, 8192).unwrap();
    let ta = h.read_at(&reg, 0, &mut bridges, 0, &a).unwrap();
    let tb = h.read_at(&reg, 0, &mut bridges, 4096, &b).unwrap();
    assert_ne!(ta, tb);
    assert_eq!(bridges.dispatched(ta, 0), Ok(()));
    assert_eq!(bridges.dispatched(tb, 0), Ok(()));
    // Completions arrive in the other order.
    assert!(bridges.complete(tb, true));
    assert_eq!(bridges.collect(ta), None);
    assert!(bridges.complete(ta, true));
    assert_eq!(bridges.collect(tb), Some(Ok(8192)));
    assert_eq!(bridges.collect(ta), Some(Ok(512)));
}

#[test]
fn completion_fires_once() {
    let mut bridges = BridgeTable::new();
    let t = bridges.arm(IoOp::Reset).unwrap();
    assert_eq!(bridges.dispatched(t, 0), Ok(()));
    assert!(bridges.complete(t, false));
    assert!(!bridges.complete(t, true));
    assert_eq!(bridges.collect(t), Some(Err(CoreError::ResetFailed)));
    assert_eq!(bridges.collect(t), None);
}

#[test]
fn failed_write_and_read_carry_offset_and_length() {
    let mut bridges = BridgeTable::new();
    let w = bridges.arm(IoOp::Write { offset: 8, len: 16 }).unwrap();
    let r = bridges.arm(IoOp::Read { offset: 24, len: 32 }).unwrap();
    assert!(bridges.complete(w, false));
    assert!(bridges.complete(r, false));
    assert_eq!(
        bridges.collect(w),
        Some(Err(CoreError::WriteFailed { offset: 8, len: 16 }))
    );
    assert_eq!(
        bridges.collect(r),
        Some(Err(CoreError::ReadFailed { offset: 24, len: 32 }))
    );
}

#[test]
fn dispatch_errors_of_each_kind() {
    let mut bridges = BridgeTable::new();
    let r = bridges.arm(IoOp::Read { offset: 1, len: 2 }).unwrap();
    let z = bridges.arm(IoOp::Reset).unwrap();
    let a = bridges.arm(IoOp::Admin { opcode: 7 }).unwrap();
    assert_eq!(
        bridges.dispatched(r, -22),
        Err(CoreError::ReadDispatch { errno: -22, offset: 1, len: 2 })
    );
    assert_eq!(bridges.dispatched(z, -1), Err(CoreError::ResetDispatch { errno: -1 }));
    assert_eq!(
        bridges.dispatched(a, -12),
        Err(CoreError::NvmeAdminDispatch { errno: -12, opcode: 7 })
    );
}

#[test]
fn abandoned_operation_discards_its_completion() {
    let mut bridges = BridgeTable::new();
    let t = bridges.arm(IoOp::Write { offset: 0, len: 1 }).unwrap();
    bridges.abandon(t);
    assert!(!bridges.complete(t, true));
    assert_eq!(bridges.collect(t), None);
    let u = bridges.arm(IoOp::Reset).unwrap();
    assert_ne!(t, u);
    assert_eq!(u, Token { id: 1 });
}

#[test]
fn reset_and_admin_succeed_with_zero() {
    let mut reg = registry();
    let mut bridges = BridgeTable::new();
    let h = BdevHandle::open(&mut reg, 3, "nvme0", true, false).unwrap();
    let t = h.reset(&reg, 3, &mut bridges).unwrap();
    assert!(bridges.complete(t, true));
    assert_eq!(bridges.collect(t), Some(Ok(0)));
    let (a, cmd) = h.nvme_admin_custom(&reg, 3, &mut bridges, 0x42).unwrap();
    assert_eq!(cmd, NvmeCmd { opc: 0x42, cdw10: 0, cdw11: 0 });
    assert!(bridges.complete(a, false));
    assert_eq!(
        bridges.collect(a),
        Some(Err(CoreError::NvmeAdminFailed { opcode: 0x42 }))
    );
}

#[test]
fn submission_from_another_worker_is_refused() {
    let mut reg = registry();
    let mut bridges = BridgeTable::new();
    let h = BdevHandle::open(&mut reg, 1, "nvme0", true, false).unwrap();
    assert_eq!(
        h.reset(&reg, 2, &mut bridges),
        Err(CoreError::WrongCore { current: 2, expected: 1 })
    );
}

#[test]
fn snapshot_splits_time_into_two_words() {
    let mut reg = registry();
    let mut bridges = BridgeTable::new();
    let h = BdevHandle::open(&mut reg, 0, "nvme0", true, false).unwrap();
    let now: u64 = 0x0000_0001_2345_6789;
    let (t, cmd) = h.create_snapshot_at(&reg, 0, &mut bridges, now).unwrap();
    assert_eq!(cmd, NvmeCmd { opc: CREATE_SNAPSHOT, cdw10: 0x2345_6789, cdw11: 1 });
    assert!(bridges.complete(t, true));
    let admin = bridges.collect(t).unwrap();
    assert_eq!(snapshot_result(admin, now), Ok(now));
}

#[test]
fn snapshot_failure_is_the_admin_error() {
    let admin: Result<usize, CoreError> =
        Err(CoreError::NvmeAdminFailed { opcode: CREATE_SNAPSHOT });
    assert_eq!(
        snapshot_result(admin, 5),
        Err(CoreError::NvmeAdminFailed { opcode: CREATE_SNAPSHOT })
    );
}

#[test]
fn snapshot_from_the_clock_encodes_its_time() {
    let mut reg = registry();
    let mut bridges = BridgeTable::new();
    let h = BdevHandle::open(&mut reg, 0, "nvme0", true, false).unwrap();
    let (_, cmd, now) = h.create_snapshot(&reg, 0, &mut bridges).unwrap();
    assert!(now > 1_500_000_000);
    assert_eq!(cmd.cdw10 as u64, now & 0xffff_ffff);
    assert_eq!(cmd.cdw11 as u64, now >> 32);
}

#[test]
fn close_releases_channel_before_descriptor() {
    let mut reg = registry();
    let h = BdevHandle::open(&mut reg, 0, "nvme0", true, false).unwrap();
    let (d, c) = h.io_tuple();
    h.close(&mut reg);
    assert_eq!(reg.release_log(), vec![Release::Channel(c), Release::Descriptor(d)]);
}

#[test]
fn shared_descriptor_survives_closing_one_handle() {
    let mut reg = registry();
    let first = BdevHandle::open(&mut reg, 0, "nvme0", true, true).unwrap();
    let second = first.open_shared(&mut reg, 1).unwrap();
    assert_eq!(second.desc, first.desc);
    assert_ne!(second.channel, first.channel);
    first.close(&mut reg);
    assert!(reg.desc_refs(second.desc) == 1);
    let mut bridges = BridgeTable::new();
    let t = second.reset(&reg, 1, &mut bridges).unwrap();
    assert!(bridges.complete(t, true));
    assert_eq!(bridges.collect(t), Some(Ok(0)));
    // The claim is still held while the descriptor is open.
    assert_eq!(
        BdevHandle::open(&mut reg, 0, "nvme0", true, false).unwrap_err(),
        CoreError::BdevNotFound { name: "nvme0".to_string() }
    );
    second.close(&mut reg);
    assert!(BdevHandle::open(&mut reg, 0, "nvme0", true, false).is_ok());
}

#[test]
fn claimed_device_cannot_be_claimed_again() {
    let mut reg = registry();
    let _h = BdevHandle::open(&mut reg, 0, "nvme0", false, true).unwrap();
    assert_eq!(
        BdevHandle::open(&mut reg, 0, "nvme0", false, true).unwrap_err(),
        CoreError::BdevNotFound { name: "nvme0".to_string() }
    );
    assert!(BdevHandle::open(&mut reg, 0, "nvme0", false, false).is_ok());
}

#[test]
fn no_channel_left_gives_get_io_channel() {
    let mut reg = registry();
    let _h = BdevHandle::open(&mut reg, 0, "nvme1", false, false).unwrap();
    assert_eq!(
        BdevHandle::open(&mut reg, 0, "nvme1", false, false).unwrap_err(),
        CoreError::GetIoChannel { name: "nvme1".to_string() }
    );
}

#[test]
fn open_with_bdev_and_get_bdev() {
    let mut reg = registry();
    let h = BdevHandle::open(&mut reg, 0, "nvme1", false, false).unwrap();
    let b = h.get_bdev(&reg);
    assert_eq!(b.name, "nvme1");
    assert_eq!(b.alignment, 512);
    h.close(&mut reg);
    let h2 = BdevHandle::open_with_bdev(&mut reg, 0, &b, true).unwrap();
    assert_eq!(h2.get_bdev(&reg).index, b.index);
}

#[test]
fn dma_buffer_alignment_must_be_power_of_two() {
    assert_eq!(DmaBuf::new(16, 3).unwrap_err(), DmaError::Alignment { alignment: 3 });
    assert_eq!(DmaBuf::new(16, 0).unwrap_err(), DmaError::Alignment { alignment: 0 });
    let b = DmaBuf::new(0, 4096).unwrap();
    assert_eq!(b.len(), 0);
    assert_eq!(b.alignment(), 4096);
}

#[test]
fn dma_buffer_fill() {
    let mut b = DmaBuf::new(4, 8).unwrap();
    b.fill_from(&[1, 2, 3, 4]);
    assert_eq!(b.as_slice(), &[1, 2, 3, 4]);
}

#[test]
fn bridge_states_are_visible() {
    let mut bridges = BridgeTable::new();
    let t = bridges.arm(IoOp::Admin { opcode: 1 }).unwrap();
    assert_eq!(bridges.slot(t), Some(Slot::InFlight(IoOp::Admin { opcode: 1 })));
    bridges.complete(t, true);
    assert_eq!(bridges.slot(t), Some(Slot::Done(IoOp::Admin { opcode: 1 }, true)));
}
