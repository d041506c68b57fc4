use vstd::prelude::*;

use crate::bridge::{BridgeTable, IoOp, Slot, Token};
use crate::device::{Bdev, Bdevs, ChannelEntry, DescEntry, DeviceState, Release};
use crate::dma::{is_alignment, DmaBuf};
use crate::error::{CoreError, DmaError};

verus! {

/// Opcode of the vendor-specific admin command that takes a snapshot.
pub const CREATE_SNAPSHOT: u8 = 0xc0;

/// The fields of an NVMe admin command that this layer fills in.
#[derive(Debug, Clone, Copy, PartialEq, Eq)]
pub struct NvmeCmd {
    pub opc: u8,
    pub cdw10: u32,
    pub cdw11: u32,
}

impl NvmeCmd {
    pub open spec fn with_opcode_spec(opc: u8) -> NvmeCmd {
        NvmeCmd { opc, cdw10: 0, cdw11: 0 }
    }

    /// A command with opcode `opc` and every other field zero.
    pub fn with_opcode(opc: u8) -> (c: NvmeCmd)
        ensures
            c == Self::with_opcode_spec(opc),
    {
        NvmeCmd { opc, cdw10: 0, cdw11: 0 }
    }
}

/// The snapshot command for the time `now`, in seconds since the epoch: the
/// low 32 bits in `cdw10`, the high 32 bits in `cdw11`.
pub open spec fn snapshot_cmd(now: u64) -> NvmeCmd {
    NvmeCmd {
        opc: CREATE_SNAPSHOT,
        cdw10: (now as int % 0x1_0000_0000) as u32,
        cdw11: (now as int / 0x1_0000_0000) as u32,
    }
}

/// The error that names device `name` as not found.
pub open spec fn not_found(e: CoreError, name: Seq<char>) -> bool {
    match e {
        CoreError::BdevNotFound { name: n } => n@ == name,
        _ => false,
    }
}

/// The error that names device `name` as having no channel to give.
pub open spec fn no_channel(e: CoreError, name: Seq<char>) -> bool {
    match e {
        CoreError::GetIoChannel { name: n } => n@ == name,
        _ => false,
    }
}

/// After a failed open: no device state or channel changed, descriptors
/// that were there are as they were, and any opened on the way is closed.
pub open spec fn open_failed(before: &Bdevs, after: &Bdevs) -> bool {
    &&& after.states() == before.states()
    &&& after.channels() == before.channels()
    &&& after.descs().len() >= before.descs().len()
    &&& forall|d: int| 0 <= d < before.descs().len() ==> #[trigger] after.descs()[d] == before.descs()[d]
    &&& forall|d: int| before.descs().len() <= d < after.descs().len() ==> #[trigger] after.descs()[d].refs == 0
}

/// After a successful open of device `dev`: one new descriptor with one
/// holder, holding the claim exactly when `claim` was asked, and one new
/// channel on it bound to worker `core`, which make up handle `h`.
pub open spec fn opened(
    before: &Bdevs,
    after: &Bdevs,
    h: BdevHandle,
    dev: int,
    read_write: bool,
    claim: bool,
    core: u32,
) -> bool {
    let st = before.states()[dev];
    &&& h.core == core
    &&& h.desc as int == before.descs().len()
    &&& h.channel as int == before.channels().len()
    &&& after.descs() == before.descs().push(
        DescEntry { device: dev as usize, read_write, refs: 1, claims: claim },
    )
    &&& after.channels() == before.channels().push(ChannelEntry { desc: h.desc, core, live: true })
    &&& after.states() == before.states().update(
        dev,
        DeviceState { claimed: st.claimed || claim, channels: (st.channels + 1) as u64 },
    )
    &&& h.valid(after)
}

/// Relies on std's `SystemTime::now` and `duration_since(UNIX_EPOCH)`: the
/// whole seconds since the epoch, or `None` when the clock reads an earlier
/// time.
#[verifier::external_body]
fn epoch_seconds() -> (r: Option<u64>) {
    match std::time::SystemTime::now().duration_since(std::time::UNIX_EPOCH) {
        Ok(d) => Some(d.as_secs()),
        Err(_) => None,
    }
}

/// A handle to a device: one shared descriptor and one submission channel
/// of its own, created on the worker `core` that submits through it.
#[derive(Debug, PartialEq, Eq)]
pub struct BdevHandle {
    pub desc: usize,
    pub channel: usize,
    pub core: u32,
}

impl BdevHandle {
    /// The handle's descriptor is open and its channel is live on it, bound
    /// to the handle's worker.
    pub open spec fn valid(&self, reg: &Bdevs) -> bool {
        reg.desc_open(self.desc) && reg.channel_of(self.channel, self.desc, self.core)
    }

    /// Builds a handle on the open descriptor `d` with a new channel on
    /// worker `core`. When no channel can be had, `d` is released and the
    /// error names the device.
    pub fn try_from_desc(reg: &mut Bdevs, d: usize, core: u32) -> (r: Result<
        BdevHandle,
        CoreError,
    >)
        requires
            old(reg).wf(),
            old(reg).desc_open(d),
        ensures
            final(reg).wf(),
            final(reg).devices() == old(reg).devices(),
            ({
                let dev = old(reg).descs()[d as int].device as int;
                let st = old(reg).states()[dev];
                &&& st.channels < old(reg).devices()[dev].channel_limit ==> {
                    &&& r is Ok && r->Ok_0.desc == d && r->Ok_0.core == core
                    &&& r->Ok_0.channel as int == old(reg).channels().len()
                    &&& final(reg).descs() == old(reg).descs()
                    &&& final(reg).states() == old(reg).states().update(
                        dev,
                        DeviceState { channels: (st.channels + 1) as u64, ..st },
                    )
                    &&& final(reg).channels() == old(reg).channels().push(
                        ChannelEntry { desc: d, core, live: true },
                    )
                    &&& final(reg).releases() == old(reg).releases()
                }
                &&& st.channels >= old(reg).devices()[dev].channel_limit ==> {
                    &&& r is Err
                    &&& no_channel(r->Err_0, old(reg).devices()[dev].name@)
                    &&& final(reg).channels() == old(reg).channels()
                    &&& final(reg).releases() == old(reg).releases().push(Release::Descriptor(d))
                    &&& ({
                        let e = old(reg).descs()[d as int];
                        let closing = e.refs == 1 && e.claims;
                        &&& final(reg).descs() == old(reg).descs().update(
                            d as int,
                            DescEntry {
                                refs: (e.refs - 1) as u64,
                                claims: e.claims && !closing,
                                ..e
                            },
                        )
                        &&& closing ==> final(reg).states() == old(reg).states().update(
                            dev,
                            DeviceState { claimed: false, ..st },
                        )
                        &&& !closing ==> final(reg).states() == old(reg).states()
                    })
                }
            }),
            r is Ok ==> r->Ok_0.valid(final(reg)),
    {
        match reg.get_channel(d, core) {
            Some(channel) => {
                assert(reg.channels()[channel as int] == (ChannelEntry { desc: d, core, live: true }));
                Ok(BdevHandle { desc: d, channel, core })
            },
            None => {
                let dev = reg.desc_device(d);
                let name = reg.bdev(dev).name;
                reg.release_desc(d);
                Err(CoreError::GetIoChannel { name })
            },
        }
    }

    /// Opens the device named `name` and builds a handle on it for worker
    /// `core`. With `claim`, the device is taken exclusively; a device that
    /// is missing, cannot be opened or cannot be claimed gives
    /// `BdevNotFound`. On every failure the descriptor opened on the way is
    /// released again and no channel is kept.
    pub fn open(reg: &mut Bdevs, core: u32, name: &str, read_write: bool, claim: bool) -> (r:
        Result<BdevHandle, CoreError>)
        requires
            old(reg).wf(),
        ensures
            final(reg).wf(),
            final(reg).devices() == old(reg).devices(),
            forall|h: BdevHandle|
                #![trigger h.valid(final(reg))]
                h.valid(old(reg)) ==> h.valid(final(reg)),
            r is Err ==> open_failed(old(reg), final(reg)),
            match old(reg).find(name@) {
                None => r is Err && not_found(r->Err_0, name@),
                Some(i) => {
                    let st = old(reg).states()[i];
                    let blocked = st.claimed && (read_write || claim);
                    let full = st.channels >= old(reg).devices()[i].channel_limit;
                    &&& blocked ==> r is Err && not_found(r->Err_0, name@)
                    &&& !blocked && full ==> r is Err && no_channel(r->Err_0, name@)
                    &&& !blocked && !full ==> r is Ok && opened(
                        old(reg),
                        final(reg),
                        r->Ok_0,
                        i,
                        read_write,
                        claim,
                        core,
                    )
                },
            },
    {
        match reg.lookup(name) {
            None => {
                assert(reg.descs() =~= old(reg).descs());
                Err(CoreError::BdevNotFound { name: name.to_owned() })
            },
            Some(i) => Self::open_index(reg, core, i, name.to_owned(), read_write, claim),
        }
    }

    /// Builds a handle on device `bdev`, opening a new descriptor for it.
    /// An unknown device, or one claimed by another opener when writing is
    /// asked for, gives `BdevNotFound`. On every failure the descriptor
    /// opened on the way is released again and no channel is kept.
    pub fn open_with_bdev(reg: &mut Bdevs, core: u32, bdev: &Bdev, read_write: bool) -> (r:
        Result<BdevHandle, CoreError>)
        requires
            old(reg).wf(),
        ensures
            final(reg).wf(),
            final(reg).devices() == old(reg).devices(),
            forall|h: BdevHandle|
                #![trigger h.valid(final(reg))]
                h.valid(old(reg)) ==> h.valid(final(reg)),
            r is Err ==> open_failed(old(reg), final(reg)),
            bdev.index >= old(reg).devices().len() ==> r is Err && not_found(r->Err_0, bdev.name@),
            bdev.index < old(reg).devices().len() ==> {
                let i = bdev.index as int;
                let st = old(reg).states()[i];
                let blocked = st.claimed && read_write;
                let full = st.channels >= old(reg).devices()[i].channel_limit;
                &&& blocked ==> r is Err && not_found(r->Err_0, bdev.name@)
                &&& !blocked && full ==> r is Err && no_channel(
                    r->Err_0,
                    old(reg).devices()[i].name@,
                )
                &&& !blocked && !full ==> r is Ok && opened(
                    old(reg),
                    final(reg),
                    r->Ok_0,
                    i,
                    read_write,
                    false,
                    core,
                )
            },
    {
        if bdev.index >= reg.device_count() {
            assert(reg.descs() =~= old(reg).descs());
            return Err(CoreError::BdevNotFound { name: bdev.name.clone() });
        }
        Self::open_index(reg, core, bdev.index, bdev.name.clone(), read_write, false)
    }

    /// Opens device `i`, claims it if asked, and builds a handle on it;
    /// `name` is what a not-found error names.
    fn open_index(reg: &mut Bdevs, core: u32, i: usize, name: String, read_write: bool, claim: bool) -> (r:
        Result<BdevHandle, CoreError>)
        requires
            old(reg).wf(),
            i < old(reg).devices().len(),
        ensures
            final(reg).wf(),
            final(reg).devices() == old(reg).devices(),
            forall|h: BdevHandle|
                #![trigger h.valid(final(reg))]
                h.valid(old(reg)) ==> h.valid(final(reg)),
            r is Err ==> open_failed(old(reg), final(reg)),
            ({
                let st = old(reg).states()[i as int];
                let blocked = st.claimed && (read_write || claim);
                let full = st.channels >= old(reg).devices()[i as int].channel_limit;
                &&& blocked ==> r is Err && not_found(r->Err_0, name@)
                &&& !blocked && full ==> r is Err && no_channel(
                    r->Err_0,
                    old(reg).devices()[i as int].name@,
                )
                &&& !blocked && !full ==> r is Ok && opened(
                    old(reg),
                    final(reg),
                    r->Ok_0,
                    i as int,
                    read_write,
                    claim,
                    core,
                )
            }),
    {
        let ghost st = old(reg).states()[i as int];
        let d = match reg.open_desc(i, read_write) {
            None => {
                return Err(CoreError::BdevNotFound { name });
            },
            Some(d) => d,
        };
        assert(reg.descs()[d as int] == (DescEntry { device: i, read_write, refs: 1, claims: false }));
        if claim && !reg.claim(d) {
            reg.release_desc(d);
            proof {
                assert(reg.descs()[d as int].refs == 0);
                assert forall|h: BdevHandle| #![trigger h.valid(reg)] h.valid(old(reg)) implies h.valid(reg) by {
                    assert(reg.descs()[h.desc as int] == old(reg).descs()[h.desc as int]);
                }
            }
            return Err(CoreError::BdevNotFound { name });
        }
        let ghost s2 = reg.states();
        let r = Self::try_from_desc(reg, d, core);
        proof {
            if claim {
                assert(s2[i as int] == (DeviceState { claimed: true, ..st }));
            } else {
                assert(s2 == old(reg).states());
            }
            if r is Err {
                assert(reg.states() =~= old(reg).states());
                assert(reg.descs()[d as int].refs == 0);
            } else {
                assert(reg.descs() =~= old(reg).descs().push(
                    DescEntry { device: i, read_write, refs: 1, claims: claim },
                ));
                assert(reg.states() =~= old(reg).states().update(
                    i as int,
                    DeviceState { claimed: st.claimed || claim, channels: (st.channels + 1) as u64 },
                ));
                assert(r->Ok_0.valid(reg));
            }
            assert forall|h: BdevHandle| #![trigger h.valid(reg)] h.valid(old(reg)) implies h.valid(reg) by {
                assert(reg.descs()[h.desc as int] == old(reg).descs()[h.desc as int]);
                assert(reg.channels()[h.channel as int] == old(reg).channels()[h.channel as int]);
            }
        }
        r
    }

    /// Builds a second handle on this handle's descriptor, with a channel of
    /// its own on worker `core`. The two handles stay independent: closing
    /// one leaves the other valid.
    pub fn open_shared(&self, reg: &mut Bdevs, core: u32) -> (r: Result<BdevHandle, CoreError>)
        requires
            old(reg).wf(),
            self.valid(old(reg)),
            old(reg).descs()[self.desc as int].refs < u64::MAX,
        ensures
            final(reg).wf(),
            final(reg).devices() == old(reg).devices(),
            self.valid(final(reg)),
            ({
                let dev = old(reg).descs()[self.desc as int].device as int;
                let full = old(reg).states()[dev].channels >= old(reg).devices()[dev].channel_limit;
                &&& !full ==> {
                    &&& r is Ok && r->Ok_0.desc == self.desc && r->Ok_0.core == core
                    &&& r->Ok_0.valid(final(reg))
                    &&& r->Ok_0.channel != self.channel
                    &&& final(reg).descs()[self.desc as int].refs == old(reg).descs()[self.desc as int].refs + 1
                }
                &&& full ==> {
                    &&& r is Err && no_channel(r->Err_0, old(reg).devices()[dev].name@)
                    &&& final(reg).descs() == old(reg).descs()
                }
            }),
    {
        reg.retain(self.desc);
        let r = Self::try_from_desc(reg, self.desc, core);
        proof {
            if r is Err {
                assert(reg.descs()[self.desc as int] == old(reg).descs()[self.desc as int]);
                assert(reg.descs() =~= old(reg).descs());
            }
        }
        r
    }

    /// Tears the handle down: its channel is released first, then its
    /// descriptor. Every other handle that was valid stays valid, as long as
    /// it has its own channel and its descriptor keeps a holder.
    pub fn close(self, reg: &mut Bdevs)
        requires
            old(reg).wf(),
            self.valid(old(reg)),
        ensures
            final(reg).wf(),
            final(reg).devices() == old(reg).devices(),
            final(reg).releases() == old(reg).releases().push(Release::Channel(self.channel)).push(
                Release::Descriptor(self.desc),
            ),
            final(reg).descs().len() == old(reg).descs().len(),
            final(reg).channels().len() == old(reg).channels().len(),
            !final(reg).channels()[self.channel as int].live,
            final(reg).descs()[self.desc as int].refs == old(reg).descs()[self.desc as int].refs - 1,
            forall|h: BdevHandle|
                #![trigger h.valid(final(reg))]
                h.valid(old(reg)) && h.channel != self.channel && (h.desc != self.desc
                    || old(reg).descs()[self.desc as int].refs > 1) ==> h.valid(final(reg)),
    {
        reg.put_channel(self.channel);
        reg.release_desc(self.desc);
    }

    /// The static properties of the handle's device.
    pub fn get_bdev(&self, reg: &Bdevs) -> (b: Bdev)
        requires
            reg.wf(),
            self.valid(reg),
        ensures
            b.index == reg.descs()[self.desc as int].device,
            b.name@ == reg.devices()[b.index as int].name@,
            b.alignment == reg.devices()[b.index as int].alignment,
    {
        let dev = reg.desc_device(self.desc);
        reg.bdev(dev)
    }

    /// The descriptor and channel that submissions through this handle use.
    pub fn io_tuple(&self) -> (r: (usize, usize))
        ensures
            r == (self.desc, self.channel),
    {
        (self.desc, self.channel)
    }

    /// Allocates a zeroed buffer of `size` bytes with the device's alignment.
    pub fn dma_malloc(&self, reg: &Bdevs, size: usize) -> (r: Result<DmaBuf, DmaError>)
        requires
            reg.wf(),
            self.valid(reg),
        ensures
            ({
                let a = reg.devices()[reg.descs()[self.desc as int].device as int].alignment;
                &&& is_alignment(a) ==> r is Ok && r->Ok_0@ == Seq::new(size as nat, |i: int| 0u8)
                    && r->Ok_0.spec_alignment() == a
                &&& !is_alignment(a) ==> r == Err::<DmaBuf, DmaError>(DmaError::Alignment { alignment: a })
            }),
    {
        let b = self.get_bdev(reg);
        DmaBuf::new(size, b.alignment)
    }

    /// Arms the completion bridge of `op` for a submission from worker
    /// `current`. Only the handle's own worker may submit through its
    /// channel.
    fn submit(&self, reg: &Bdevs, current: u32, bridges: &mut BridgeTable, op: IoOp) -> (r: Result<
        Token,
        CoreError,
    >)
        requires
            self.valid(reg),
            old(bridges).wf(),
            old(bridges).next() < u64::MAX,
        ensures
            submitted(*self, current, *old(bridges), *final(bridges), op, r),
    {
        if current != self.core {
            return Err(CoreError::WrongCore { current, expected: self.core });
        }
        let t = bridges.arm(op);
        Ok(t.unwrap())
    }

    /// Starts a write of the whole of `buffer` at `offset`. The returned
    /// token goes to the driver with the submission; once its completion has
    /// arrived, the bridge yields the byte count `buffer.len()` or
    /// `WriteFailed`.
    pub fn write_at(&self, reg: &Bdevs, current: u32, bridges: &mut BridgeTable, offset: u64, buffer: &DmaBuf) -> (r:
        Result<Token, CoreError>)
        requires
            self.valid(reg),
            old(bridges).wf(),
            old(bridges).next() < u64::MAX,
        ensures
            submitted(
                *self,
                current,
                *old(bridges),
                *final(bridges),
                IoOp::Write { offset, len: buffer@.len() as usize },
                r,
            ),
    {
        self.submit(reg, current, bridges, IoOp::Write { offset, len: buffer.len() })
    }

    /// Starts a read into the whole of `buffer` from `offset`.
    pub fn read_at(&self, reg: &Bdevs, current: u32, bridges: &mut BridgeTable, offset: u64, buffer: &DmaBuf) -> (r:
        Result<Token, CoreError>)
        requires
            self.valid(reg),
            old(bridges).wf(),
            old(bridges).next() < u64::MAX,
        ensures
            submitted(
                *self,
                current,
                *old(bridges),
                *final(bridges),
                IoOp::Read { offset, len: buffer@.len() as usize },
                r,
            ),
    {
        self.submit(reg, current, bridges, IoOp::Read { offset, len: buffer.len() })
    }

    /// Starts a reset of the device.
    pub fn reset(&self, reg: &Bdevs, current: u32, bridges: &mut BridgeTable) -> (r: Result<Token, CoreError>)
        requires
            self.valid(reg),
            old(bridges).wf(),
            old(bridges).next() < u64::MAX,
        ensures
            submitted(*self, current, *old(bridges), *final(bridges), IoOp::Reset, r),
    {
        self.submit(reg, current, bridges, IoOp::Reset)
    }

    /// Starts the admin command `cmd`; its errors carry the command's opcode.
    pub fn nvme_admin(&self, reg: &Bdevs, current: u32, bridges: &mut BridgeTable, cmd: &NvmeCmd) -> (r: Result<
        Token,
        CoreError,
    >)
        requires
            self.valid(reg),
            old(bridges).wf(),
            old(bridges).next() < u64::MAX,
        ensures
            submitted(
                *self,
                current,
                *old(bridges),
                *final(bridges),
                IoOp::Admin { opcode: cmd.opc },
                r,
            ),
    {
        self.submit(reg, current, bridges, IoOp::Admin { opcode: cmd.opc })
    }

    /// Starts an admin command made of the bare `opcode`; returns the token
    /// and the command to hand to the driver.
    pub fn nvme_admin_custom(&self, reg: &Bdevs, current: u32, bridges: &mut BridgeTable, opcode: u8) -> (r:
        Result<(Token, NvmeCmd), CoreError>)
        requires
            self.valid(reg),
            old(bridges).wf(),
            old(bridges).next() < u64::MAX,
        ensures
            r is Ok ==> r->Ok_0.1 == NvmeCmd::with_opcode_spec(opcode),
            submitted(
                *self,
                current,
                *old(bridges),
                *final(bridges),
                IoOp::Admin { opcode },
                match r {
                    Ok(p) => Ok(p.0),
                    Err(e) => Err(e),
                },
            ),
    {
        let cmd = NvmeCmd::with_opcode(opcode);
        match self.nvme_admin(reg, current, bridges, &cmd) {
            Ok(t) => Ok((t, cmd)),
            Err(e) => Err(e),
        }
    }

    /// Starts a snapshot taken at `now` seconds since the epoch: the command
    /// carries `now` split into its low and high 32 bits.
    pub fn create_snapshot_at(&self, reg: &Bdevs, current: u32, bridges: &mut BridgeTable, now: u64) -> (r:
        Result<(Token, NvmeCmd), CoreError>)
        requires
            self.valid(reg),
            old(bridges).wf(),
            old(bridges).next() < u64::MAX,
        ensures
            r is Ok ==> r->Ok_0.1 == snapshot_cmd(now),
            submitted(
                *self,
                current,
                *old(bridges),
                *final(bridges),
                IoOp::Admin { opcode: CREATE_SNAPSHOT },
                match r {
                    Ok(p) => Ok(p.0),
                    Err(e) => Err(e),
                },
            ),
    {
        let cmd = NvmeCmd {
            opc: CREATE_SNAPSHOT,
            cdw10: (now % 0x1_0000_0000) as u32,
            cdw11: (now / 0x1_0000_0000) as u32,
        };
        match self.nvme_admin(reg, current, bridges, &cmd) {
            Ok(t) => Ok((t, cmd)),
            Err(e) => Err(e),
        }
    }

    /// Starts a snapshot at the time the system clock reads now; returns the
    /// token, the command and the time it encodes.
    pub fn create_snapshot(&self, reg: &Bdevs, current: u32, bridges: &mut BridgeTable) -> (r: Result<
        (Token, NvmeCmd, u64),
        CoreError,
    >)
        requires
            self.valid(reg),
            old(bridges).wf(),
            old(bridges).next() < u64::MAX,
        ensures
            final(bridges).wf(),
            r is Ok ==> {
                &&& r->Ok_0.1 == snapshot_cmd(r->Ok_0.2)
                &&& submitted(
                    *self,
                    current,
                    *old(bridges),
                    *final(bridges),
                    IoOp::Admin { opcode: CREATE_SNAPSHOT },
                    Ok(r->Ok_0.0),
                )
            },
            r is Err ==> final(bridges)@ == old(bridges)@ && final(bridges).next() == old(
                bridges,
            ).next(),
            r is Err ==> r->Err_0 == CoreError::ClockBeforeEpoch || (current != self.core
                && r->Err_0 == (CoreError::WrongCore { current, expected: self.core })),
            current != self.core ==> r is Err,
    {
        match epoch_seconds() {
            None => Err(CoreError::ClockBeforeEpoch),
            Some(now) => match self.create_snapshot_at(reg, current, bridges, now) {
                Ok((t, cmd)) => Ok((t, cmd, now)),
                Err(e) => Err(e),
            },
        }
    }
}

/// The outcome of arming `op` through handle `h` from worker `current`,
/// with the bridges going from `before` to `after`.
pub open spec fn submitted(
    h: BdevHandle,
    current: u32,
    before: BridgeTable,
    after: BridgeTable,
    op: IoOp,
    r: Result<Token, CoreError>,
) -> bool {
    &&& after.wf()
    &&& current != h.core ==> {
        &&& r == Err::<Token, CoreError>(CoreError::WrongCore { current, expected: h.core })
        &&& after@ == before@
        &&& after.next() == before.next()
    }
    &&& current == h.core ==> {
        &&& r == Ok::<Token, CoreError>(Token { id: before.next() })
        &&& !before@.contains_key(before.next())
        &&& after@ == before@.insert(before.next(), Slot::InFlight(op))
        &&& after.next() == before.next() + 1
    }
}

/// What a snapshot returns once its admin command completed with `admin`:
/// the time it encodes, or the command's error.
pub fn snapshot_result(admin: Result<usize, CoreError>, now: u64) -> (r: Result<u64, CoreError>)
    ensures
        admin is Ok ==> r == Ok::<u64, CoreError>(now),
        admin is Err ==> r == Err::<u64, CoreError>(admin->Err_0),
{
    match admin {
        Ok(_) => Ok(now),
        Err(e) => Err(e),
    }
}

/// The two command fields of a snapshot hold the low and the high 32 bits
/// of its time, and put back together they give that time.
pub proof fn lemma_snapshot_fields(now: u64)
    ensures
        snapshot_cmd(now).opc == CREATE_SNAPSHOT,
        snapshot_cmd(now).cdw10 as int == now as int % 0x1_0000_0000,
        snapshot_cmd(now).cdw11 as int == now as int / 0x1_0000_0000,
        snapshot_cmd(now).cdw11 as int * 0x1_0000_0000 + snapshot_cmd(now).cdw10 as int == now as int,
{
    assert(now as int / 0x1_0000_0000 < 0x1_0000_0000);
}

} // verus!
