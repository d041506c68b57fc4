use vstd::prelude::*;

verus! {

/// The static properties of a registered device.
#[derive(Debug, Clone)]
pub struct DeviceInfo {
    pub name: String,
    /// Alignment, in bytes, that the device requires of I/O buffers.
    pub alignment: u64,
    /// How many submission channels the driver can give out for it.
    pub channel_limit: u64,
}

/// The mutable driver-side state of a device.
#[derive(Debug, Clone, Copy, PartialEq, Eq)]
pub struct DeviceState {
    /// Some descriptor holds the device exclusively.
    pub claimed: bool,
    /// Live submission channels.
    pub channels: u64,
}

/// An opened descriptor, shared by every handle built on it.
#[derive(Debug, Clone, Copy, PartialEq, Eq)]
pub struct DescEntry {
    pub device: usize,
    pub read_write: bool,
    /// Holders of the descriptor; it is closed when this reaches zero.
    pub refs: u64,
    /// This descriptor holds the device's claim.
    pub claims: bool,
}

/// A submission channel, bound to the worker that created it.
#[derive(Debug, Clone, Copy, PartialEq, Eq)]
pub struct ChannelEntry {
    pub desc: usize,
    pub core: u32,
    pub live: bool,
}

/// One step of a teardown, in the order it happened.
#[derive(Debug, Clone, Copy, PartialEq, Eq)]
pub enum Release {
    Channel(usize),
    Descriptor(usize),
}

/// A lightweight handle to a device's static properties.
#[derive(Debug, Clone)]
pub struct Bdev {
    pub index: usize,
    pub name: String,
    pub alignment: u64,
}

/// The devices known to the driver with their descriptors and channels.
pub struct Bdevs {
    devices: Vec<DeviceInfo>,
    states: Vec<DeviceState>,
    descs: Vec<DescEntry>,
    channels: Vec<ChannelEntry>,
    log: Vec<Release>,
}

/// Well-formedness carries over from `a` to `b` when the devices only grew,
/// every descriptor and channel of `a` points where it did, and the new
/// ones point at entries of `b`.
proof fn lemma_wf_step(a: Bdevs, b: Bdevs)
    requires
        a.wf(),
        b.states().len() == b.devices().len(),
        a.devices().len() <= b.devices().len(),
        a.descs().len() <= b.descs().len(),
        a.channels().len() <= b.channels().len(),
        forall|d: int|
            0 <= d < a.descs().len() ==> #[trigger] b.descs()[d].device == a.descs()[d].device,
        forall|d: int|
            a.descs().len() <= d < b.descs().len() ==> #[trigger] b.descs()[d].device
                < b.devices().len(),
        forall|c: int|
            0 <= c < a.channels().len() ==> #[trigger] b.channels()[c].desc == a.channels()[c].desc,
        forall|c: int|
            a.channels().len() <= c < b.channels().len() ==> #[trigger] b.channels()[c].desc
                < b.descs().len(),
    ensures
        b.wf(),
{
    assert forall|d: int| 0 <= d < b.descs().len() implies #[trigger] b.descs()[d].device
        < b.devices().len() by {
        if d < a.descs().len() {
            assert(a.descs()[d].device < a.devices().len());
        }
    }
    assert forall|c: int| 0 <= c < b.channels().len() implies #[trigger] b.channels()[c].desc
        < b.descs().len() by {
        if c < a.channels().len() {
            assert(a.channels()[c].desc < a.descs().len());
        }
    }
}

impl Bdevs {
    pub closed spec fn devices(&self) -> Seq<DeviceInfo> {
        self.devices@
    }

    pub closed spec fn states(&self) -> Seq<DeviceState> {
        self.states@
    }

    pub closed spec fn descs(&self) -> Seq<DescEntry> {
        self.descs@
    }

    pub closed spec fn channels(&self) -> Seq<ChannelEntry> {
        self.channels@
    }

    /// Every release performed so far, oldest first.
    pub closed spec fn releases(&self) -> Seq<Release> {
        self.log@
    }

    pub open spec fn wf(&self) -> bool {
        &&& self.states().len() == self.devices().len()
        &&& forall|d: int|
            0 <= d < self.descs().len() ==> #[trigger] self.descs()[d].device
                < self.devices().len()
        &&& forall|c: int|
            0 <= c < self.channels().len() ==> #[trigger] self.channels()[c].desc
                < self.descs().len()
    }

    /// The index of the first device named `name`.
    pub open spec fn find(&self, name: Seq<char>) -> Option<int> {
        if exists|i: int| 0 <= i < self.devices().len() && self.devices()[i].name@ == name {
            let i = choose|i: int|
                0 <= i < self.devices().len() && self.devices()[i].name@ == name && forall|
                    j: int,
                | 0 <= j < i ==> self.devices()[j].name@ != name;
            Some(i)
        } else {
            None
        }
    }

    /// Whether descriptor `d` is open.
    pub open spec fn desc_open(&self, d: usize) -> bool {
        d < self.descs().len() && self.descs()[d as int].refs > 0
    }

    /// Whether channel `c` is live, on descriptor `d` and worker `core`.
    pub open spec fn channel_of(&self, c: usize, d: usize, core: u32) -> bool {
        &&& c < self.channels().len()
        &&& self.channels()[c as int].live
        &&& self.channels()[c as int].desc == d
        &&& self.channels()[c as int].core == core
    }

    pub fn new() -> (r: Self)
        ensures
            r.wf(),
            r.devices().len() == 0,
            r.descs().len() == 0,
            r.channels().len() == 0,
            r.releases().len() == 0,
    {
        Bdevs {
            devices: Vec::new(),
            states: Vec::new(),
            descs: Vec::new(),
            channels: Vec::new(),
            log: Vec::new(),
        }
    }

    /// Finds the first device named `name`.
    pub fn lookup(&self, name: &str) -> (r: Option<usize>)
        ensures
            match r {
                Some(i) => self.find(name@) == Some(i as int) && i < self.devices().len()
                    && self.devices()[i as int].name@ == name@,
                None => self.find(name@) is None,
            },
    {
        let wanted = name.to_owned();
        let mut i: usize = 0;
        while i < self.devices.len()
            invariant
                i <= self.devices@.len(),
                wanted@ == name@,
                forall|j: int| 0 <= j < i ==> self.devices@[j].name@ != name@,
            decreases self.devices@.len() - i,
        {
            if self.devices[i].name == wanted {
                assert(self.devices()[i as int].name@ == name@);
                return Some(i);
            }
            i += 1;
        }
        None
    }

    /// Registers a device with the driver. A name already taken is refused.
    pub fn register(&mut self, name: &str, alignment: u64, channel_limit: u64) -> (r: Option<Bdev>)
        requires
            old(self).wf(),
        ensures
            final(self).wf(),
            final(self).descs() == old(self).descs(),
            final(self).channels() == old(self).channels(),
            final(self).releases() == old(self).releases(),
            old(self).find(name@) is Some ==> r is None && final(self).devices() == old(
                self,
            ).devices() && final(self).states() == old(self).states(),
            old(self).find(name@) is None ==> r is Some && {
                let b = r->Some_0;
                &&& b.index == old(self).devices().len()
                &&& b.name@ == name@
                &&& b.alignment == alignment
                &&& final(self).devices().len() == old(self).devices().len() + 1
                &&& final(self).devices().drop_last() == old(self).devices()
                &&& final(self).devices().last().name@ == name@
                &&& final(self).devices().last().alignment == alignment
                &&& final(self).devices().last().channel_limit == channel_limit
                &&& final(self).states() == old(self).states().push(
                    DeviceState { claimed: false, channels: 0 },
                )
            },
    {
        if self.lookup(name).is_some() {
            return None;
        }
        let index = self.devices.len();
        let info = DeviceInfo { name: name.to_owned(), alignment, channel_limit };
        self.devices.push(info);
        self.states.push(DeviceState { claimed: false, channels: 0 });
        proof {
            assert(self.devices@.drop_last() =~= old(self).devices@);
            lemma_wf_step(*old(self), *self);
        }
        Some(Bdev { index, name: name.to_owned(), alignment })
    }

    /// Opens a descriptor on device `index`. Opening for write a device that
    /// a descriptor has claimed is refused, as is an unknown index.
    pub fn open_desc(&mut self, index: usize, read_write: bool) -> (r: Option<usize>)
        requires
            old(self).wf(),
        ensures
            final(self).wf(),
            final(self).devices() == old(self).devices(),
            final(self).states() == old(self).states(),
            final(self).channels() == old(self).channels(),
            final(self).releases() == old(self).releases(),
            (index < old(self).devices().len() && !(read_write
                && old(self).states()[index as int].claimed)) ==> r is Some && r->Some_0 as int == old(self).descs().len() && final(self).descs() == old(self).descs().push(
                DescEntry { device: index, read_write, refs: 1, claims: false },
            ),
            !(index < old(self).devices().len() && !(read_write
                && old(self).states()[index as int].claimed)) ==> r is None && final(self).descs()
                == old(self).descs(),
    {
        if index >= self.devices.len() || (read_write && self.states[index].claimed) {
            return None;
        }
        let d = self.descs.len();
        self.descs.push(DescEntry { device: index, read_write, refs: 1, claims: false });
        proof {
            lemma_wf_step(*old(self), *self);
        }
        Some(d)
    }

    /// Takes exclusive ownership of the device of descriptor `d`; fails when
    /// the device is claimed already.
    pub fn claim(&mut self, d: usize) -> (r: bool)
        requires
            old(self).wf(),
            old(self).desc_open(d),
        ensures
            final(self).wf(),
            final(self).devices() == old(self).devices(),
            final(self).channels() == old(self).channels(),
            final(self).releases() == old(self).releases(),
            ({
                let dev = old(self).descs()[d as int].device as int;
                &&& r == !old(self).states()[dev].claimed
                &&& r ==> final(self).states() == old(self).states().update(
                    dev,
                    DeviceState { claimed: true, ..old(self).states()[dev] },
                ) && final(self).descs() == old(self).descs().update(
                    d as int,
                    DescEntry { claims: true, ..old(self).descs()[d as int] },
                )
                &&& !r ==> final(self).states() == old(self).states() && final(self).descs()
                    == old(self).descs()
            }),
    {
        let e = self.descs[d];
        let st = self.states[e.device];
        if st.claimed {
            return false;
        }
        self.states.set(e.device, DeviceState { claimed: true, ..st });
        self.descs.set(d, DescEntry { claims: true, ..e });
        proof {
            lemma_wf_step(*old(self), *self);
        }
        true
    }

    /// Adds a holder to the open descriptor `d`.
    pub fn retain(&mut self, d: usize)
        requires
            old(self).wf(),
            old(self).desc_open(d),
            old(self).descs()[d as int].refs < u64::MAX,
        ensures
            final(self).wf(),
            final(self).devices() == old(self).devices(),
            final(self).states() == old(self).states(),
            final(self).channels() == old(self).channels(),
            final(self).releases() == old(self).releases(),
            final(self).descs() == old(self).descs().update(
                d as int,
                DescEntry { refs: (old(self).descs()[d as int].refs + 1) as u64, ..old(self).descs()[d as int] },
            ),
    {
        let e = self.descs[d];
        self.descs.set(d, DescEntry { refs: e.refs + 1, ..e });
        proof {
            lemma_wf_step(*old(self), *self);
        }
    }

    /// Drops one holder of descriptor `d`. The last one closes it, which gives
    /// up the device's claim if the descriptor held it.
    pub fn release_desc(&mut self, d: usize)
        requires
            old(self).wf(),
            old(self).desc_open(d),
        ensures
            final(self).wf(),
            final(self).devices() == old(self).devices(),
            final(self).channels() == old(self).channels(),
            final(self).releases() == old(self).releases().push(Release::Descriptor(d)),
            ({
                let e = old(self).descs()[d as int];
                let closing = e.refs == 1 && e.claims;
                &&& final(self).descs() == old(self).descs().update(
                    d as int,
                    DescEntry {
                        refs: (e.refs - 1) as u64,
                        claims: e.claims && !closing,
                        ..e
                    },
                )
                &&& closing ==> final(self).states() == old(self).states().update(
                    e.device as int,
                    DeviceState { claimed: false, ..old(self).states()[e.device as int] },
                )
                &&& !closing ==> final(self).states() == old(self).states()
            }),
    {
        let e = self.descs[d];
        let closing = e.refs == 1 && e.claims;
        if closing {
            let st = self.states[e.device];
            self.states.set(e.device, DeviceState { claimed: false, ..st });
        }
        self.descs.set(d, DescEntry { refs: e.refs - 1, claims: e.claims && !closing, ..e });
        self.log.push(Release::Descriptor(d));
        proof {
            lemma_wf_step(*old(self), *self);
        }
    }

    /// Allocates a submission channel for descriptor `d` on worker `core`;
    /// fails when the device has no channel left to give.
    pub fn get_channel(&mut self, d: usize, core: u32) -> (r: Option<usize>)
        requires
            old(self).wf(),
            old(self).desc_open(d),
        ensures
            final(self).wf(),
            final(self).devices() == old(self).devices(),
            final(self).descs() == old(self).descs(),
            final(self).releases() == old(self).releases(),
            ({
                let dev = old(self).descs()[d as int].device as int;
                let st = old(self).states()[dev];
                &&& st.channels < old(self).devices()[dev].channel_limit ==> {
                    &&& r is Some && r->Some_0 as int == old(self).channels().len()
                    &&& final(self).channels() == old(self).channels().push(
                        ChannelEntry { desc: d, core, live: true },
                    )
                    &&& final(self).states() == old(self).states().update(
                        dev,
                        DeviceState { channels: (st.channels + 1) as u64, ..st },
                    )
                }
                &&& st.channels >= old(self).devices()[dev].channel_limit ==> {
                    &&& r is None
                    &&& final(self).channels() == old(self).channels()
                    &&& final(self).states() == old(self).states()
                }
            }),
    {
        let dev = self.descs[d].device;
        let st = self.states[dev];
        if st.channels >= self.devices[dev].channel_limit {
            return None;
        }
        let c = self.channels.len();
        self.channels.push(ChannelEntry { desc: d, core, live: true });
        self.states.set(dev, DeviceState { channels: st.channels + 1, ..st });
        proof {
            lemma_wf_step(*old(self), *self);
        }
        Some(c)
    }

    /// Releases the live channel `c`.
    pub fn put_channel(&mut self, c: usize)
        requires
            old(self).wf(),
            c < old(self).channels().len(),
            old(self).channels()[c as int].live,
        ensures
            final(self).wf(),
            final(self).devices() == old(self).devices(),
            final(self).descs() == old(self).descs(),
            final(self).releases() == old(self).releases().push(Release::Channel(c)),
            final(self).channels() == old(self).channels().update(
                c as int,
                ChannelEntry { live: false, ..old(self).channels()[c as int] },
            ),
            ({
                let dev = old(self).descs()[old(self).channels()[c as int].desc as int].device as int;
                let st = old(self).states()[dev];
                final(self).states() == old(self).states().update(
                    dev,
                    DeviceState { channels: if st.channels > 0 { (st.channels - 1) as u64 } else { 0 }, ..st },
                )
            }),
    {
        let ch = self.channels[c];
        let dev = self.descs[ch.desc].device;
        let st = self.states[dev];
        let n: u64 = if st.channels > 0 { st.channels - 1 } else { 0 };
        self.states.set(dev, DeviceState { channels: n, ..st });
        self.channels.set(c, ChannelEntry { live: false, ..ch });
        self.log.push(Release::Channel(c));
        proof {
            lemma_wf_step(*old(self), *self);
        }
    }

    /// The static properties of device `index`.
    pub fn bdev(&self, index: usize) -> (b: Bdev)
        requires
            index < self.devices().len(),
        ensures
            b.index == index,
            b.name@ == self.devices()[index as int].name@,
            b.alignment == self.devices()[index as int].alignment,
    {
        let info = &self.devices[index];
        Bdev { index, name: info.name.clone(), alignment: info.alignment }
    }

    /// The device descriptor `d` was opened on.
    pub fn desc_device(&self, d: usize) -> (r: usize)
        requires
            self.wf(),
            d < self.descs().len(),
        ensures
            r == self.descs()[d as int].device,
            r < self.devices().len(),
    {
        self.descs[d].device
    }

    /// Every release performed so far, oldest first.
    pub fn release_log(&self) -> (r: Vec<Release>)
        ensures
            r@ == self.releases(),
    {
        self.log.clone()
    }

    /// The holders of descriptor `d`; zero for an unknown one.
    pub fn desc_refs(&self, d: usize) -> (r: u64)
        ensures
            d < self.descs().len() ==> r == self.descs()[d as int].refs,
            d >= self.descs().len() ==> r == 0,
    {
        if d < self.descs.len() {
            self.descs[d].refs
        } else {
            0
        }
    }

    /// The number of registered devices.
    pub fn device_count(&self) -> (r: usize)
        ensures
            r == self.devices().len(),
    {
        self.devices.len()
    }
}

} // verus!
