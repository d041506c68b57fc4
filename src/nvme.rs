use vstd::prelude::*;
use vstd::utf8::{encode_utf8, is_char_boundary};

use crate::device::Bdevs;

verus! {

/// Capacity of the transport address field, terminating zero included.
pub const TRADDR_LEN: usize = 257;

/// Namespaces asked for when attaching a controller.
pub const MAX_NAMESPACES: u32 = 1;

/// Errors of attaching a local NVMe controller.
#[derive(Debug, Clone, PartialEq, Eq)]
pub enum NexusBdevError {
    /// A device of that name exists already.
    BdevExists { name: String },
    /// The name does not fit the transport address field.
    NameTooLong { name: String },
    /// The driver refused the attach request.
    InvalidParams { name: String, errno: i32 },
    /// The driver accepted the request and then failed to attach.
    CreateBdev { name: String, errno: i32 },
}

#[derive(Debug, Clone, Copy, PartialEq, Eq)]
pub enum TransportType {
    Pcie,
}

/// The transport identifier of a controller: its type and its address as
/// a zero-terminated string in a fixed field.
#[derive(Debug, Clone)]
pub struct TransportId {
    pub trtype: TransportType,
    pub traddr: Vec<u8>,
}

/// The arguments of an attach request.
#[derive(Debug, Clone)]
pub struct NvmeCreateContext {
    pub trid: TransportId,
    pub prchk_flags: u32,
    pub count: u32,
}

/// A local NVMe controller, named by its PCI address.
#[derive(Debug, Clone)]
pub struct NVMe {
    pub name: String,
}

/// The bytes of `s`, padded with zeros to the address field's capacity.
pub open spec fn padded(s: Seq<u8>) -> Seq<u8> {
    s + Seq::new((TRADDR_LEN - s.len()) as nat, |i: int| 0u8)
}

impl NVMe {
    /// The controller named by a URI path: the path without its leading
    /// character. An empty path names nothing.
    pub fn try_from_path(path: &str) -> (r: Option<NVMe>)
        ensures
            r is Some <==> is_char_boundary(encode_utf8(path@), 1),
            r is Some ==> encode_utf8(r->Some_0.name@) == encode_utf8(path@).subrange(
                1,
                encode_utf8(path@).len() as int,
            ),
    {
        if !path.is_char_boundary(1) {
            return None;
        }
        let (_, rest) = path.split_at(1);
        Some(NVMe { name: rest.to_owned() })
    }

    pub fn get_name(&self) -> (r: String)
        ensures
            r@ == self.name@,
    {
        self.name.clone()
    }

    /// Checks an attach request before it is made: the name must be free
    /// among the registered devices and must fit the address field.
    pub fn create_context(&self, reg: &Bdevs) -> (r: Result<NvmeCreateContext, NexusBdevError>)
        ensures
            reg.find(self.name@) is Some ==> r == Err::<NvmeCreateContext, NexusBdevError>(
                NexusBdevError::BdevExists { name: self.name },
            ),
            reg.find(self.name@) is None ==> match r {
                Ok(c) => encode_utf8(self.name@).len() < TRADDR_LEN && c.trid.traddr@ == padded(
                    encode_utf8(self.name@),
                ),
                Err(e) => e == NexusBdevError::NameTooLong { name: self.name }
                    && encode_utf8(self.name@).len() >= TRADDR_LEN,
            },
    {
        if reg.lookup(self.name.as_str()).is_some() {
            return Err(NexusBdevError::BdevExists { name: self.name.clone() });
        }
        NvmeCreateContext::new(self)
    }

    /// The outcome of an attach request, from the status the driver returned
    /// on submission and, when that was zero, the status its completion
    /// reported. On success it is `created`, the name of the device the
    /// driver wrote back into the request.
    pub fn create_result(&self, submit_status: i32, done_status: i32, created: String) -> (r: Result<
        String,
        NexusBdevError,
    >)
        ensures
            submit_status != 0 ==> r == Err::<String, NexusBdevError>(
                NexusBdevError::InvalidParams { name: self.name, errno: submit_status },
            ),
            submit_status == 0 && done_status != 0 ==> r == Err::<String, NexusBdevError>(
                NexusBdevError::CreateBdev { name: self.name, errno: done_status },
            ),
            submit_status == 0 && done_status == 0 ==> r == Ok::<String, NexusBdevError>(created),
    {
        if submit_status != 0 {
            return Err(NexusBdevError::InvalidParams { name: self.name.clone(), errno: submit_status });
        }
        if done_status != 0 {
            return Err(NexusBdevError::CreateBdev { name: self.name.clone(), errno: done_status });
        }
        Ok(created)
    }
}

impl NvmeCreateContext {
    /// The attach arguments for `nvme`: a PCIe transport whose address field
    /// holds the name, zero-terminated. A name that leaves no room for the
    /// terminating zero is refused.
    pub fn new(nvme: &NVMe) -> (r: Result<NvmeCreateContext, NexusBdevError>)
        ensures
            match r {
                Ok(c) => {
                    &&& encode_utf8(nvme.name@).len() < TRADDR_LEN
                    &&& c.trid.traddr@ == padded(encode_utf8(nvme.name@))
                    &&& c.trid.trtype == TransportType::Pcie
                    &&& c.prchk_flags == 0
                    &&& c.count == MAX_NAMESPACES
                },
                Err(e) => e == NexusBdevError::NameTooLong { name: nvme.name }
                    && encode_utf8(nvme.name@).len() >= TRADDR_LEN,
            },
    {
        let bytes = nvme.name.as_str().as_bytes();
        if bytes.len() >= TRADDR_LEN {
            return Err(NexusBdevError::NameTooLong { name: nvme.name.clone() });
        }
        let mut traddr: Vec<u8> = Vec::with_capacity(TRADDR_LEN);
        let mut i: usize = 0;
        while i < TRADDR_LEN
            invariant
                i <= TRADDR_LEN,
                bytes@.len() < TRADDR_LEN,
                traddr@.len() == i,
                forall|k: int| 0 <= k < i ==> traddr@[k] == padded(bytes@)[k],
            decreases TRADDR_LEN - i,
        {
            if i < bytes.len() {
                traddr.push(bytes[i]);
            } else {
                traddr.push(0);
            }
            i += 1;
        }
        assert(traddr@ =~= padded(bytes@));
        Ok(NvmeCreateContext {
            trid: TransportId { trtype: TransportType::Pcie, traddr },
            prchk_flags: 0,
            count: MAX_NAMESPACES,
        })
    }
}

} // verus!
