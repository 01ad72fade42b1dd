//! Connection data that the DMA-engine benchmark exchanges: exported memory
//! maps and the remote buffers they describe.
use vstd::prelude::*;

verus! {

/// Largest size of an encoded connection message.
pub const DOCA_MAX_CONN_LENGTH: usize = 4096;

/// A remote buffer: its address and its size in bytes.
#[derive(Clone, Copy, Debug)]
pub struct RemoteBuffer {
    pub addr: u64,
    pub payload: usize,
}

/// The wire form of the connection data.
pub struct DocaConnInfoMsg {
    pub exports: Vec<Vec<u8>>,
    pub buffers: Vec<RemoteBuffer>,
}

/// Connection data: the exported memory maps and the remote buffers.
#[derive(Clone)]
pub struct DocaConnInfo {
    pub exports: Vec<Vec<u8>>,
    pub buffers: Vec<RemoteBuffer>,
}

impl Default for DocaConnInfo {
    fn default() -> (r: Self)
        ensures
            r.exports@.len() == 0,
            r.buffers@.len() == 0,
    {
        DocaConnInfo { exports: Vec::new(), buffers: Vec::new() }
    }
}

impl From<DocaConnInfo> for DocaConnInfoMsg {
    fn from(info: DocaConnInfo) -> (r: Self) {
        DocaConnInfoMsg { exports: info.exports, buffers: info.buffers }
    }
}

impl vstd::std_specs::convert::FromSpecImpl<DocaConnInfo> for DocaConnInfoMsg {
    open spec fn obeys_from_spec() -> bool {
        true
    }

    open spec fn from_spec(info: DocaConnInfo) -> DocaConnInfoMsg {
        DocaConnInfoMsg { exports: info.exports, buffers: info.buffers }
    }
}

impl From<DocaConnInfoMsg> for DocaConnInfo {
    fn from(msg: DocaConnInfoMsg) -> (r: Self) {
        DocaConnInfo { exports: msg.exports, buffers: msg.buffers }
    }
}

impl vstd::std_specs::convert::FromSpecImpl<DocaConnInfoMsg> for DocaConnInfo {
    open spec fn obeys_from_spec() -> bool {
        true
    }

    open spec fn from_spec(msg: DocaConnInfoMsg) -> DocaConnInfo {
        DocaConnInfo { exports: msg.exports, buffers: msg.buffers }
    }
}

} // verus!
