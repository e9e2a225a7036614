//! Loading a P4 program into a SoftNpu ASIC emulated by propolis, over a
//! 9P character device: how the program is cut into writes, and which
//! device is the 9P channel.

use vstd::prelude::*;

verus! {

/// The largest 9P message the channel carries.
pub const P9_MSIZE: u32 = 0x10000;

/// The size of one write of the program: the message size less the 9P
/// write header.
pub const WRITE_STRIDE: usize = 0x10000 - 23;

/// The PCI vendor id of virtio devices.
pub const VIRTIO_VENDOR_ID: i64 = 0x1af4;

/// The PCI device id of the virtio 9P device.
pub const VIRTIO_9P_DEVICE_ID: i64 = 0x1009;

/// Whether `chunks` are the writes of a program of `len` bytes: the first
/// starts at 0, each next one a stride further, each ends a stride after its
/// start or at the end of the program, and the last is the first that
/// reaches the end.
pub open spec fn write_plan(chunks: Seq<(usize, usize)>, len: usize) -> bool {
    &&& chunks.len() >= 1
    &&& chunks[0].0 == 0
    &&& forall|k: int|
        0 <= k < chunks.len() ==> (#[trigger] chunks[k]).1 == (if chunks[k].0 + WRITE_STRIDE
            < len {
            chunks[k].0 + WRITE_STRIDE
        } else {
            len as int
        })
    &&& forall|k: int|
        0 <= k < chunks.len() - 1 ==> chunks[k + 1].0 == (#[trigger] chunks[k]).0 + WRITE_STRIDE
    &&& forall|k: int| 0 <= k < chunks.len() - 1 ==> (#[trigger] chunks[k]).0 + WRITE_STRIDE < len
    &&& chunks.last().0 + WRITE_STRIDE >= len
}

/// The writes of a program of `len` bytes, as (offset, end) pairs: one
/// write per stride, and one (empty) write for an empty program.
pub fn write_chunks(len: usize) -> (chunks: Vec<(usize, usize)>)
    requires
        len <= usize::MAX - WRITE_STRIDE,
    ensures
        write_plan(chunks@, len),
{
    let mut chunks: Vec<(usize, usize)> = Vec::new();
    let mut i: usize = 0;
    loop
        invariant_except_break
            i <= len,
            chunks@.len() > 0 ==> i < len,
        invariant
            len <= usize::MAX - WRITE_STRIDE,
            chunks@.len() == 0 ==> i == 0,
            chunks@.len() > 0 ==> i == chunks@.last().0 + WRITE_STRIDE,
            chunks@.len() > 0 ==> chunks@[0].0 == 0,
            forall|k: int|
                0 <= k < chunks@.len() ==> (#[trigger] chunks@[k]).1 == (if chunks@[k].0
                    + WRITE_STRIDE < len {
                    chunks@[k].0 + WRITE_STRIDE
                } else {
                    len as int
                }),
            forall|k: int|
                0 <= k < chunks@.len() - 1 ==> chunks@[k + 1].0 == (#[trigger] chunks@[k]).0
                    + WRITE_STRIDE,
            forall|k: int|
                0 <= k < chunks@.len() ==> (#[trigger] chunks@[k]).0 + WRITE_STRIDE < len
                    || k == chunks@.len() - 1,
        ensures
            write_plan(chunks@, len),
        decreases len + WRITE_STRIDE - i,
    {
        let end = if i + WRITE_STRIDE < len {
            i + WRITE_STRIDE
        } else {
            len
        };
        chunks.push((i, end));
        i = i + WRITE_STRIDE;
        if i >= len {
            break ;
        }
    }
    chunks
}

/// The writes cover the program exactly, in order: each write ends where
/// the next begins, and the last ends at the end of the program.
pub proof fn lemma_writes_cover_program(chunks: Seq<(usize, usize)>, len: usize)
    requires
        write_plan(chunks, len),
    ensures
        chunks[0].0 == 0,
        forall|k: int| 0 <= k < chunks.len() - 1 ==> (#[trigger] chunks[k]).1 == chunks[k + 1].0,
        chunks.last().1 == len,
        forall|k: int|
            0 <= k < chunks.len() ==> (#[trigger] chunks[k]).0 <= chunks[k].1 <= chunks[k].0
                + WRITE_STRIDE,
{
    assert forall|k: int| 0 <= k < chunks.len() implies (#[trigger] chunks[k]).0 <= chunks[k].1 by {
        if k > 0 {
            assert(chunks[k - 1].0 + WRITE_STRIDE < len);
        }
    }
}

/// The unit address of a device: the first of its `unit-address` strings;
/// a device without one is skipped.
pub fn unit_address(strings: Option<&Vec<String>>) -> (a: Option<&String>)
    ensures
        match strings {
            Some(v) => if v@.len() > 0 {
                a == Some(&v@[0])
            } else {
                a is None
            },
            None => a is None,
        },
{
    match strings {
        Some(v) => if v.len() > 0 {
            Some(&v[0])
        } else {
            None
        },
        None => None,
    }
}

/// The path of the 9P character device of PCI node `node_name` at
/// `unit_address`.
pub fn p9_device_path(node_name: &str, unit_address: &str) -> (path: String)
    ensures
        path@ == "/devices/pci@0,0/"@ + node_name@ + "@"@ + unit_address@ + ":9p"@,
{
    let mut path = String::from_str("/devices/pci@0,0/");
    path.append(node_name);
    path.append("@");
    path.append(unit_address);
    path.append(":9p");
    path
}

} // verus!
