//! Finding the `/dev/hidgN` node that belongs to a HID function, by the
//! device numbers that the gadget reports for it.

use vstd::prelude::*;
use vstd::string::*;
use crate::text::{append_decimal, decimal};

verus! {

broadcast use vstd::string::group_string_axioms;

/// How many `/dev/hidgN` nodes are examined (`N` from 0 up to this bound,
/// exclusive).
pub const HIDG_SCAN_LIMIT: usize = 10;

/// The major number that a raw device number `dev` carries: bits 8 to 19.
pub open spec fn major_of(dev: u64) -> u32 {
    ((dev >> 8u64) & 0xfffu64) as u32
}

/// The minor number that a raw device number `dev` carries: bits 0 to 7.
pub open spec fn minor_of(dev: u64) -> u32 {
    (dev & 0xffu64) as u32
}

/// The major number of a raw device number.
pub fn device_major(dev: u64) -> (major: u32)
    ensures
        major == major_of(dev),
        major < 0x1000,
{
    let m = (dev >> 8u64) & 0xfffu64;
    assert(m < 0x1000) by (bit_vector)
        requires
            m == (dev >> 8u64) & 0xfffu64,
    ;
    m as u32
}

/// The minor number of a raw device number.
pub fn device_minor(dev: u64) -> (minor: u32)
    ensures
        minor == minor_of(dev),
        minor < 0x100,
{
    let m = dev & 0xffu64;
    assert(m < 0x100) by (bit_vector)
        requires
            m == dev & 0xffu64,
    ;
    m as u32
}

/// Node `i` was found and carries the device numbers `major:minor`.
pub open spec fn node_matches(nodes: Seq<Option<u64>>, i: int, major: u32, minor: u32) -> bool {
    &&& 0 <= i < nodes.len()
    &&& nodes[i] is Some
    &&& major_of(nodes[i]->0) == major
    &&& minor_of(nodes[i]->0) == minor
}

/// Picks the first node whose device numbers are `major:minor`. `nodes[i]` is
/// the raw device number of `/dev/hidg<i>`, or `None` where that node is
/// missing or its metadata could not be read.
pub fn select_hidg_node(nodes: &Vec<Option<u64>>, major: u32, minor: u32) -> (found: Option<usize>)
    ensures
        found matches Some(i) ==> node_matches(nodes@, i as int, major, minor) && forall|j: int|
            0 <= j < i ==> !node_matches(nodes@, j, major, minor),
        found is None ==> forall|j: int| !node_matches(nodes@, j, major, minor),
{
    let mut i: usize = 0;
    while i < nodes.len()
        invariant
            i <= nodes.len(),
            forall|j: int| 0 <= j < i ==> !node_matches(nodes@, j, major, minor),
        decreases nodes.len() - i,
    {
        if let Some(dev) = nodes[i] {
            if device_major(dev) == major && device_minor(dev) == minor {
                return Some(i);
            }
        }
        i = i + 1;
    }
    None
}

/// The path of the HID gadget node with index `index`.
pub open spec fn hidg_path_text(index: nat) -> Seq<char> {
    "/dev/hidg"@ + decimal(index)
}

/// Builds the path `/dev/hidg<index>`.
pub fn hidg_path(index: usize) -> (path: String)
    ensures
        path@ == hidg_path_text(index as nat),
{
    let mut path = String::from_str("/dev/hidg");
    append_decimal(&mut path, index as u64);
    path
}

/// No examined node carries the device numbers `major:minor`.
#[derive(Debug, Clone, Copy, PartialEq, Eq)]
pub struct DeviceNotFound {
    pub major: u32,
    pub minor: u32,
}

/// The text of a [`DeviceNotFound`] error.
pub open spec fn not_found_text(major: u32, minor: u32) -> Seq<char> {
    "未找到设备 "@ + decimal(major as nat) + ":"@ + decimal(minor as nat)
}

impl DeviceNotFound {
    /// The error message: the device numbers that were looked for.
    pub fn message(&self) -> (m: String)
        ensures
            m@ == not_found_text(self.major, self.minor),
    {
        let mut m = String::from_str("未找到设备 ");
        append_decimal(&mut m, self.major as u64);
        m.append(":");
        append_decimal(&mut m, self.minor as u64);
        m
    }
}

/// The path of the first node whose device numbers are `major:minor`, or the
/// error that names them when no node matches.
pub fn locate_hidg_node(nodes: &Vec<Option<u64>>, major: u32, minor: u32) -> (res: Result<
    String,
    DeviceNotFound,
>)
    ensures
        res matches Ok(path) ==> exists|i: int|
            #![trigger node_matches(nodes@, i, major, minor)]
            node_matches(nodes@, i, major, minor) && (forall|j: int|
                0 <= j < i ==> !node_matches(nodes@, j, major, minor)) && path@ == hidg_path_text(
                i as nat,
            ),
        res matches Err(e) ==> e.major == major && e.minor == minor && forall|j: int|
            !node_matches(nodes@, j, major, minor),
{
    match select_hidg_node(nodes, major, minor) {
        Some(i) => Ok(hidg_path(i)),
        None => Err(DeviceNotFound { major, minor }),
    }
}

} // verus!
