//! A snapshot of the USB device tree, and the search for a deck's raw node.

use vstd::prelude::*;
use crate::text::{contains, has_substring, starts_with};

verus! {

/// Root of the USB device tree.
pub const USB_DEVICES_ROOT: &'static str = "/sys/bus/usb/devices/";

/// Names of the attributes of a node that the enumerator reads.
pub const ATTR_VENDOR_ID: &'static str = "idVendor";

pub const ATTR_PRODUCT_ID: &'static str = "idProduct";

pub const ATTR_MANUFACTURER: &'static str = "manufacturer";

pub const ATTR_PRODUCT: &'static str = "product";

pub const ATTR_SERIAL: &'static str = "serial";

/// How many levels below a device node the search for its raw node descends.
pub const MAX_SEARCH_DEPTH: usize = 16;

/// What the name of a raw node begins with.
pub const RAW_NODE_PREFIX: &'static str = "hidraw";

/// What the path of a raw node holds.
pub const RAW_NODE_DIR: &'static str = "/hidraw/";

/// One entry of a directory below a device node.
#[derive(Debug)]
pub struct DirNode {
    /// The entry's file name.
    pub name: String,
    /// The entry's full path.
    pub path: String,
    /// Whether the entry is a directory.
    pub is_dir: bool,
    /// The directory's entries, in the order they were listed; empty for a
    /// directory that could not be read.
    pub children: Vec<DirNode>,
}

/// One node under the root of the device tree. An attribute holds what was
/// read of its file, and is `None` when the file is missing or could not be
/// read.
#[derive(Debug)]
pub struct UsbNode {
    /// The node's resolved path.
    pub path: String,
    pub vendor_id: Option<String>,
    pub product_id: Option<String>,
    pub manufacturer: Option<String>,
    pub product: Option<String>,
    pub serial: Option<String>,
    /// The entries of the node's directory, in the order they were listed.
    pub children: Vec<DirNode>,
}

/// The device tree as it was read: `None` when its root is absent, else the
/// nodes under the root in the order they were listed.
#[derive(Debug)]
pub struct DeviceTree {
    pub nodes: Option<Vec<UsbNode>>,
}

/// An entry is a raw node when its name and its path follow the raw-HID
/// naming convention.
pub open spec fn is_raw_node(entry: DirNode) -> bool {
    RAW_NODE_PREFIX@.is_prefix_of(entry.name@) && has_substring(entry.path@, RAW_NODE_DIR@)
}

/// The first raw node of a depth-first walk over `entries` that looks at each
/// entry before the entries below it and descends `depth` levels at most.
pub open spec fn first_raw_node(entries: Seq<DirNode>, depth: nat) -> Option<DirNode>
    decreases depth, entries.len(),
{
    if entries.len() == 0 {
        None
    } else if is_raw_node(entries[0]) {
        Some(entries[0])
    } else {
        let below = if entries[0].is_dir && depth > 0 {
            first_raw_node(entries[0].children@, (depth - 1) as nat)
        } else {
            None
        };
        if below is Some {
            below
        } else {
            first_raw_node(entries.drop_first(), depth)
        }
    }
}

/// `target` is one of `entries` or lies below one of them that is a
/// directory, `depth` levels down at most.
pub open spec fn within_reach(entries: Seq<DirNode>, depth: nat, target: DirNode) -> bool
    decreases depth, entries.len(),
{
    entries.len() > 0 && {
        ||| entries[0] == target
        ||| entries[0].is_dir && depth > 0 && within_reach(
            entries[0].children@,
            (depth - 1) as nat,
            target,
        )
        ||| within_reach(entries.drop_first(), depth, target)
    }
}

/// What the search finds is a raw node within reach, and it finds nothing
/// only where no entry within reach is a raw node.
pub proof fn lemma_first_raw_node(entries: Seq<DirNode>, depth: nat)
    ensures
        match first_raw_node(entries, depth) {
            Some(found) => is_raw_node(found) && within_reach(entries, depth, found),
            None => forall|target: DirNode|
                within_reach(entries, depth, target) ==> !is_raw_node(target),
        },
    decreases depth, entries.len(),
{
    if entries.len() > 0 && !is_raw_node(entries[0]) {
        if entries[0].is_dir && depth > 0 {
            lemma_first_raw_node(entries[0].children@, (depth - 1) as nat);
        }
        lemma_first_raw_node(entries.drop_first(), depth);
    }
}

/// A directory whose entries from `next` on are still to be looked at.
struct Frame<'a> {
    entries: &'a Vec<DirNode>,
    next: usize,
    depth: usize,
}

impl<'a> Frame<'a> {
    spec fn rest(self) -> Seq<DirNode> {
        self.entries@.skip(self.next as int)
    }
}

/// What the walk finds once it goes on from a stack of frames, the last on top.
spec fn resume(frames: Seq<Frame>) -> Option<DirNode>
    decreases frames.len(),
{
    if frames.len() == 0 {
        None
    } else {
        let here = first_raw_node(frames.last().rest(), frames.last().depth as nat);
        if here is Some {
            here
        } else {
            resume(frames.drop_last())
        }
    }
}

/// Twice the number of entries a walk over `entries` can reach.
spec fn weight(entries: Seq<DirNode>, depth: nat) -> nat
    decreases depth, entries.len(),
{
    if entries.len() == 0 {
        0
    } else {
        let below = if entries[0].is_dir && depth > 0 {
            weight(entries[0].children@, (depth - 1) as nat)
        } else {
            0
        };
        2 + below + weight(entries.drop_first(), depth)
    }
}

/// The work a stack of frames still holds.
spec fn pending(frames: Seq<Frame>) -> nat
    decreases frames.len(),
{
    if frames.len() == 0 {
        0
    } else {
        1 + weight(frames.last().rest(), frames.last().depth as nat) + pending(
            frames.drop_last(),
        )
    }
}

/// Pushing a frame puts its entries before what the stack held.
proof fn lemma_push(frames: Seq<Frame>, top: Frame)
    ensures
        resume(frames.push(top)) == (if first_raw_node(top.rest(), top.depth as nat) is Some {
            first_raw_node(top.rest(), top.depth as nat)
        } else {
            resume(frames)
        }),
        pending(frames.push(top)) == 1 + weight(top.rest(), top.depth as nat) + pending(frames),
{
    assert(frames.push(top).drop_last() =~= frames);
    assert(frames.push(top).last() == top);
}

/// Whether the entry follows the raw-HID naming convention.
pub fn is_raw(entry: &DirNode) -> (yes: bool)
    ensures
        yes == is_raw_node(*entry),
{
    starts_with(entry.name.as_str(), RAW_NODE_PREFIX) && contains(
        entry.path.as_str(),
        RAW_NODE_DIR,
    )
}

/// Searches the entries of a device node for the raw node, depth first and
/// without recursion: an entry is looked at before the entries below it, a
/// directory's entries are visited in the order they were listed, and
/// entries more than [`MAX_SEARCH_DEPTH`] levels down are not visited. The
/// first raw node met is the result.
pub fn find_dev_path<'a>(entries: &'a Vec<DirNode>) -> (found: Option<&'a DirNode>)
    ensures
        found matches Some(entry) ==> first_raw_node(entries@, MAX_SEARCH_DEPTH as nat) == Some(
            *entry,
        ),
        found is None ==> first_raw_node(entries@, MAX_SEARCH_DEPTH as nat) is None,
{
    let mut stack: Vec<Frame<'a>> = Vec::new();
    let root = Frame { entries, next: 0, depth: MAX_SEARCH_DEPTH };
    proof {
        lemma_push(stack@, root);
        assert(root.rest() =~= entries@);
    }
    stack.push(root);
    while stack.len() > 0
        invariant
            resume(stack@) == first_raw_node(entries@, MAX_SEARCH_DEPTH as nat),
            forall|i: int|
                0 <= i < stack@.len() ==> (#[trigger] stack@[i]).next <= stack@[i].entries@.len(),
        decreases pending(stack@),
    {
        let ghost before = stack@;
        let top = stack.pop().unwrap();
        let ghost below = stack@;
        proof {
            assert(before =~= below.push(top));
            lemma_push(below, top);
        }
        if top.next < top.entries.len() {
            let list: &'a Vec<DirNode> = top.entries;
            let entry: &'a DirNode = &list[top.next];
            let rest = Frame { entries: list, next: top.next + 1, depth: top.depth };
            proof {
                assert(top.rest().len() > 0);
                assert(top.rest()[0] == *entry);
                assert(top.rest().drop_first() =~= rest.rest());
            }
            if is_raw(entry) {
                return Some(entry);
            }
            proof {
                lemma_push(below, rest);
            }
            stack.push(rest);
            if entry.is_dir && top.depth > 0 {
                let down = Frame { entries: &entry.children, next: 0, depth: top.depth - 1 };
                proof {
                    assert(down.rest() =~= entry.children@);
                    lemma_push(stack@, down);
                }
                stack.push(down);
            }
        } else {
            assert(top.rest().len() == 0);
        }
    }
    None
}

} // verus!
