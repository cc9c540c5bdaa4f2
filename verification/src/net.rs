//! Network-device discovery: the device-tree walk that finds virtio MMIO
//! devices and reads their register windows, and the page arithmetic of the
//! device driver.
use vstd::prelude::*;
use device_tree::util::SliceRead;
use device_tree::{DeviceTree, Node};

verus! {

/// Errors of the network device driver.
#[derive(Clone, Copy, Debug, PartialEq, Eq, Structural)]
pub enum Error {
    /// The buffer is too small.
    BufferTooSmall,
    /// The device is not ready.
    NotReady,
    /// The queue is already in use.
    AlreadyUsed,
    /// Invalid parameter.
    InvalidParam,
    /// Failed to alloc DMA memory.
    DmaError,
    /// I/O Error
    IoError,
}

/// Size of a page for DMA buffers.
pub const PAGE_SIZE: usize = 0x1000;

/// The first page boundary strictly above `size`.
pub fn align_up(size: usize) -> (r: usize)
    requires
        size + PAGE_SIZE <= usize::MAX,
    ensures
        r == ((size + PAGE_SIZE) / (PAGE_SIZE as int)) * PAGE_SIZE,
        r % PAGE_SIZE == 0,
        size < r <= size + PAGE_SIZE,
{
    let t = size + PAGE_SIZE;
    let r = t & !(PAGE_SIZE - 1);
    assert(t & !4095usize == t - t % 4096) by (bit_vector);
    assert(t - t % 4096 == (t / 4096) * 4096) by (nonlinear_arith);
    assert(((t / 4096) * 4096) % 4096 == 0) by (nonlinear_arith);
    r
}

/// The physical addresses that releasing `pages` DMA pages at `paddr` hands
/// back to the frame allocator, one by one: from `paddr` up to, not
/// including, `paddr + pages * PAGE_SIZE`.
pub fn virtio_dma_dealloc_range(paddr: usize, pages: usize) -> (r: (usize, usize))
    requires
        paddr + pages * PAGE_SIZE <= usize::MAX,
    ensures
        r.0 == paddr,
        r.1 == paddr + pages * PAGE_SIZE,
{
    (paddr, paddr + pages * PAGE_SIZE)
}

/// The big-endian value of the eight bytes of `data` from `pos`.
pub open spec fn be_u64_spec(data: Seq<u8>, pos: int) -> int {
    data[pos] * 0x100000000000000 + data[pos + 1] * 0x1000000000000 + data[pos + 2]
        * 0x10000000000 + data[pos + 3] * 0x100000000 + data[pos + 4] * 0x1000000 + data[pos + 5]
        * 0x10000 + data[pos + 6] * 0x100 + data[pos + 7]
}

/// `SliceRead::read_be_u64` of the `device_tree` crate: the big-endian
/// `u64` at `pos`, or an error when fewer than eight bytes remain from
/// `pos`.  The contract states exactly that: `Some` of the value when
/// `pos + 8 <= data.len()`, `None` otherwise.
#[verifier::external_body]
fn read_be_u64(data: &[u8], pos: usize) -> (r: Option<u64>)
    requires
        pos + 8 <= usize::MAX,
    ensures
        r is Some <==> pos + 8 <= data@.len(),
        r matches Some(v) ==> v == be_u64_spec(data@, pos as int),
{
    data.read_be_u64(pos).ok()
}

/// The register window that a virtio MMIO node's `reg` property describes:
/// its physical address and its size, the first two big-endian `u64`s.
/// `None` when the property holds fewer than sixteen bytes.
pub fn virtio_probe(reg: &[u8]) -> (r: Option<(u64, u64)>)
    ensures
        r is Some <==> reg@.len() >= 16,
        r matches Some((paddr, size)) ==> paddr == be_u64_spec(reg@, 0) && size == be_u64_spec(
            reg@,
            8,
        ),
{
    let paddr = match read_be_u64(reg, 0) {
        Some(v) => v,
        None => return None,
    };
    let size = match read_be_u64(reg, 8) {
        Some(v) => v,
        None => return None,
    };
    Some((paddr, size))
}

/// The bytes of the `compatible` property of a virtio MMIO node:
/// "virtio,mmio" and its terminating zero.
pub open spec fn virtio_mmio_compatible() -> Seq<u8> {
    seq![118u8, 105, 114, 116, 105, 111, 44, 109, 109, 105, 111, 0]
}

/// Whether the raw `compatible` property `raw` reads as the string
/// "virtio,mmio".
pub fn is_virtio_mmio(raw: &[u8]) -> (r: bool)
    ensures
        r == (raw@ == virtio_mmio_compatible()),
{
    let expected: [u8; 12] = [118, 105, 114, 116, 105, 111, 44, 109, 109, 105, 111, 0];
    if raw.len() != 12 {
        return false;
    }
    let mut i: usize = 0;
    while i < 12
        invariant
            i <= 12,
            raw@.len() == 12,
            expected@ == virtio_mmio_compatible(),
            forall|j: int| 0 <= j < i ==> raw@[j] == expected@[j],
        decreases 12 - i,
    {
        if raw[i] != expected[i] {
            return false;
        }
        i = i + 1;
    }
    assert(raw@ =~= virtio_mmio_compatible());
    true
}

/// A device-tree node, as far as device discovery reads it: the raw bytes
/// of its `compatible` and `reg` properties, where it has them, and its
/// children in order.
pub struct DtNode {
    pub compatible: Option<Vec<u8>>,
    pub reg: Option<Vec<u8>>,
    pub children: Vec<DtNode>,
}

/// Whether node `n` itself is a virtio MMIO device with a `reg` property.
pub open spec fn is_probed(n: DtNode) -> bool {
    &&& n.compatible matches Some(c) && c@ == virtio_mmio_compatible()
    &&& n.reg is Some
}

/// The register window of node `n` itself, in a sequence of zero or one.
pub open spec fn own_window(n: DtNode) -> Seq<(u64, u64)> {
    if is_probed(n) {
        let reg = n.reg.unwrap()@;
        seq![(be_u64_spec(reg, 0) as u64, be_u64_spec(reg, 8) as u64)]
    } else {
        Seq::empty()
    }
}

/// The register windows of the virtio MMIO devices of the trees in `f`, in
/// the order of a depth-first walk that visits a node before its children.
pub open spec fn forest_windows(f: Seq<DtNode>) -> Seq<(u64, u64)>
    decreases f,
{
    if f.len() == 0 {
        Seq::empty()
    } else {
        proof {
            assert(decreases_to!(f => f[0]));
            assert(decreases_to!(f[0] => f[0].children));
            assert(decreases_to!(f[0].children => f[0].children@));
        }
        own_window(f[0]) + forest_windows(f[0].children@) + forest_windows(f.subrange(1, f.len() as int))
    }
}

/// The register windows of the virtio MMIO devices in the tree rooted at `n`.
pub open spec fn tree_windows(n: DtNode) -> Seq<(u64, u64)> {
    forest_windows(seq![n])
}

/// Whether every virtio MMIO node of the trees in `f` that has a `reg`
/// property has at least sixteen bytes in it.
pub open spec fn forest_well_formed(f: Seq<DtNode>) -> bool
    decreases f,
{
    if f.len() == 0 {
        true
    } else {
        proof {
            assert(decreases_to!(f => f[0]));
            assert(decreases_to!(f[0] => f[0].children));
            assert(decreases_to!(f[0].children => f[0].children@));
        }
        (is_probed(f[0]) ==> f[0].reg.unwrap()@.len() >= 16) && forest_well_formed(f[0].children@)
            && forest_well_formed(f.subrange(1, f.len() as int))
    }
}

/// Whether node `n` itself stops the walk: a virtio MMIO device whose `reg`
/// property is too short to hold a window.
pub open spec fn stops_walk(n: DtNode) -> bool {
    is_probed(n) && n.reg.unwrap()@.len() < 16
}

/// The walk of the trees in `f`, a node before its children: the windows it
/// finds up to the first node that stops it, and whether it got through
/// without such a node.
pub open spec fn forest_walk(f: Seq<DtNode>) -> (Seq<(u64, u64)>, bool)
    decreases f,
{
    if f.len() == 0 {
        (Seq::empty(), true)
    } else if stops_walk(f[0]) {
        (Seq::empty(), false)
    } else {
        proof {
            assert(decreases_to!(f => f[0]));
            assert(decreases_to!(f[0] => f[0].children));
            assert(decreases_to!(f[0].children => f[0].children@));
        }
        let head = forest_walk(f[0].children@);
        if !head.1 {
            (own_window(f[0]) + head.0, false)
        } else {
            let rest = forest_walk(f.subrange(1, f.len() as int));
            (own_window(f[0]) + head.0 + rest.0, rest.1)
        }
    }
}

proof fn lemma_forest_walk_agrees(f: Seq<DtNode>)
    ensures
        forest_walk(f).1 == forest_well_formed(f),
        forest_walk(f).1 ==> forest_walk(f).0 == forest_windows(f),
    decreases f,
{
    if f.len() > 0 {
        assert(decreases_to!(f => f[0]));
        assert(decreases_to!(f[0] => f[0].children));
        assert(decreases_to!(f[0].children => f[0].children@));
        lemma_forest_walk_agrees(f[0].children@);
        lemma_forest_walk_agrees(f.subrange(1, f.len() as int));
    }
}

proof fn lemma_forest_walk_append(a: Seq<DtNode>, b: Seq<DtNode>)
    ensures
        forest_walk(a + b) == (if forest_walk(a).1 {
            (forest_walk(a).0 + forest_walk(b).0, forest_walk(b).1)
        } else {
            forest_walk(a)
        }),
    decreases a.len(),
{
    if a.len() == 0 {
        assert(a + b =~= b);
        assert(Seq::<(u64, u64)>::empty() + forest_walk(b).0 =~= forest_walk(b).0);
    } else {
        let ab = a + b;
        assert(ab[0] == a[0]);
        assert(ab.subrange(1, ab.len() as int) =~= a.subrange(1, a.len() as int) + b);
        lemma_forest_walk_append(a.subrange(1, a.len() as int), b);
        let head = forest_walk(a[0].children@);
        let ra = forest_walk(a.subrange(1, a.len() as int));
        if !stops_walk(a[0]) && head.1 && ra.1 {
            assert(own_window(a[0]) + head.0 + (ra.0 + forest_walk(b).0) =~= own_window(a[0]) + head.0
                + ra.0 + forest_walk(b).0);
        }
    }
}

proof fn lemma_single_walk(n: DtNode)
    ensures
        forest_walk(seq![n]) == (if stops_walk(n) {
            (Seq::<(u64, u64)>::empty(), false)
        } else {
            (own_window(n) + forest_walk(n.children@).0, forest_walk(n.children@).1)
        }),
{
    let f = seq![n];
    assert(f[0] == n);
    assert(f.subrange(1, 1) =~= Seq::<DtNode>::empty());
    assert(forest_walk(f.subrange(1, 1)) == (Seq::<(u64, u64)>::empty(), true));
    let head = forest_walk(n.children@);
    assert(own_window(n) + head.0 + Seq::<(u64, u64)>::empty() =~= own_window(n) + head.0);
}

/// Walks the device tree rooted at `dt` and appends to `out` the register
/// window, physical address and size, of every virtio MMIO device, a node
/// before its children and children in order.  Returns false, and stops,
/// at a virtio MMIO node whose `reg` property is too short to hold a
/// window; the kernel stops there, and `out` then holds the windows of the
/// devices the walk passed before it.
pub fn walk_dt_node(dt: &DtNode, out: &mut Vec<(u64, u64)>) -> (ok: bool)
    ensures
        ok == forest_well_formed(seq![*dt]),
        ok ==> final(out)@ == old(out)@ + tree_windows(*dt),
        ok == forest_walk(seq![*dt]).1,
        final(out)@ == old(out)@ + forest_walk(seq![*dt]).0,
    decreases *dt,
{
    proof {
        lemma_single_walk(*dt);
        lemma_forest_walk_agrees(seq![*dt]);
    }
    let mut probed = false;
    if let Some(c) = &dt.compatible {
        if is_virtio_mmio(c.as_slice()) {
            if let Some(reg) = &dt.reg {
                probed = true;
                match virtio_probe(reg.as_slice()) {
                    Some(w) => {
                        out.push(w);
                    },
                    None => {
                        assert(out@ =~= old(out)@ + Seq::<(u64, u64)>::empty());
                        return false;
                    },
                }
            }
        }
    }
    assert(probed == is_probed(*dt));
    assert(!stops_walk(*dt));
    assert(out@ == old(out)@ + own_window(*dt));
    let ghost start = out@;
    let n = dt.children.len();
    let mut i: usize = 0;
    while i < n
        invariant
            n == dt.children@.len(),
            i <= n,
            !stops_walk(*dt),
            forest_walk(dt.children@.take(i as int)).1,
            out@ == start + forest_walk(dt.children@.take(i as int)).0,
            start == old(out)@ + own_window(*dt),
        decreases n - i,
    {
        let ghost before = out@;
        proof {
            let cs = dt.children@;
            assert(cs.take(i as int + 1) =~= cs.take(i as int) + seq![cs[i as int]]);
            assert(cs =~= cs.take(i as int + 1) + cs.subrange(i as int + 1, cs.len() as int));
            lemma_forest_walk_append(cs.take(i as int + 1), cs.subrange(i as int + 1, cs.len() as int));
            lemma_forest_walk_append(cs.take(i as int), seq![cs[i as int]]);
            assert(decreases_to!(*dt => dt.children));
            assert(decreases_to!(dt.children => dt.children@));
            assert(decreases_to!(dt.children@ => dt.children@[i as int]));
        }
        let child_ok = walk_dt_node(&dt.children[i], out);
        proof {
            let cs = dt.children@;
            assert(start + forest_walk(cs.take(i as int)).0 + forest_walk(seq![cs[i as int]]).0 =~= start
                + (forest_walk(cs.take(i as int)).0 + forest_walk(seq![cs[i as int]]).0));
            assert(old(out)@ + own_window(*dt) + forest_walk(cs).0 =~= old(out)@ + (own_window(*dt)
                + forest_walk(cs).0));
        }
        if !child_ok {
            proof {
                lemma_forest_walk_agrees(seq![*dt]);
            }
            return false;
        }
        i = i + 1;
    }
    proof {
        assert(dt.children@.take(n as int) =~= dt.children@);
        assert(old(out)@ + own_window(*dt) + forest_walk(dt.children@).0 =~= old(out)@ + (own_window(*dt)
            + forest_walk(dt.children@).0));
    }
    true
}

// ---------------------------------------------------------------------------
// Discovery from the flattened device tree
// ---------------------------------------------------------------------------

/// The magic number that opens a flattened device tree.
pub const DEVICE_TREE_MAGIC: u32 = 0xd00dfeed;

#[verifier::external_type_specification]
#[verifier::external_body]
pub struct ExNode(Node);

/// The tree that `DeviceTree::load` of the `device_tree` crate parses from
/// `data`, as device discovery reads it; `None` when it rejects `data`.
pub uninterp spec fn device_tree_spec(data: Seq<u8>) -> Option<DtNode>;

/// Converts a parsed node, and its children, into the form discovery reads:
/// the raw `compatible` and `reg` properties (`Node::prop_raw`) and the
/// children in order.  Nothing is stated of it on its own; it serves
/// `load_device_tree`, whose result it builds.
#[verifier::external_body]
fn node_to_dt(n: &Node) -> DtNode {
    DtNode {
        compatible: n.prop_raw("compatible").cloned(),
        reg: n.prop_raw("reg").cloned(),
        children: n.children.iter().map(node_to_dt).collect(),
    }
}

/// `DeviceTree::load` of the `device_tree` crate on `data`, its root node
/// converted; `None` when the crate rejects the data.  The parse takes pages
/// to state and depends on `data` alone: its result is named
/// `device_tree_spec`.
#[verifier::external_body]
fn load_device_tree(data: &[u8]) -> (r: Option<DtNode>)
    ensures
        r == device_tree_spec(data@),
{
    DeviceTree::load(data).ok().map(|dt| node_to_dt(&dt.root))
}

/// The big-endian value of the four bytes of `data` from `pos`.
pub open spec fn be_u32_spec(data: Seq<u8>, pos: int) -> int {
    data[pos] * 0x1000000 + data[pos + 1] * 0x10000 + data[pos + 2] * 0x100 + data[pos + 3]
}

/// Whether `dtb` opens with the device-tree magic number.
pub open spec fn has_dtb_magic(dtb: Seq<u8>) -> bool {
    dtb.len() >= 8 && be_u32_spec(dtb, 0) == DEVICE_TREE_MAGIC
}

/// Whether `dtb` opens with the device-tree magic number.
pub fn is_dtb(dtb: &[u8]) -> (r: bool)
    ensures
        r == has_dtb_magic(dtb@),
{
    if dtb.len() < 8 {
        return false;
    }
    let magic: u32 = dtb[0] as u32 * 0x1000000 + dtb[1] as u32 * 0x10000 + dtb[2] as u32 * 0x100
        + dtb[3] as u32;
    magic == DEVICE_TREE_MAGIC
}

/// The bytes of the device tree at the start of `dtb`, as long as its header
/// says, when that many bytes are there.
pub open spec fn dtb_data(dtb: Seq<u8>) -> Option<Seq<u8>> {
    if has_dtb_magic(dtb) && be_u32_spec(dtb, 4) <= dtb.len() {
        Some(dtb.subrange(0, be_u32_spec(dtb, 4)))
    } else {
        None
    }
}

/// Finds the virtio MMIO devices of the flattened device tree at the start
/// of `dtb` and appends their register windows to `out`, in the order of
/// [`walk_dt_node`].  Without the magic number, with a size past the end of
/// `dtb`, or when the tree does not parse, nothing is found.  Returns false
/// where the walk stops at a virtio node whose `reg` is too short (the
/// kernel stops there); the windows found before it are appended.
pub fn dtb_windows(dtb: &[u8], out: &mut Vec<(u64, u64)>) -> (ok: bool)
    ensures
        dtb_data(dtb@) is None ==> ok && final(out)@ == old(out)@,
        dtb_data(dtb@) matches Some(data) ==> match device_tree_spec(data) {
            None => ok && final(out)@ == old(out)@,
            Some(root) => {
                &&& ok == forest_well_formed(seq![root])
                &&& ok ==> final(out)@ == old(out)@ + tree_windows(root)
                &&& final(out)@ == old(out)@ + forest_walk(seq![root]).0
            },
        },
{
    if !is_dtb(dtb) {
        return true;
    }
    let size: u32 = dtb[4] as u32 * 0x1000000 + dtb[5] as u32 * 0x10000 + dtb[6] as u32 * 0x100
        + dtb[7] as u32;
    if size as usize > dtb.len() {
        return true;
    }
    let data = vstd::slice::slice_subrange(dtb, 0, size as usize);
    match load_device_tree(data) {
        None => true,
        Some(root) => walk_dt_node(&root, out),
    }
}

} // verus!
