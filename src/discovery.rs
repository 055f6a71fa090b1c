use vstd::prelude::*;

verus! {

/// What the host reports of one serial port.
pub struct PortInfo {
    /// The port's path, as bytes.
    pub name: Vec<u8>,
    /// Whether the port sits on USB.
    pub is_usb: bool,
    /// The manufacturer string the USB device advertises, as bytes, if any.
    pub manufacturer: Option<Vec<u8>>,
}

/// Why no single device could be picked.
#[derive(Clone, Copy, Debug, PartialEq, Eq, Structural)]
pub enum DiscoveryError {
    NotFound,
    Ambiguous,
}

/// The manufacturer string of the target runtime's devices, "MicroPython".
pub open spec fn vendor() -> Seq<u8> {
    seq![77u8, 105, 99, 114, 111, 80, 121, 116, 104, 111, 110]
}

/// The prefix of the second, duplicate name that macOS gives each USB serial
/// device, "/dev/cu.".
pub open spec fn alias_prefix() -> Seq<u8> {
    seq![47u8, 100, 101, 118, 47, 99, 117, 46]
}

pub open spec fn starts_with(s: Seq<u8>, prefix: Seq<u8>) -> bool {
    s.len() >= prefix.len() && s.take(prefix.len() as int) == prefix
}

/// Whether a port plausibly hosts the target runtime.
pub open spec fn is_target(p: PortInfo) -> bool {
    &&& !starts_with(p.name@, alias_prefix())
    &&& p.is_usb
    &&& p.manufacturer matches Some(m) && m@ == vendor()
}

/// Indices below `n` of the ports that plausibly host the target runtime, in order.
pub open spec fn target_indices(ports: Seq<PortInfo>, n: int) -> Seq<usize>
    decreases n,
{
    if n <= 0 {
        Seq::empty()
    } else if is_target(ports[n - 1]) {
        target_indices(ports, n - 1).push((n - 1) as usize)
    } else {
        target_indices(ports, n - 1)
    }
}

fn vendor_bytes() -> (v: Vec<u8>)
    ensures
        v@ == vendor(),
{
    let v: Vec<u8> = vec![77u8, 105, 99, 114, 111, 80, 121, 116, 104, 111, 110];
    assert(v@ =~= vendor());
    v
}

fn alias_prefix_bytes() -> (v: Vec<u8>)
    ensures
        v@ == alias_prefix(),
{
    let v: Vec<u8> = vec![47u8, 100, 101, 118, 47, 99, 117, 46];
    assert(v@ =~= alias_prefix());
    v
}

/// Whether `s` begins with `prefix`.
pub fn has_prefix(s: &Vec<u8>, prefix: &Vec<u8>) -> (r: bool)
    ensures
        r == starts_with(s@, prefix@),
{
    if s.len() < prefix.len() {
        return false;
    }
    let mut i: usize = 0;
    while i < prefix.len()
        invariant
            s.len() >= prefix.len(),
            i <= prefix.len(),
            forall|j: int| 0 <= j < i ==> s@[j] == prefix@[j],
        decreases prefix.len() - i,
    {
        if s[i] != prefix[i] {
            assert(s@.take(prefix.len() as int)[i as int] != prefix@[i as int]);
            return false;
        }
        i = i + 1;
    }
    assert(s@.take(prefix.len() as int) =~= prefix@);
    true
}

/// Whether `a` and `b` hold the same bytes.
pub fn same_bytes(a: &Vec<u8>, b: &Vec<u8>) -> (r: bool)
    ensures
        r == (a@ == b@),
{
    if a.len() != b.len() {
        return false;
    }
    let mut i: usize = 0;
    while i < a.len()
        invariant
            a.len() == b.len(),
            i <= a.len(),
            forall|j: int| 0 <= j < i ==> a@[j] == b@[j],
        decreases a.len() - i,
    {
        if a[i] != b[i] {
            return false;
        }
        i = i + 1;
    }
    assert(a@ =~= b@);
    true
}

/// Whether one port plausibly hosts the target runtime: a USB port under its
/// primary name whose manufacturer string is exactly the target vendor's.
pub fn is_target_port(p: &PortInfo) -> (r: bool)
    ensures
        r == is_target(*p),
{
    if has_prefix(&p.name, &alias_prefix_bytes()) || !p.is_usb {
        return false;
    }
    match &p.manufacturer {
        Some(m) => same_bytes(m, &vendor_bytes()),
        None => false,
    }
}

/// The indices, in order, of the ports that plausibly host the target runtime.
pub fn target_ports(ports: &Vec<PortInfo>) -> (r: Vec<usize>)
    ensures
        r@ == target_indices(ports@, ports@.len() as int),
{
    let mut r: Vec<usize> = Vec::new();
    let mut i: usize = 0;
    while i < ports.len()
        invariant
            i <= ports.len(),
            r@ == target_indices(ports@, i as int),
        decreases ports.len() - i,
    {
        if is_target_port(&ports[i]) {
            r.push(i);
        }
        i = i + 1;
    }
    r
}

/// Picks the one device found; none or several are errors, for the caller to
/// resolve.
pub fn pick_device(found: &Vec<usize>) -> (r: Result<usize, DiscoveryError>)
    ensures
        found@.len() == 0 <==> r == Err::<usize, DiscoveryError>(DiscoveryError::NotFound),
        found@.len() == 1 <==> r == Ok::<usize, DiscoveryError>(found@[0]),
        found@.len() > 1 <==> r == Err::<usize, DiscoveryError>(DiscoveryError::Ambiguous),
{
    if found.len() == 0 {
        Err(DiscoveryError::NotFound)
    } else if found.len() == 1 {
        Ok(found[0])
    } else {
        Err(DiscoveryError::Ambiguous)
    }
}

/// Every index reported stands for a port under its primary name whose
/// manufacturer string is exactly the target vendor's, and every such port is
/// reported, once and in order.
pub proof fn lemma_targets_exact(ports: Seq<PortInfo>, n: int)
    requires
        0 <= n <= ports.len(),
        ports.len() <= usize::MAX,
    ensures
        forall|k: int|
            0 <= k < target_indices(ports, n).len() ==> {
                let i = #[trigger] target_indices(ports, n)[k] as int;
                &&& 0 <= i < n
                &&& !starts_with(ports[i].name@, alias_prefix())
                &&& ports[i].manufacturer matches Some(m) && m@ == vendor()
                &&& ports[i].is_usb
            },
        forall|k1: int, k2: int|
            0 <= k1 < k2 < target_indices(ports, n).len() ==> target_indices(ports, n)[k1]
                < target_indices(ports, n)[k2],
        forall|i: int|
            0 <= i < n && is_target(#[trigger] ports[i]) ==> target_indices(ports, n).contains(
                i as usize,
            ),
    decreases n,
{
    if n > 0 {
        lemma_targets_exact(ports, n - 1);
        let prev = target_indices(ports, n - 1);
        let cur = target_indices(ports, n);
        if is_target(ports[n - 1]) {
            assert(cur == prev.push((n - 1) as usize));
            assert forall|k: int| 0 <= k < prev.len() implies cur[k] == prev[k] by {}
            assert(cur[prev.len() as int] == (n - 1) as usize);
            assert forall|i: int| 0 <= i < n && is_target(#[trigger] ports[i]) implies cur.contains(
                i as usize,
            ) by {
                if i < n - 1 {
                    let k = choose|k: int| 0 <= k < prev.len() && prev[k] == i as usize;
                    assert(cur[k] == i as usize);
                } else {
                    assert(cur[prev.len() as int] == i as usize);
                }
            }
        } else {
            assert(cur == prev);
        }
    }
}

} // verus!
