use vstd::prelude::*;

verus! {

/// What is known of one serial port when choosing a device: its name, and for
/// a USB port its product description, if it reports one.
#[derive(Debug, Clone, PartialEq, Eq)]
pub struct PortCandidate {
    pub name: Vec<u8>,
    pub is_usb: bool,
    pub product: Option<Vec<u8>>,
}

/// How a device is looked for: by USB product description (exactly, or as a
/// prefix of it), or by port name.
#[derive(Debug, Clone, Copy, PartialEq, Eq, Structural)]
pub struct DeviceQuery {
    pub by_description: bool,
    pub prefix: bool,
}

/// Whether port `p` is the device `device`: a USB port is chosen only by its
/// product description, any other port only by its name.
pub open spec fn port_matches_spec(p: PortCandidate, device: Seq<u8>, q: DeviceQuery) -> bool {
    if p.is_usb {
        q.by_description && match p.product {
            Some(prod) => if q.prefix {
                device.is_prefix_of(prod@)
            } else {
                prod@ == device
            },
            None => false,
        }
    } else {
        !q.by_description && p.name@ == device
    }
}

/// Number of ports among the first `n` of `ports` that are the device.
pub open spec fn match_count(ports: Seq<PortCandidate>, device: Seq<u8>, q: DeviceQuery, n: int) -> nat
    decreases n,
{
    if n <= 0 {
        0
    } else {
        match_count(ports, device, q, n - 1) + if port_matches_spec(ports[n - 1], device, q) {
            1nat
        } else {
            0nat
        }
    }
}

fn bytes_equal(a: &[u8], b: &[u8]) -> (r: bool)
    ensures
        r == (a@ == b@),
{
    if a.len() != b.len() {
        return false;
    }
    let r = starts_with(a, b);
    proof {
        if r {
            assert(a@ =~= b@);
        }
    }
    r
}

fn starts_with(s: &[u8], prefix: &[u8]) -> (r: bool)
    ensures
        r == prefix@.is_prefix_of(s@),
{
    if prefix.len() > s.len() {
        return false;
    }
    let mut i: usize = 0;
    while i < prefix.len()
        invariant
            prefix@.len() <= s@.len(),
            i <= prefix@.len(),
            forall|k: int| 0 <= k < i ==> prefix@[k] == s@[k],
        decreases prefix@.len() - i,
    {
        if prefix[i] != s[i] {
            return false;
        }
        i = i + 1;
    }
    true
}

/// Whether port `p` is the device `device` under query `q`.
pub fn port_matches(p: &PortCandidate, device: &[u8], q: DeviceQuery) -> (r: bool)
    ensures
        r == port_matches_spec(*p, device@, q),
{
    if p.is_usb {
        if !q.by_description {
            return false;
        }
        match &p.product {
            Some(prod) => if q.prefix {
                starts_with(prod.as_slice(), device)
            } else {
                bytes_equal(prod.as_slice(), device)
            },
            None => false,
        }
    } else {
        if q.by_description {
            return false;
        }
        let r = bytes_equal(p.name.as_slice(), device);
        proof {
            if r {
                assert(p.name@ == device@);
            }
        }
        r
    }
}

/// Position of the device to open: the port that is the `ordinal`-th match
/// (counting from zero) in `ports`, or `None` when fewer ports match.
pub fn select_port(ports: &Vec<PortCandidate>, device: &[u8], q: DeviceQuery, ordinal: usize) -> (r:
    Option<usize>)
    ensures
        match r {
            Some(i) => {
                &&& i < ports@.len()
                &&& port_matches_spec(ports@[i as int], device@, q)
                &&& match_count(ports@, device@, q, i as int) == ordinal
            },
            None => match_count(ports@, device@, q, ports@.len() as int) <= ordinal,
        },
{
    let mut remaining = ordinal;
    let mut i: usize = 0;
    while i < ports.len()
        invariant
            i <= ports@.len(),
            match_count(ports@, device@, q, i as int) + remaining == ordinal,
        decreases ports@.len() - i,
    {
        if port_matches(&ports[i], device, q) {
            if remaining == 0 {
                return Some(i);
            }
            remaining = remaining - 1;
        }
        i = i + 1;
    }
    None
}

} // verus!
