//! Ordering of candidate endpoints during board discovery.
//!
//! Discovery probes every serial endpoint the host can see, in a
//! deterministic order: ascending by connection-type priority (USB before
//! PCI before Bluetooth before unknown), and among endpoints of equal
//! priority in enumeration order.  The scan itself opens OS handles and so
//! runs outside the verified library; the order it must follow is fixed
//! here.

use vstd::prelude::*;

verus! {

/// How a candidate serial endpoint is attached to the host.
#[derive(Debug, Copy, Clone)]
pub enum PortType {
    Usb,
    Pci,
    Bluetooth,
    Unknown,
}

/// A candidate endpoint: the OS name it can be opened under, and its
/// connection type, used only to order the scan.
#[derive(Debug)]
pub struct PortCandidate {
    pub port_name: String,
    pub port_type: PortType,
}

/// Probe priority of a connection type; lower is probed earlier.
pub open spec fn spec_port_priority(t: PortType) -> u8 {
    match t {
        PortType::Usb => 0,
        PortType::Pci => 1,
        PortType::Bluetooth => 2,
        PortType::Unknown => 3,
    }
}

/// Probe priority of a candidate endpoint; lower is probed earlier.
pub fn port_priority(port: &PortCandidate) -> (r: u8)
    ensures
        r == spec_port_priority(port.port_type),
{
    match port.port_type {
        PortType::Usb => 0,
        PortType::Pci => 1,
        PortType::Bluetooth => 2,
        PortType::Unknown => 3,
    }
}

/// The candidates of one priority class, in their original order.
pub open spec fn priority_class(s: Seq<PortCandidate>, pr: int) -> Seq<PortCandidate> {
    s.filter(|c: PortCandidate| spec_port_priority(c.port_type) == pr)
}

/// Appending a candidate extends its own priority class and no other.
proof fn lemma_priority_class_push(s: Seq<PortCandidate>, c: PortCandidate, pr: int)
    ensures
        priority_class(s.push(c), pr) == if spec_port_priority(c.port_type) == pr {
            priority_class(s, pr).push(c)
        } else {
            priority_class(s, pr)
        },
{
    s.lemma_filter_push(c, |x: PortCandidate| spec_port_priority(x.port_type) == pr);
}

/// Every candidate in a priority class has that class's priority.
proof fn lemma_priority_class_pred(s: Seq<PortCandidate>, pr: int, i: int)
    requires
        0 <= i < priority_class(s, pr).len(),
    ensures
        spec_port_priority(priority_class(s, pr)[i].port_type) == pr,
{
    s.lemma_filter_pred(|x: PortCandidate| spec_port_priority(x.port_type) == pr, i);
}

/// The stable priority order: the priority-0 candidates first, then the
/// priority-1, priority-2 and priority-3 ones, each class keeping its
/// enumeration order.
pub open spec fn stable_priority_order(s: Seq<PortCandidate>) -> Seq<PortCandidate> {
    priority_class(s, 0) + priority_class(s, 1) + priority_class(s, 2) + priority_class(s, 3)
}

/// Sort candidates ascending by connection-type priority, keeping the
/// enumeration order among candidates of equal priority.
pub fn sort_ports_by_priority(ports: Vec<PortCandidate>) -> (r: Vec<PortCandidate>)
    ensures
        r@ == stable_priority_order(ports@),
{
    let ghost orig: Seq<PortCandidate> = ports@;
    let mut rest = ports;
    let mut class0: Vec<PortCandidate> = Vec::new();
    let mut class1: Vec<PortCandidate> = Vec::new();
    let mut class2: Vec<PortCandidate> = Vec::new();
    let mut class3: Vec<PortCandidate> = Vec::new();
    let ghost mut k: int = 0;
    while rest.len() > 0
        invariant
            0 <= k <= orig.len(),
            rest@ == orig.subrange(k, orig.len() as int),
            class0@ == priority_class(orig.take(k), 0),
            class1@ == priority_class(orig.take(k), 1),
            class2@ == priority_class(orig.take(k), 2),
            class3@ == priority_class(orig.take(k), 3),
        decreases rest@.len(),
    {
        let c = rest.remove(0);
        proof {
            assert(c == orig[k]);
            assert(orig.take(k + 1) =~= orig.take(k).push(orig[k]));
            lemma_priority_class_push(orig.take(k), c, 0);
            lemma_priority_class_push(orig.take(k), c, 1);
            lemma_priority_class_push(orig.take(k), c, 2);
            lemma_priority_class_push(orig.take(k), c, 3);
            assert(rest@ =~= orig.subrange(k + 1, orig.len() as int));
        }
        match c.port_type {
            PortType::Usb => class0.push(c),
            PortType::Pci => class1.push(c),
            PortType::Bluetooth => class2.push(c),
            PortType::Unknown => class3.push(c),
        }
        proof {
            k = k + 1;
        }
    }
    proof {
        assert(orig.take(orig.len() as int) =~= orig);
    }
    let mut sorted = class0;
    sorted.append(&mut class1);
    sorted.append(&mut class2);
    sorted.append(&mut class3);
    sorted
}

/// Which priority class the element at `i` of the stable order belongs to,
/// determined by the class lengths alone.
spec fn class_of_index(s: Seq<PortCandidate>, i: int) -> int {
    let l0 = priority_class(s, 0).len() as int;
    let l1 = priority_class(s, 1).len() as int;
    let l2 = priority_class(s, 2).len() as int;
    if i < l0 {
        0
    } else if i < l0 + l1 {
        1
    } else if i < l0 + l1 + l2 {
        2
    } else {
        3
    }
}

/// The element at `i` of the stable order has the priority of its class.
proof fn lemma_class_at_index(s: Seq<PortCandidate>, i: int)
    requires
        0 <= i < stable_priority_order(s).len(),
    ensures
        spec_port_priority(stable_priority_order(s)[i].port_type) == class_of_index(s, i),
{
    let l0 = priority_class(s, 0).len() as int;
    let l1 = priority_class(s, 1).len() as int;
    let l2 = priority_class(s, 2).len() as int;
    if i < l0 {
        lemma_priority_class_pred(s, 0, i);
        assert(stable_priority_order(s)[i] == priority_class(s, 0)[i]);
    } else if i < l0 + l1 {
        lemma_priority_class_pred(s, 1, i - l0);
        assert(stable_priority_order(s)[i] == priority_class(s, 1)[i - l0]);
    } else if i < l0 + l1 + l2 {
        lemma_priority_class_pred(s, 2, i - l0 - l1);
        assert(stable_priority_order(s)[i] == priority_class(s, 2)[i - l0 - l1]);
    } else {
        lemma_priority_class_pred(s, 3, i - l0 - l1 - l2);
        assert(stable_priority_order(s)[i] == priority_class(s, 3)[i - l0 - l1 - l2]);
    }
}

/// In the stable priority order, priorities never descend: every candidate
/// is probed no later than every candidate of a higher-numbered class, and
/// candidates of equal priority keep their enumeration order by
/// construction.
pub proof fn lemma_stable_priority_order_sorted(s: Seq<PortCandidate>)
    ensures
        forall|i: int, j: int|
            #![trigger stable_priority_order(s)[i], stable_priority_order(s)[j]]
            0 <= i <= j < stable_priority_order(s).len() ==> spec_port_priority(
                stable_priority_order(s)[i].port_type,
            ) <= spec_port_priority(stable_priority_order(s)[j].port_type),
{
    assert forall|i: int, j: int|
        #![trigger stable_priority_order(s)[i], stable_priority_order(s)[j]]
        0 <= i <= j < stable_priority_order(s).len() implies spec_port_priority(
        stable_priority_order(s)[i].port_type,
    ) <= spec_port_priority(stable_priority_order(s)[j].port_type) by {
        lemma_class_at_index(s, i);
        lemma_class_at_index(s, j);
    }
}

} // verus!
