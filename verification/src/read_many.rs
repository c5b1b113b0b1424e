//! Batched reads: several read requests are sent before any response is
//! read, which saves round-trip latency on boards that queue requests.
//!
//! A [`ReadManyPorts`] mask selects which of the two digital ports and
//! which of the analog channels take part.  The requests go out in a fixed
//! order (digital port 0, digital port 1, then the analog channels
//! ascending) and the responses come back in the same order.

use vstd::prelude::*;

use crate::protocol::{analog_read_request, digital_read_request, Port};

verus! {

/// Selection mask for a batched read.  One bit per readable port, with the
/// board's own quirky layout: the digital ports sit in the high byte, the
/// analog channels 0 to 5 at bits 2 to 7, and the analog channels 6 and 7
/// at bits 0 and 1.
#[derive(Debug, Copy, Clone)]
pub struct ReadManyPorts {
    pub bits: u16,
}

/// The mask bit of a digital port.
pub open spec fn spec_digital_flag(i: int) -> u16 {
    if i == 0 {
        0x0100
    } else {
        0x0200
    }
}

/// The mask bit of an analog channel.
pub open spec fn spec_analog_flag(i: int) -> u16 {
    if i == 0 {
        0x04
    } else if i == 1 {
        0x08
    } else if i == 2 {
        0x10
    } else if i == 3 {
        0x20
    } else if i == 4 {
        0x40
    } else if i == 5 {
        0x80
    } else if i == 6 {
        0x01
    } else {
        0x02
    }
}

/// Whether the mask selects digital port `i`.
pub open spec fn digital_selected(ports: ReadManyPorts, i: int) -> bool {
    ports.bits & spec_digital_flag(i) == spec_digital_flag(i)
}

/// Whether the mask selects analog channel `i`.
pub open spec fn analog_selected(ports: ReadManyPorts, i: int) -> bool {
    ports.bits & spec_analog_flag(i) == spec_analog_flag(i)
}

impl ReadManyPorts {
    /// The mask that selects nothing.
    pub fn none() -> (r: Self)
        ensures
            r.bits == 0,
    {
        ReadManyPorts { bits: 0 }
    }

    /// The mask bit of digital port 0.
    pub fn digital0() -> (r: Self)
        ensures
            r.bits == spec_digital_flag(0),
    {
        ReadManyPorts { bits: 0x0100 }
    }

    /// The mask bit of digital port 1.
    pub fn digital1() -> (r: Self)
        ensures
            r.bits == spec_digital_flag(1),
    {
        ReadManyPorts { bits: 0x0200 }
    }

    /// The mask bit of an analog channel in `[0, 7]`.
    pub fn from_analog(port: u8) -> (r: Self)
        requires
            port <= 7,
        ensures
            r.bits == spec_analog_flag(port as int),
    {
        match port {
            0 => ReadManyPorts { bits: 0x04 },
            1 => ReadManyPorts { bits: 0x08 },
            2 => ReadManyPorts { bits: 0x10 },
            3 => ReadManyPorts { bits: 0x20 },
            4 => ReadManyPorts { bits: 0x40 },
            5 => ReadManyPorts { bits: 0x80 },
            6 => ReadManyPorts { bits: 0x01 },
            _ => ReadManyPorts { bits: 0x02 },
        }
    }

    /// Both masks combined.
    pub fn union(self, other: Self) -> (r: Self)
        ensures
            r.bits == self.bits | other.bits,
    {
        ReadManyPorts { bits: self.bits | other.bits }
    }

    /// Whether every bit of `other` is set in `self`.
    pub open spec fn spec_contains(self, other: Self) -> bool {
        self.bits & other.bits == other.bits
    }

    /// Whether every bit of `other` is set in `self`.
    pub fn contains(&self, other: Self) -> (r: bool)
        ensures
            r == self.spec_contains(other),
    {
        self.bits & other.bits == other.bits
    }
}

/// The request bytes of the digital part of a batched read, in port order.
pub open spec fn digital_request_block(ports: ReadManyPorts) -> Seq<u8> {
    (if digital_selected(ports, 0) {
        digital_read_request(Port::Port0)
    } else {
        Seq::<u8>::empty()
    }) + (if digital_selected(ports, 1) {
        digital_read_request(Port::Port1)
    } else {
        Seq::<u8>::empty()
    })
}

/// The request bytes of the analog channels below `n`, in channel order.
pub open spec fn analog_request_block(ports: ReadManyPorts, n: int) -> Seq<u8>
    decreases n,
{
    if n <= 0 {
        Seq::<u8>::empty()
    } else {
        analog_request_block(ports, n - 1) + (if analog_selected(ports, n - 1) {
            analog_read_request((n - 1) as u8)
        } else {
            Seq::<u8>::empty()
        })
    }
}

/// Every request byte of a batched read, in the order sent.
pub open spec fn read_many_request(ports: ReadManyPorts) -> Seq<u8> {
    digital_request_block(ports) + analog_request_block(ports, 8)
}

/// How many of the digital ports below `n` are selected.
pub open spec fn n_digital_selected(ports: ReadManyPorts, n: int) -> int
    decreases n,
{
    if n <= 0 {
        0
    } else {
        n_digital_selected(ports, n - 1) + (if digital_selected(ports, n - 1) {
            1int
        } else {
            0int
        })
    }
}

/// How many of the analog channels below `n` are selected.
pub open spec fn n_analog_selected(ports: ReadManyPorts, n: int) -> int
    decreases n,
{
    if n <= 0 {
        0
    } else {
        n_analog_selected(ports, n - 1) + (if analog_selected(ports, n - 1) {
            1int
        } else {
            0int
        })
    }
}

/// How many response bytes a batched read consumes: one per selected
/// digital port, two per selected analog channel.
pub open spec fn read_many_response_len(ports: ReadManyPorts) -> int {
    n_digital_selected(ports, 2) + 2 * n_analog_selected(ports, 8)
}

/// Offset of digital port `i`'s response byte within the response.
pub open spec fn digital_response_offset(ports: ReadManyPorts, i: int) -> int {
    n_digital_selected(ports, i)
}

/// Offset of analog channel `i`'s response pair within the response.
pub open spec fn analog_response_offset(ports: ReadManyPorts, i: int) -> int {
    n_digital_selected(ports, 2) + 2 * n_analog_selected(ports, i)
}

/// The digital counts at 0, 1 and 2 ports, spelled out.
pub(crate) proof fn lemma_n_digital_unfold(ports: ReadManyPorts)
    ensures
        n_digital_selected(ports, 0) == 0,
        n_digital_selected(ports, 1) == (if digital_selected(ports, 0) {
            1int
        } else {
            0int
        }),
        n_digital_selected(ports, 2) == (if digital_selected(ports, 0) {
            1int
        } else {
            0int
        }) + (if digital_selected(ports, 1) {
            1int
        } else {
            0int
        }),
{
    reveal_with_fuel(n_digital_selected, 4);
}

/// Selected-channel counts never go negative.
pub(crate) proof fn lemma_n_analog_nonneg(ports: ReadManyPorts, n: int)
    ensures
        n_analog_selected(ports, n) >= 0,
    decreases n,
{
    if n > 0 {
        lemma_n_analog_nonneg(ports, n - 1);
    }
}

} // verus!
