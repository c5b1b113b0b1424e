//! The byte-stream channel a board session talks through.
//!
//! A [`Transport`] is modelled by two byte sequences: everything written to
//! the channel so far, and the bytes that future reads will consume, in
//! order.  A real serial handle implements this trait outside the verified
//! library; [`ScriptTransport`] implements it here, in memory, and stands in
//! for a board whose replies are scripted in advance.

use vstd::prelude::*;

use crate::errors::TransportError;

verus! {

/// A blocking duplex byte channel.
///
/// Nothing obliges an implementation to succeed: every operation may return
/// a [`TransportError`] instead (a broken or timed-out channel).  What the
/// contracts pin down is that a successful operation moves the channel
/// exactly as the model says.
pub trait Transport: Sized {
    /// Every byte written to the channel so far, oldest first.  The
    /// default model is empty; a transport the library reasons about
    /// overrides it.
    open spec fn written(&self) -> Seq<u8> {
        Seq::<u8>::empty()
    }

    /// The bytes that reads will consume next, in order.  The default
    /// model is empty; a transport the library reasons about overrides it.
    open spec fn incoming(&self) -> Seq<u8> {
        Seq::<u8>::empty()
    }

    /// Blocking write of the whole buffer.
    fn write_all(&mut self, data: &[u8]) -> (r: Result<(), TransportError>)
        ensures
            r is Ok ==> {
                &&& final(self).written() == old(self).written() + data@
                &&& final(self).incoming() == old(self).incoming()
            },
    ;

    /// Push any buffered written bytes out to the device.  In the model the
    /// channel is unchanged; the call only forces delivery.
    fn flush(&mut self) -> (r: Result<(), TransportError>)
        ensures
            r is Ok ==> {
                &&& final(self).written() == old(self).written()
                &&& final(self).incoming() == old(self).incoming()
            },
    ;

    /// Blocking read of exactly `n` bytes.
    fn read_exact(&mut self, n: usize) -> (r: Result<Vec<u8>, TransportError>)
        ensures
            r matches Ok(bytes) ==> {
                &&& n <= old(self).incoming().len()
                &&& bytes@ == old(self).incoming().take(n as int)
                &&& final(self).incoming() == old(self).incoming().skip(n as int)
                &&& final(self).written() == old(self).written()
            },
    ;
}

/// An in-memory transport whose replies are scripted in advance.
///
/// It records every byte written to it and hands out the scripted bytes on
/// reads; a read past the end of the script fails like a timed-out channel.
/// This is the test double for the wire protocol: a session driven against a
/// `ScriptTransport` exercises exactly the framing the contracts describe.
pub struct ScriptTransport {
    written: Vec<u8>,
    script: Vec<u8>,
}

impl ScriptTransport {
    /// A fresh transport that will answer reads with `script`.
    pub fn new(script: Vec<u8>) -> (t: ScriptTransport)
        ensures
            t.written() == Seq::<u8>::empty(),
            t.incoming() == script@,
    {
        ScriptTransport { written: Vec::new(), script }
    }

    /// Every byte written so far, for inspection.
    pub fn written_bytes(&self) -> (r: &Vec<u8>)
        ensures
            r@ == self.written(),
    {
        &self.written
    }

    /// The scripted bytes not yet consumed by reads.
    pub fn remaining_script(&self) -> (r: &Vec<u8>)
        ensures
            r@ == self.incoming(),
    {
        &self.script
    }
}

impl Transport for ScriptTransport {
    closed spec fn written(&self) -> Seq<u8> {
        self.written@
    }

    closed spec fn incoming(&self) -> Seq<u8> {
        self.script@
    }

    fn write_all(&mut self, data: &[u8]) -> (r: Result<(), TransportError>) {
        let mut i: usize = 0;
        while i < data.len()
            invariant
                i <= data@.len(),
                self.script@ == old(self).script@,
                self.written@ == old(self).written@ + data@.take(i as int),
            decreases data@.len() - i,
        {
            self.written.push(data[i]);
            i = i + 1;
            proof {
                assert(data@.take(i as int) =~= data@.take(i - 1).push(data@[i - 1]));
            }
        }
        proof {
            assert(data@.take(data@.len() as int) =~= data@);
        }
        Ok(())
    }

    fn flush(&mut self) -> (r: Result<(), TransportError>) {
        Ok(())
    }

    fn read_exact(&mut self, n: usize) -> (r: Result<Vec<u8>, TransportError>) {
        if n > self.script.len() {
            return Err(
                TransportError { message: "read past the end of the scripted replies".to_string() },
            );
        }
        let mut bytes: Vec<u8> = Vec::new();
        let mut i: usize = 0;
        while i < n
            invariant
                i <= n,
                n <= old(self).script@.len(),
                bytes@ == old(self).script@.take(i as int),
                self.script@ == old(self).script@.skip(i as int),
                self.written@ == old(self).written@,
            decreases n - i,
        {
            let b = self.script.remove(0);
            bytes.push(b);
            i = i + 1;
            proof {
                assert(old(self).script@.take(i as int) =~= old(self).script@.take(i - 1).push(
                    old(self).script@[i - 1],
                ));
                assert(old(self).script@.skip(i - 1).remove(0) =~= old(self).script@.skip(i as int));
            }
        }
        Ok(bytes)
    }
}

} // verus!
