use vstd::prelude::*;

use vstd::slice::slice_subrange;
use vstd::slice::slice_to_vec;
use vstd::string::StringExecFns;

use crate::command::ByteSink;
use crate::command::ByteSource;
use crate::command::ChildHandle;
use crate::process::ExitStatus;
use crate::process::IoError;

verus! {

/// An in-memory byte stream: the whole output of one model child, handed
/// out in chunks of at most `chunk_size` bytes. It stands in for a pipe
/// wherever a run is driven without a live process.
#[derive(Debug)]
pub struct MemorySource {
    pub data: Vec<u8>,
    pub pos: usize,
    pub chunk_size: usize,
}

impl MemorySource {
    /// A source that will deliver `data` from its start.
    pub fn new(data: Vec<u8>, chunk_size: usize) -> (r: MemorySource)
        ensures
            r.data == data,
            r.pos == 0,
            r.chunk_size == chunk_size,
            r.delivered() == Seq::<u8>::empty(),
    {
        let r = MemorySource { data, pos: 0, chunk_size };
        proof {
            assert(r.delivered() =~= Seq::<u8>::empty());
        }
        r
    }
}

impl ByteSource for MemorySource {
    open spec fn delivered(&self) -> Seq<u8> {
        if self.pos <= self.data@.len() {
            self.data@.take(self.pos as int)
        } else {
            self.data@
        }
    }

    open spec fn remaining(&self) -> nat {
        if self.pos <= self.data@.len() {
            (self.data@.len() - self.pos) as nat
        } else {
            0
        }
    }

    fn read_chunk(&mut self) -> (r: Result<Vec<u8>, IoError>) {
        if self.pos >= self.data.len() {
            let empty: Vec<u8> = Vec::new();
            proof {
                assert(old(self).delivered() + empty@ =~= old(self).delivered());
            }
            return Ok(empty);
        }
        let available = self.data.len() - self.pos;
        let step = if available < self.chunk_size {
            available
        } else {
            self.chunk_size
        };
        let end = self.pos + step;
        let piece = slice_subrange(self.data.as_slice(), self.pos, end);
        let out = slice_to_vec(piece);
        self.pos = end;
        proof {
            assert(self.delivered() =~= old(self).delivered() + out@);
        }
        Ok(out)
    }
}

/// A sink with a fixed capacity: it accepts each whole chunk while the
/// total stays within the capacity and fails once a chunk would not fit,
/// accepting none of it. It stands in for a destination that can fail
/// part-way through a run.
#[derive(Debug)]
pub struct BoundedSink {
    pub taken: Vec<u8>,
    pub capacity: usize,
}

impl BoundedSink {
    /// An empty sink that can take at most `capacity` bytes in all.
    pub fn new(capacity: usize) -> (r: BoundedSink)
        ensures
            r.taken@ == Seq::<u8>::empty(),
            r.capacity == capacity,
    {
        BoundedSink { taken: Vec::new(), capacity }
    }
}

impl ByteSink for BoundedSink {
    open spec fn accepted(&self) -> Seq<u8> {
        self.taken@
    }

    fn write_all(&mut self, chunk: &[u8]) -> (r: Result<(), IoError>)
        ensures
            r is Ok <==> old(self).taken@.len() + chunk@.len() <= old(self).capacity,
            final(self).capacity == old(self).capacity,
    {
        if chunk.len() <= self.capacity && self.taken.len() <= self.capacity - chunk.len() {
            let ghost taken0 = self.taken@;
            self.taken.write_all(chunk).unwrap();
            proof {
                assert(self.taken@ == taken0 + chunk@);
            }
            Ok(())
        } else {
            Err(IoError { raw_os: None, message: String::from_str("sink is full") })
        }
    }

    fn flush(&mut self) -> (r: Result<(), IoError>)
        ensures
            r is Ok,
            *final(self) == *old(self),
    {
        Ok(())
    }
}

/// A model child that has already exited with a known status; awaiting it
/// just reports that status. It stands in for a process handle wherever a
/// run is driven without a live process.
#[derive(Debug)]
pub struct ExitedChild {
    pub status: ExitStatus,
}

impl ExitedChild {
    pub fn new(status: ExitStatus) -> (r: ExitedChild)
        ensures
            r.status == status,
    {
        ExitedChild { status }
    }
}

impl ChildHandle for ExitedChild {
    fn wait(&mut self) -> (r: Result<ExitStatus, IoError>)
        ensures
            r == Ok::<ExitStatus, IoError>(old(self).status),
            final(self).status == old(self).status,
    {
        Ok(self.status)
    }
}

} // verus!
