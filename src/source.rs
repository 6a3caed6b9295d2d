use vstd::prelude::*;

verus! {

/// `std::io::Error`, the failure a byte source reports. Only carried through,
/// never looked into.
#[verifier::external_type_specification]
#[verifier::external_body]
pub struct ExIoError(std::io::Error);

/// The smaller of two integers.
pub open spec fn min_int(a: int, b: int) -> int {
    if a <= b {
        a
    } else {
        b
    }
}

/// A sequential stream of bytes that chunks are pulled from.
///
/// `pending` is the part of the stream that has not been delivered yet;
/// `infallible` holds of a source whose reads never fail.
pub trait ByteSource {
    spec fn pending(&self) -> Seq<u8>;

    spec fn infallible(&self) -> bool;

    /// Fills `buf` from its start with the next bytes of the stream: as many as
    /// `buf` holds, or all that are left if fewer are. Returns how many were
    /// stored; bytes of `buf` past that count are left as they were.
    fn read_into(&mut self, buf: &mut Vec<u8>) -> (r: Result<usize, std::io::Error>)
        ensures
            final(buf)@.len() == old(buf)@.len(),
            final(self).infallible() == old(self).infallible(),
            old(self).infallible() ==> r is Ok,
            r matches Ok(n) ==> {
                &&& n == min_int(old(buf)@.len() as int, old(self).pending().len() as int)
                &&& final(buf)@ == old(self).pending().take(n as int) + old(buf)@.skip(n as int)
                &&& final(self).pending() == old(self).pending().skip(n as int)
            },
    ;
}

/// A byte source over bytes held in memory.
pub struct MemSource {
    data: Vec<u8>,
    pos: usize,
}

impl MemSource {
    #[verifier::type_invariant]
    spec fn inv(&self) -> bool {
        self.pos <= self.data.len()
    }

    /// A source that delivers exactly `data`.
    pub fn new(data: Vec<u8>) -> (r: MemSource)
        ensures
            r.pending() == data@,
            r.infallible(),
    {
        MemSource { data, pos: 0 }
    }
}

impl ByteSource for MemSource {
    closed spec fn pending(&self) -> Seq<u8> {
        self.data@.skip(self.pos as int)
    }

    closed spec fn infallible(&self) -> bool {
        true
    }

    fn read_into(&mut self, buf: &mut Vec<u8>) -> (r: Result<usize, std::io::Error>) {
        proof {
            use_type_invariant(&*self);
        }
        let pos = self.pos;
        let len = self.data.len();
        let avail = len - pos;
        let n: usize = if buf.len() <= avail {
            buf.len()
        } else {
            avail
        };
        let ghost start = buf@;
        let mut i: usize = 0;
        while i < n
            invariant
                n <= buf@.len(),
                pos + n <= len,
                len == self.data@.len(),
                pos == self.pos,
                i <= n,
                buf@.len() == start.len(),
                forall|k: int| 0 <= k < i ==> buf@[k] == self.data@[pos + k],
                forall|k: int| i <= k < buf@.len() ==> buf@[k] == start[k],
            decreases n - i,
        {
            buf.set(i, self.data[pos + i]);
            i = i + 1;
        }
        let ghost before = self.data@.skip(pos as int);
        self.pos = pos + n;
        assert(buf@ =~= before.take(n as int) + start.skip(n as int));
        assert(self.data@.skip(self.pos as int) =~= before.skip(n as int));
        Ok(n)
    }
}

} // verus!
