use vstd::prelude::*;

verus! {

/// What one blocking read of an input stream handed back.
#[derive(Debug)]
pub enum StreamRead {
    /// Bytes that arrived.
    Chunk(Vec<u8>),
    /// The stream has ended.
    Closed,
    /// The last operation on the stream failed, with its description.
    Failed(String),
}

#[derive(Debug)]
pub enum ReadError {
    /// The stream handed back more bytes than were asked for.
    Overrun,
    /// The stream failed.
    Stream(String),
}

/// Takes the outcome of one read of at most `buf.len()` bytes into `buf`: a
/// chunk goes to the front of the buffer and its length is returned; a closed
/// stream reads as zero bytes; a chunk longer than the buffer, or a failed
/// stream, is an error and leaves the buffer as it was.
pub fn accept_read(buf: &mut [u8], r: StreamRead) -> (res: Result<usize, ReadError>)
    ensures
        match r {
            StreamRead::Chunk(c) => if c@.len() > old(buf)@.len() {
                res matches Err(ReadError::Overrun) && final(buf)@ == old(buf)@
            } else {
                res == Ok::<usize, ReadError>(c@.len() as usize) && final(buf)@ == c@ + old(buf)@.skip(
                    c@.len() as int,
                )
            },
            StreamRead::Closed => res == Ok::<usize, ReadError>(0) && final(buf)@ == old(buf)@,
            StreamRead::Failed(m) => (res matches Err(ReadError::Stream(e)) && e@ == m@)
                && final(buf)@ == old(buf)@,
        },
{
    match r {
        StreamRead::Chunk(c) => {
            let n = c.len();
            if n > buf.len() {
                return Err(ReadError::Overrun);
            }
            let mut i: usize = 0;
            while i < n
                invariant
                    n == c@.len() <= buf@.len(),
                    buf@.len() == old(buf)@.len(),
                    i <= n,
                    forall|j: int| 0 <= j < i ==> buf@[j] == c@[j],
                    forall|j: int| i <= j < buf@.len() ==> buf@[j] == old(buf)@[j],
                decreases n - i,
            {
                buf[i] = c[i];
                i = i + 1;
            }
            assert(buf@ =~= c@ + old(buf)@.skip(n as int));
            Ok(n)
        },
        StreamRead::Closed => Ok(0),
        StreamRead::Failed(m) => Err(ReadError::Stream(m)),
    }
}

} // verus!
