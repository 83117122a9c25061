//! Read-back verification: programmed data is compared with the flash
//! contents in chunks of at most 64 bytes, stopping at the first chunk that
//! differs.
//!
//! The verification is a sequence of steps. [`Algorithm::verify_start`]
//! names the first chunk to read back (or reports that there is nothing to
//! compare); [`Algorithm::verify`] takes the bytes read for a chunk and
//! names the next chunk, or ends with a match or a mismatch. Only one
//! chunk is held at a time, and no chunk is read after a mismatch.

use vstd::prelude::*;
use crate::flash::Algorithm;

verus! {

/// Largest number of bytes read back and compared at once.
pub const VERIFY_CHUNK: usize = 64;

/// Error code reported when the flash differs from the expected data.
pub const VERIFY_MISMATCH: u32 = 0x1;

/// One read-back: `len` bytes of flash at `address`, to be compared with
/// the expected data starting at `offset`.
#[derive(Clone, Copy, Debug, PartialEq, Eq, Structural)]
pub struct ReadChunk {
    pub address: u32,
    pub offset: usize,
    pub len: usize,
}

/// Number of bytes compared: the requested size, but no more than the
/// expected data holds (none when there is no data).
pub open spec fn verify_len(size: u32, data: Option<Seq<u8>>) -> nat {
    let available: nat = match data {
        Some(d) => d.len(),
        None => 0,
    };
    if (size as nat) < available {
        size as nat
    } else {
        available
    }
}

/// The chunk that starts `offset` bytes into a verification of `n` bytes
/// at `address`.
pub open spec fn chunk_at(address: u32, n: nat, offset: nat) -> ReadChunk {
    ReadChunk {
        address: (address + offset) as u32,
        offset: offset as usize,
        len: (if n - offset < VERIFY_CHUNK { n - offset } else { VERIFY_CHUNK as int }) as usize,
    }
}

/// Number of chunks in a verification of `n` bytes.
pub open spec fn chunk_count(n: nat) -> nat {
    ((n + VERIFY_CHUNK - 1) / (VERIFY_CHUNK as int)) as nat
}

/// Every chunk of a verification of `n` bytes at `address` starts at an
/// address that fits in 32 bits.
pub open spec fn chunk_starts_fit(address: u32, n: nat) -> bool {
    n == 0 || address + ((n - 1) / (VERIFY_CHUNK as int)) * (VERIFY_CHUNK as int) <= u32::MAX
}

/// What a verification does next.
#[derive(Clone, Copy, Debug, PartialEq, Eq, Structural)]
pub enum VerifyStep {
    /// Read back this chunk and pass its bytes to [`Algorithm::verify`].
    Read(ReadChunk),
    /// Every byte compared equal.
    Matched,
    /// A chunk differed: the verification fails with [`VERIFY_MISMATCH`].
    Mismatch,
}

impl VerifyStep {
    /// The result of a finished verification: `Ok` after a match, the
    /// error code [`VERIFY_MISMATCH`] after a mismatch.
    pub fn outcome(&self) -> (r: Result<(), u32>)
        requires
            !(self is Read),
        ensures
            self is Matched ==> r == Ok::<(), u32>(()),
            self is Mismatch ==> r == Err::<(), u32>(VERIFY_MISMATCH),
    {
        match self {
            VerifyStep::Mismatch => Err(VERIFY_MISMATCH),
            _ => Ok(()),
        }
    }
}

/// The step that comes when `offset` bytes of `n` have been compared equal.
pub open spec fn step_from(address: u32, n: nat, offset: nat) -> VerifyStep {
    if offset < n {
        VerifyStep::Read(chunk_at(address, n, offset))
    } else {
        VerifyStep::Matched
    }
}

/// Number of bytes to compare for a verification of `size` bytes against
/// `data`.
pub fn verify_length(size: u32, data: Option<&[u8]>) -> (n: usize)
    ensures
        n == verify_len(size, match data { Some(d) => Some(d@), None => None }),
        n <= size,
        n <= expected(data).len(),
        n == size || n == expected(data).len(),
{
    let available: usize = match data {
        Some(d) => d.len(),
        None => 0,
    };
    let s: usize = size as usize;
    if s < available {
        s
    } else {
        available
    }
}

/// A chunk is named by its flash address, the sum of the start address
/// and its offset, and holds the next 64 bytes, or the rest if fewer.
pub proof fn lemma_chunk_at_fields(address: u32, n: nat, offset: nat)
    requires
        offset < n <= u32::MAX,
        address + offset <= u32::MAX,
    ensures
        chunk_at(address, n, offset).address == address + offset,
        chunk_at(address, n, offset).offset == offset,
        chunk_at(address, n, offset).len == if n - offset < 64 { n - offset } else { 64 },
        1 <= chunk_at(address, n, offset).len <= 64,
{
}

/// A chunk matches exactly when each of its bytes read back equals the
/// expected byte at the same offset.
pub proof fn lemma_chunk_ok_bytes(read: Seq<u8>, data: Seq<u8>, chunk: ReadChunk)
    requires
        chunk.len <= read.len(),
        chunk.offset + chunk.len <= data.len(),
    ensures
        chunk_ok(read, data, chunk) <==> forall|j: int| 0 <= j < chunk.len ==> read[j] == #[trigger] data[chunk.offset + j],
{
    if forall|j: int| 0 <= j < chunk.len ==> read[j] == #[trigger] data[chunk.offset + j] {
        assert forall|j: int| 0 <= j < chunk.len implies #[trigger] read.take(chunk.len as int)[j]
            == data.subrange(chunk.offset as int, chunk.offset + chunk.len)[j] by {
            assert(read[j] == data[chunk.offset + j]);
        }
        assert(read.take(chunk.len as int) =~= data.subrange(chunk.offset as int, chunk.offset + chunk.len));
    }
    if chunk_ok(read, data, chunk) {
        assert forall|j: int| 0 <= j < chunk.len implies read[j] == #[trigger] data[chunk.offset + j] by {
            assert(read.take(chunk.len as int)[j] == data.subrange(chunk.offset as int, chunk.offset + chunk.len)[j]);
        }
    }
}

/// Whether the bytes read back for `chunk` equal the expected data at the
/// chunk's offset.
pub open spec fn chunk_ok(read: Seq<u8>, data: Seq<u8>, chunk: ReadChunk) -> bool {
    read.take(chunk.len as int) == data.subrange(chunk.offset as int, chunk.offset + chunk.len)
}

/// Compares the first `chunk.len` bytes read back for `chunk` with the
/// expected data at the chunk's offset.
pub fn chunk_matches(read: &[u8], data: &[u8], chunk: ReadChunk) -> (r: bool)
    requires
        chunk.len <= read@.len(),
        chunk.offset + chunk.len <= data@.len(),
    ensures
        r == chunk_ok(read@, data@, chunk),
{
    let data_len: usize = data.len();
    let mut k: usize = 0;
    while k < chunk.len
        invariant
            data_len == data@.len(),
            k <= chunk.len,
            chunk.len <= read@.len(),
            chunk.offset + chunk.len <= data@.len(),
            forall|j: int| 0 <= j < k ==> read@[j] == data@[chunk.offset + j],
        decreases chunk.len - k,
    {
        if read[k] != data[chunk.offset + k] {
            assert(read@.take(chunk.len as int)[k as int] != data@.subrange(
                chunk.offset as int,
                chunk.offset + chunk.len,
            )[k as int]);
            return false;
        }
        k = k + 1;
    }
    assert(read@.take(chunk.len as int) =~= data@.subrange(chunk.offset as int, chunk.offset + chunk.len));
    true
}

/// The data to verify against, as a sequence (none: nothing to compare).
pub open spec fn data_view(data: Option<&[u8]>) -> Option<Seq<u8>> {
    match data {
        Some(d) => Some(d@),
        None => None,
    }
}

/// The expected bytes of a verification.
pub open spec fn expected(data: Option<&[u8]>) -> Seq<u8> {
    match data {
        Some(d) => d@,
        None => Seq::empty(),
    }
}

/// The step after the bytes `read` came back for `chunk`: a mismatch if
/// they differ from the expected data, otherwise the following chunk, or
/// the end.
pub open spec fn next_step(address: u32, n: nat, data: Seq<u8>, chunk: ReadChunk, read: Seq<u8>) -> VerifyStep {
    if chunk_ok(read, data, chunk) {
        step_from(address, n, (chunk.offset + chunk.len) as nat)
    } else {
        VerifyStep::Mismatch
    }
}

/// A whole verification of `n` bytes at `address`, run from `offset` with
/// the flash contents `flash` (`flash[k]` is the byte at `address + k`):
/// the chunks read back, in order, and the final step.
pub open spec fn verify_run(address: u32, n: nat, data: Seq<u8>, flash: Seq<u8>, offset: nat) -> (Seq<ReadChunk>, VerifyStep)
    decreases n - offset,
{
    if offset >= n {
        (Seq::empty(), VerifyStep::Matched)
    } else {
        let c = chunk_at(address, n, offset);
        let s = next_step(address, n, data, c, flash.subrange(offset as int, offset + c.len));
        if s is Read && offset + c.len > offset {
            let rest = verify_run(address, n, data, flash, (offset + c.len) as nat);
            (seq![c] + rest.0, rest.1)
        } else {
            (seq![c], s)
        }
    }
}

/// Driving the steps with the flash contents reads the chunks of 64 bytes
/// one after another from the start, each one only after all earlier
/// chunks matched, and stops at the first chunk that differs. The result
/// is a match exactly when the first `n` bytes of flash equal the first
/// `n` bytes of data, and a mismatch otherwise.
pub proof fn lemma_verify_run(address: u32, n: nat, data: Seq<u8>, flash: Seq<u8>, offset: nat)
    requires
        n <= u32::MAX,
        n <= data.len(),
        n <= flash.len(),
        offset <= n,
        offset % 64 == 0,
    ensures
        ({
            let (reads, out) = verify_run(address, n, data, flash, offset);
            &&& out is Matched || out is Mismatch
            &&& (out is Matched <==> flash.subrange(offset as int, n as int) == data.subrange(offset as int, n as int))
            &&& forall|k: int| 0 <= k < reads.len() ==> #[trigger] reads[k] == chunk_at(address, n, (offset + 64 * k) as nat)
            &&& forall|k: int| 0 <= k < reads.len() - 1 ==> chunk_ok(
                flash.subrange(reads[k].offset as int, reads[k].offset + reads[k].len),
                data,
                #[trigger] reads[k],
            )
            &&& (out is Mismatch ==> reads.len() > 0 && !chunk_ok(
                flash.subrange(reads.last().offset as int, reads.last().offset + reads.last().len),
                data,
                reads.last(),
            ))
            &&& (out is Matched ==> offset + 64 * reads.len() >= n && offset + 64 * (reads.len() - 1) < n
                || reads.len() == 0 && offset == n)
        }),
    decreases n - offset,
{
    if offset < n {
        let c = chunk_at(address, n, offset);
        let len: nat = if n - offset < 64 { (n - offset) as nat } else { 64 };
        assert(c.len == len);
        let end: int = offset as int + len as int;
        assert(c.offset == offset);
        let read = flash.subrange(offset as int, end);
        let ok = chunk_ok(read, data, c);
        assert(ok <==> flash.subrange(offset as int, end) == data.subrange(offset as int, end)) by {
            if flash.subrange(offset as int, end) == data.subrange(offset as int, end) {
                assert(read.take(len as int) =~= read);
            }
            if ok {
                assert(read.take(len as int) =~= read);
            }
        }
        if ok && offset + len < n {
            let next: nat = (end) as nat;
            assert(len == 64);
            lemma_verify_run(address, n, data, flash, next);
            let rest = verify_run(address, n, data, flash, next);
            let reads = seq![c] + rest.0;
            assert forall|k: int| 0 <= k < reads.len() implies #[trigger] reads[k] == chunk_at(address, n, (offset + 64 * k) as nat) by {
                if k > 0 {
                    assert(reads[k] == rest.0[k - 1]);
                    assert(next + 64 * (k - 1) == offset + 64 * k);
                }
            }
            assert forall|k: int| 0 <= k < reads.len() - 1 implies chunk_ok(
                flash.subrange(reads[k].offset as int, reads[k].offset + reads[k].len),
                data,
                #[trigger] reads[k],
            ) by {
                if k > 0 {
                    assert(reads[k] == rest.0[k - 1]);
                }
            }
            // the whole range matches exactly when both parts do
            let fa = flash.subrange(offset as int, n as int);
            let da = data.subrange(offset as int, n as int);
            let fb = flash.subrange(next as int, n as int);
            let db = data.subrange(next as int, n as int);
            if fb == db {
                assert forall|j: int| 0 <= j < fa.len() implies fa[j] == da[j] by {
                    if j < 64 {
                        assert(flash.subrange(offset as int, end)[j] == data.subrange(offset as int, end)[j]);
                    } else {
                        assert(fb[j - 64] == db[j - 64]);
                    }
                }
                assert(fa =~= da);
            }
            if fa == da {
                assert forall|j: int| 0 <= j < fb.len() implies fb[j] == db[j] by {
                    assert(fa[j + 64] == da[j + 64]);
                }
                assert(fb =~= db);
            }
            if rest.1 is Mismatch {
                assert(reads.last() == rest.0.last());
            }
        } else if ok {
            assert(offset + len == n);
        } else {
            if flash.subrange(offset as int, n as int) == data.subrange(offset as int, n as int) {
                assert forall|j: int| 0 <= j < len implies flash.subrange(offset as int, end)[j]
                    == data.subrange(offset as int, end)[j] by {
                    assert(flash.subrange(offset as int, n as int)[j] == data.subrange(offset as int, n as int)[j]);
                }
                assert(flash.subrange(offset as int, end) =~= data.subrange(offset as int, end));
            }
        }
    } else {
        assert(flash.subrange(offset as int, n as int) =~= data.subrange(offset as int, n as int));
    }
}

/// Whole-verification law from the start: see [`lemma_verify_run`]. The
/// outcome is a match exactly when the first `n` bytes agree.
pub proof fn lemma_verify_outcome(address: u32, n: nat, data: Seq<u8>, flash: Seq<u8>)
    requires
        n <= u32::MAX,
        n <= data.len(),
        n <= flash.len(),
    ensures
        verify_run(address, n, data, flash, 0).1 is Matched <==> flash.take(n as int) == data.take(n as int),
        verify_run(address, n, data, flash, 0).1 is Mismatch <==> flash.take(n as int) != data.take(n as int),
{
    lemma_verify_run(address, n, data, flash, 0);
    assert(flash.subrange(0, n as int) =~= flash.take(n as int));
    assert(data.subrange(0, n as int) =~= data.take(n as int));
}

impl Algorithm {
    /// First step of verifying `size` bytes at `address` against `data`
    /// (only as many bytes as `data` holds are compared): the first chunk
    /// to read back, or a match when there is nothing to compare.
    pub fn verify_start(&self, address: u32, size: u32, data: Option<&[u8]>) -> (s: VerifyStep)
        requires
            chunk_starts_fit(address, verify_len(size, data_view(data))),
        ensures
            s == step_from(address, verify_len(size, data_view(data)), 0),
            s is Matched <==> verify_len(size, data_view(data)) == 0,
            !(s is Mismatch),
            (s matches VerifyStep::Read(c) ==> c.address == address && c.offset == 0 && c.len == if verify_len(
                size,
                data_view(data),
            ) < 64 {
                verify_len(size, data_view(data))
            } else {
                64
            }),
    {
        let n = verify_length(size, data);
        if n > 0 {
            let lim: usize = if n < VERIFY_CHUNK { n } else { VERIFY_CHUNK };
            VerifyStep::Read(ReadChunk { address: address, offset: 0, len: lim })
        } else {
            VerifyStep::Matched
        }
    }

    /// One step of verifying `size` bytes at `address` against `data`:
    /// `read` holds the bytes read back for `chunk` (a chunk named by the
    /// previous step). Reports a mismatch if they differ from the expected
    /// bytes, otherwise names the next chunk or reports the match.
    pub fn verify(
        &self,
        address: u32,
        size: u32,
        data: Option<&[u8]>,
        chunk: ReadChunk,
        read: &[u8],
    ) -> (s: VerifyStep)
        requires
            chunk_starts_fit(address, verify_len(size, data_view(data))),
            chunk.offset < verify_len(size, data_view(data)),
            chunk.offset % 64 == 0,
            chunk == chunk_at(address, verify_len(size, data_view(data)), chunk.offset as nat),
            read@.len() >= chunk.len,
        ensures
            s == next_step(address, verify_len(size, data_view(data)), expected(data), chunk, read@),
            (s is Mismatch) <==> exists|j: int| 0 <= j < chunk.len && read@[j] != #[trigger] expected(data)[chunk.offset + j],
            (s matches VerifyStep::Read(c) ==> {
                &&& c.address == address + c.offset
                &&& c.offset == chunk.offset + chunk.len
                &&& c.offset < verify_len(size, data_view(data))
                &&& c.len == if verify_len(size, data_view(data)) - c.offset < 64 {
                    verify_len(size, data_view(data)) - c.offset
                } else {
                    64
                }
            }),
            s is Matched <==> !(s is Mismatch) && chunk.offset + chunk.len >= verify_len(size, data_view(data)),
    {
        let n = verify_length(size, data);
        let d: &[u8] = match data {
            Some(d) => d,
            None => &[],
        };
        assert(d@ == expected(data));
        proof {
            lemma_chunk_ok_bytes(read@, d@, chunk);
        }
        if !chunk_matches(read, d, chunk) {
            return VerifyStep::Mismatch;
        }
        let next: usize = chunk.offset + chunk.len;
        if next < n {
            assert(chunk.len == 64);
            assert(next <= ((n - 1) / 64) * 64) by (nonlinear_arith)
                requires
                    next < n,
                    next % 64 == 0,
            {
                assert(next / 64 * 64 == next);
                assert(next / 64 <= (n - 1) / 64);
            }
            let rest: usize = n - next;
            let lim: usize = if rest < VERIFY_CHUNK { rest } else { VERIFY_CHUNK };
            VerifyStep::Read(ReadChunk { address: address + (next as u32), offset: next, len: lim })
        } else {
            VerifyStep::Matched
        }
    }
}

} // verus!
