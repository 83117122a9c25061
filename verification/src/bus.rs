//! Register-level bus operations.
//!
//! Every flash operation is described as a sequence of [`BusOp`]s: plain
//! stores, read-modify-write updates, polls, and the status wait of the two
//! flash chips. The library decides what to store and when a poll is done;
//! whoever owns the hardware performs the accesses in order.

use vstd::prelude::*;
use crate::status::{packed_status, status_busy, pack_status, wip_pending, lemma_status_fold};

verus! {

/// One access to a memory-mapped register.
#[derive(Clone, Copy, Debug, PartialEq, Eq, Structural)]
pub enum BusOp {
    /// Store a 32-bit word.
    Write32 { addr: u32, value: u32 },
    /// Store a single byte (the byte-wide access to the QUADSPI FIFO).
    Write8 { addr: u32, byte: u8 },
    /// Load a word `v` and store back `(v & !clear) | set`.
    Modify { addr: u32, clear: u32, set: u32 },
    /// Load a word and discard it (lets a clock enable take effect).
    Read { addr: u32 },
    /// Load the word that the surrounding sequence is waiting for.
    Capture { addr: u32 },
    /// Load the word repeatedly until `word & mask == 0`.
    WaitClear { addr: u32, mask: u32 },
    /// Load the word repeatedly until `word & mask != 0`.
    WaitSet { addr: u32, mask: u32 },
    /// Run the status read of both chips (`crate::flash::read_status`)
    /// repeatedly until the word it captures shows neither chip with a
    /// write in progress.
    WaitReady,
}

/// The word stored back by a read-modify-write that read `v`.
pub open spec fn modify_result(v: u32, clear: u32, set: u32) -> u32 {
    (v & !clear) | set
}

/// Whether a poll of `op` that loaded `value` ends the wait. For
/// [`BusOp::WaitReady`], `value` is the word captured by one status read,
/// and the wait ends exactly when its folded status is no longer busy.
pub open spec fn poll_done(op: BusOp, value: u32) -> bool {
    match op {
        BusOp::WaitClear { mask, .. } => value & mask == 0,
        BusOp::WaitSet { mask, .. } => value & mask != 0,
        BusOp::WaitReady => !status_busy(packed_status(value)),
        _ => true,
    }
}

impl BusOp {
    /// The word to store back after a [`BusOp::Modify`] loaded `value`.
    /// Every bit of `set` ends up set, every other bit of `clear` ends up
    /// clear, and the remaining bits keep their value.
    pub fn modified(&self, value: u32) -> (r: u32)
        requires
            self is Modify,
        ensures
            r == modify_result(value, self->clear, self->set),
            r & self->set == self->set,
            r & (self->clear & !self->set) == 0,
            r & !(self->clear | self->set) == value & !(self->clear | self->set),
    {
        match *self {
            BusOp::Modify { clear, set, .. } => {
                let r = (value & !clear) | set;
                proof {
                    lemma_modify_result_bits(value, clear, set);
                }
                r
            },
            _ => value,
        }
    }

    /// Whether a poll that loaded `value` may stop waiting (for
    /// [`BusOp::WaitReady`], `value` is the captured status word).
    pub fn poll_complete(&self, value: u32) -> (r: bool)
        ensures
            r == poll_done(*self, value),
            (*self matches BusOp::WaitClear { mask, .. } ==> (r <==> value & mask == 0)),
            (*self matches BusOp::WaitSet { mask, .. } ==> (r <==> value & mask != 0)),
            (self is WaitReady ==> (r <==> value & 0x101 == 0)),
    {
        proof {
            lemma_poll_done_meaning(*self, value);
        }
        match *self {
            BusOp::WaitClear { mask, .. } => value & mask == 0,
            BusOp::WaitSet { mask, .. } => value & mask != 0,
            BusOp::WaitReady => !wip_pending(pack_status(value)),
            _ => true,
        }
    }
}

/// A read-modify-write sets every bit of `set`, clears every other bit of
/// `clear`, and keeps every bit outside both.
pub proof fn lemma_modify_result_bits(v: u32, clear: u32, set: u32)
    ensures
        modify_result(v, clear, set) & set == set,
        modify_result(v, clear, set) & (clear & !set) == 0,
        modify_result(v, clear, set) & !(clear | set) == v & !(clear | set),
{
    assert({
        let r = (v & !clear) | set;
        &&& r & set == set
        &&& r & (clear & !set) == 0
        &&& r & !(clear | set) == v & !(clear | set)
    }) by (bit_vector);
}

/// What ends each kind of wait: a clear-poll ends exactly when every
/// masked bit reads zero and a set-poll exactly when some masked bit reads
/// one, whatever the bits outside the mask hold; the wait for the chips
/// ends exactly when neither WIP bit (bits 0 and 8 of the status word) is
/// set.
pub proof fn lemma_poll_done_meaning(op: BusOp, v: u32)
    ensures
        (op matches BusOp::WaitClear { mask, .. } ==> (poll_done(op, v) <==> v & mask == 0)),
        (op matches BusOp::WaitClear { mask, .. } ==> poll_done(op, v) == poll_done(op, v & mask)),
        (op matches BusOp::WaitSet { mask, .. } ==> (poll_done(op, v) <==> v & mask != 0)),
        (op matches BusOp::WaitSet { mask, .. } ==> poll_done(op, v) == poll_done(op, v & mask)),
        (op is WaitReady ==> (poll_done(op, v) <==> v & 0x101 == 0)),
        (op is WaitReady ==> poll_done(op, v) == poll_done(op, v & 0x101)),
{
    lemma_status_fold(v);
    lemma_status_fold(v & 0x101);
    match op {
        BusOp::WaitClear { mask, .. } => {
            assert((v & mask) & mask == v & mask) by (bit_vector);
        },
        BusOp::WaitSet { mask, .. } => {
            assert((v & mask) & mask == v & mask) by (bit_vector);
        },
        _ => {
            assert((v & 0x101) & 0x101 == v & 0x101) by (bit_vector);
        },
    }
}

/// Register contents after `op` is performed on `regs`: stores and
/// read-modify-writes of 32-bit registers change the register they name;
/// loads, polls and FIFO byte stores leave the registers as they are.
pub open spec fn reg_effect(regs: Map<u32, u32>, op: BusOp) -> Map<u32, u32> {
    match op {
        BusOp::Write32 { addr, value } => regs.insert(addr, value),
        BusOp::Modify { addr, clear, set } => regs.insert(addr, modify_result(regs[addr], clear, set)),
        _ => regs,
    }
}

/// Register contents after the operations of `ops`, in order.
pub open spec fn reg_effects(regs: Map<u32, u32>, ops: Seq<BusOp>) -> Map<u32, u32>
    decreases ops.len(),
{
    if ops.len() == 0 {
        regs
    } else {
        reg_effect(reg_effects(regs, ops.drop_last()), ops.last())
    }
}

/// Running two sequences one after the other has the effect of the first
/// followed by that of the second.
pub proof fn lemma_reg_effects_append(regs: Map<u32, u32>, a: Seq<BusOp>, b: Seq<BusOp>)
    ensures
        reg_effects(regs, a + b) == reg_effects(reg_effects(regs, a), b),
    decreases b.len(),
{
    if b.len() == 0 {
        assert(a + b =~= a);
    } else {
        lemma_reg_effects_append(regs, a, b.drop_last());
        assert((a + b).drop_last() =~= a + b.drop_last());
        assert((a + b).last() == b.last());
    }
}

/// A read-modify-write repeated leaves the register as done once.
pub proof fn lemma_modify_idempotent(v: u32, clear: u32, set: u32)
    ensures
        modify_result(modify_result(v, clear, set), clear, set) == modify_result(v, clear, set),
{
    assert(((((v & !clear) | set) & !clear) | set) == ((v & !clear) | set)) by (bit_vector);
}

/// Two read-modify-writes of one register commute when neither sets a bit
/// that the other clears.
pub proof fn lemma_modify_commute(v: u32, c1: u32, s1: u32, c2: u32, s2: u32)
    requires
        s1 & c2 == 0,
        s2 & c1 == 0,
    ensures
        modify_result(modify_result(v, c1, s1), c2, s2) == modify_result(modify_result(v, c2, s2), c1, s1),
{
    assert(((((v & !c1) | s1) & !c2) | s2) == ((((v & !c2) | s2) & !c1) | s1)) by (bit_vector)
        requires
            s1 & c2 == 0,
            s2 & c1 == 0,
    ;
}

/// Words stored by 32-bit writes to `addr`, in order.
pub open spec fn written_words(ops: Seq<BusOp>, addr: u32) -> Seq<u32>
    decreases ops.len(),
{
    if ops.len() == 0 {
        seq![]
    } else {
        let rest = written_words(ops.drop_last(), addr);
        match ops.last() {
            BusOp::Write32 { addr: a, value } => if a == addr {
                rest.push(value)
            } else {
                rest
            },
            _ => rest,
        }
    }
}

/// Bytes stored by byte writes to `addr`, in order.
pub open spec fn written_bytes(ops: Seq<BusOp>, addr: u32) -> Seq<u8>
    decreases ops.len(),
{
    if ops.len() == 0 {
        seq![]
    } else {
        let rest = written_bytes(ops.drop_last(), addr);
        match ops.last() {
            BusOp::Write8 { addr: a, byte } => if a == addr {
                rest.push(byte)
            } else {
                rest
            },
            _ => rest,
        }
    }
}

/// The words written to a register by two sequences run one after the
/// other are those of the first followed by those of the second.
pub proof fn lemma_written_words_append(a: Seq<BusOp>, b: Seq<BusOp>, addr: u32)
    ensures
        written_words(a + b, addr) == written_words(a, addr) + written_words(b, addr),
    decreases b.len(),
{
    if b.len() == 0 {
        assert(a + b =~= a);
        assert(written_words(b, addr) =~= seq![]);
        assert(written_words(a, addr) + written_words(b, addr) =~= written_words(a, addr));
    } else {
        lemma_written_words_append(a, b.drop_last(), addr);
        assert((a + b).drop_last() =~= a + b.drop_last());
        assert((a + b).last() == b.last());
        match b.last() {
            BusOp::Write32 { addr: x, value } => {
                if x == addr {
                    assert(written_words(a, addr) + written_words(b.drop_last(), addr).push(value)
                        =~= (written_words(a, addr) + written_words(b.drop_last(), addr)).push(value));
                }
            },
            _ => {},
        }
    }
}

/// The bytes written to a register by two sequences run one after the
/// other are those of the first followed by those of the second.
pub proof fn lemma_written_bytes_append(a: Seq<BusOp>, b: Seq<BusOp>, addr: u32)
    ensures
        written_bytes(a + b, addr) == written_bytes(a, addr) + written_bytes(b, addr),
    decreases b.len(),
{
    if b.len() == 0 {
        assert(a + b =~= a);
        assert(written_bytes(b, addr) =~= seq![]);
        assert(written_bytes(a, addr) + written_bytes(b, addr) =~= written_bytes(a, addr));
    } else {
        lemma_written_bytes_append(a, b.drop_last(), addr);
        assert((a + b).drop_last() =~= a + b.drop_last());
        assert((a + b).last() == b.last());
        match b.last() {
            BusOp::Write8 { addr: x, byte } => {
                if x == addr {
                    assert(written_bytes(a, addr) + written_bytes(b.drop_last(), addr).push(byte)
                        =~= (written_bytes(a, addr) + written_bytes(b.drop_last(), addr)).push(byte));
                }
            },
            _ => {},
        }
    }
}

} // verus!
