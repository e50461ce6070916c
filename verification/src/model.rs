//! The semantics the operations implement, as a mathematical model.
//!
//! An open file description is modelled as its contents and its current
//! position.  The spec functions here say what seeking, reading,
//! writing, positioned transfer and truncation mean in that model,
//! following the platform's documented semantics, and the proof
//! functions state the laws the facade is built around.  A descriptor
//! table models duplication: distinct slots sharing one description.

use vstd::prelude::*;
use vstd::assert_seqs_equal;
use crate::seek::SeekFrom;

verus! {

/// The state one open file description carries: the file's bytes and
/// the shared current position.
pub struct FileState {
    /// The file's contents.
    pub data: Seq<u8>,
    /// The current position, shared by every descriptor slot that
    /// refers to this description.
    pub pos: nat,
}

/// A run of zero bytes, as the platform supplies for holes and
/// zero-extension.
pub open spec fn zeros(n: nat) -> Seq<u8> {
    Seq::new(n, |i: int| 0u8)
}

/// The absolute offset a seek specification resolves to: its origin
/// plus its delta.
pub open spec fn seek_target(s: FileState, pos: SeekFrom) -> int {
    match pos {
        SeekFrom::Start(p) => p as int,
        SeekFrom::Current(d) => s.pos + d,
        SeekFrom::End(d) => s.data.len() + d,
    }
}

/// Whether a seek succeeds: the resolved offset may not be negative.
pub open spec fn seek_ok(s: FileState, pos: SeekFrom) -> bool {
    seek_target(s, pos) >= 0
}

/// The state after a seek: the position moves to the resolved offset;
/// a rejected seek changes nothing.
pub open spec fn seek_spec(s: FileState, pos: SeekFrom) -> FileState {
    if seek_ok(s, pos) {
        FileState { data: s.data, pos: seek_target(s, pos) as nat }
    } else {
        s
    }
}

/// What the position query answers: the current position, read without
/// any state change.
pub open spec fn tell_spec(s: FileState) -> nat {
    s.pos
}

/// The bytes a transfer of at most `n` bytes at absolute offset `off`
/// yields: the run from `off` to the end of the data, capped at `n`.
/// At or past the end it yields nothing.
pub open spec fn pread_bytes(data: Seq<u8>, off: nat, n: nat) -> Seq<u8> {
    if off >= data.len() {
        Seq::empty()
    } else if off + n <= data.len() {
        data.subrange(off as int, (off + n) as int)
    } else {
        data.subrange(off as int, data.len() as int)
    }
}

/// The state and bytes after a plain read of at most `n` bytes: the
/// bytes come from the current position, which advances by their count.
pub open spec fn read_spec(s: FileState, n: nat) -> (FileState, Seq<u8>) {
    let bytes = pread_bytes(s.data, s.pos, n);
    (FileState { data: s.data, pos: (s.pos + bytes.len()) as nat }, bytes)
}

/// The contents after writing `b` at absolute offset `off`: the data is
/// zero-extended up to `off` if needed, then `b` replaces the run it
/// covers, keeping whatever follows it.
pub open spec fn pwrite_data(data: Seq<u8>, off: nat, b: Seq<u8>) -> Seq<u8> {
    let padded = if off > data.len() {
        data + zeros((off - data.len()) as nat)
    } else {
        data
    };
    let tail = if off + b.len() < padded.len() {
        padded.subrange((off + b.len()) as int, padded.len() as int)
    } else {
        Seq::empty()
    };
    padded.subrange(0, off as int) + b + tail
}

/// The state after a plain write of `b`: the bytes land at the current
/// position, which advances past them.
pub open spec fn write_spec(s: FileState, b: Seq<u8>) -> FileState {
    FileState { data: pwrite_data(s.data, s.pos, b), pos: (s.pos + b.len()) as nat }
}

/// The state after a positioned write of `b` at `off`: the contents
/// change as for a write there, and the shared position stays put.
pub open spec fn pwrite_spec(s: FileState, off: nat, b: Seq<u8>) -> FileState {
    FileState { data: pwrite_data(s.data, off, b), pos: s.pos }
}

/// The state and bytes after a positioned read of at most `n` bytes at
/// `off`: the bytes come from `off`, and the state — the shared
/// position included — stays exactly as it was.
pub open spec fn pread_spec(s: FileState, off: nat, n: nat) -> (FileState, Seq<u8>) {
    (s, pread_bytes(s.data, off, n))
}

/// The state after truncating to `l` bytes: contents cut or
/// zero-extended to exactly that length, position untouched.
pub open spec fn truncate_spec(s: FileState, l: nat) -> FileState {
    FileState {
        data: if l <= s.data.len() {
            s.data.subrange(0, l as int)
        } else {
            s.data + zeros((l - s.data.len()) as nat)
        },
        pos: s.pos,
    }
}

/// What the metadata query reports as the file's size.
pub open spec fn size_spec(s: FileState) -> nat {
    s.data.len()
}

/// Law: seeking a non-negative delta from the current position, then
/// asking for the position, answers exactly the old position plus the
/// delta.
pub proof fn lemma_seek_current_then_tell(s: FileState, d: i64)
    requires
        d >= 0,
    ensures
        tell_spec(seek_spec(s, SeekFrom::Current(d))) == s.pos + d,
{
}

/// Law: the position query mutates nothing, so one query never changes
/// what the next one answers.  It is a seek by a zero delta from the
/// current position, and such a seek is the identity.
pub proof fn lemma_tell_mutates_nothing(s: FileState)
    ensures
        seek_spec(s, SeekFrom::Current(0)) == s,
        tell_spec(seek_spec(s, SeekFrom::Current(0))) == tell_spec(s),
{
}

/// Law: bytes written at a position and read back from the same
/// position arrive unchanged, and the read leaves the position right
/// after them, as the write did.
pub proof fn lemma_write_read_round_trip(s: FileState, b: Seq<u8>)
    requires
        s.pos <= u64::MAX,
    ensures
        ({
            let written = write_spec(s, b);
            let sought = seek_spec(written, SeekFrom::Start(s.pos as u64));
            let (after, bytes) = read_spec(sought, b.len());
            bytes == b && after.pos == s.pos + b.len()
        }),
{
    let written = write_spec(s, b);
    let sought = seek_spec(written, SeekFrom::Start(s.pos as u64));
    let (after, bytes) = read_spec(sought, b.len());
    assert(written.data.len() >= s.pos + b.len());
    assert_seqs_equal!(bytes == b, i => {
        assert(written.data[s.pos + i] == b[i]);
    });
}

/// Law: positioned transfer never moves the shared position, so a
/// position query after either variant answers what it answered before.
pub proof fn lemma_positioned_transfer_keeps_position(s: FileState, off: nat, b: Seq<u8>, n: nat)
    ensures
        tell_spec(pwrite_spec(s, off, b)) == tell_spec(s),
        pread_spec(s, off, n).0 == s,
        tell_spec(pread_spec(s, off, n).0) == tell_spec(s),
{
}

/// Law: a vectored transfer across two buffers of lengths `n1` and
/// `n2` fills the first fully before the second begins; when the data
/// suffices the count equals `n1 + n2`, and otherwise the transfer is
/// short — a smaller count, still a success, never a failure.
pub proof fn lemma_vectored_two_buffers(data: Seq<u8>, off: nat, n1: nat, n2: nat)
    ensures
        ({
            let b1 = pread_bytes(data, off, n1);
            let b2 = pread_bytes(data, (off + b1.len()) as nat, n2);
            &&& (off + n1 + n2 <= data.len() ==> {
                &&& b1 == data.subrange(off as int, (off + n1) as int)
                &&& b2 == data.subrange((off + n1) as int, (off + n1 + n2) as int)
                &&& b1.len() + b2.len() == n1 + n2
            })
            &&& (off <= data.len() && data.len() < off + n1 + n2 ==> b1.len() + b2.len()
                == data.len() - off)
        }),
{
}

/// Law: a gathered write across two buffers lands the first wholly
/// before any byte of the second: writing `b1` at `off` and then `b2`
/// right after it yields the same contents as one write of their
/// concatenation there.  And a short transfer of count `n` within the
/// first buffer consumes a prefix of it alone — the first `n` bytes of
/// the concatenation — a smaller count, still a success, never a
/// failure.
pub proof fn lemma_vectored_write_two_buffers(
    data: Seq<u8>,
    off: nat,
    b1: Seq<u8>,
    b2: Seq<u8>,
    n: nat,
)
    ensures
        pwrite_data(pwrite_data(data, off, b1), (off + b1.len()) as nat, b2) == pwrite_data(
            data,
            off,
            b1 + b2,
        ),
        n <= b1.len() ==> (b1 + b2).take(n as int) == b1.take(n as int),
{
    let d1 = pwrite_data(data, off, b1);
    let lhs = pwrite_data(d1, (off + b1.len()) as nat, b2);
    let rhs = pwrite_data(data, off, b1 + b2);
    let cut: int = (off + b1.len()) as int;
    assert(d1.len() >= off + b1.len());
    assert(lhs.len() == rhs.len());
    assert_seqs_equal!(lhs == rhs, k => {
        if k < off {
            assert(lhs[k] == d1[k]);
        } else if k < cut {
            assert(lhs[k] == d1[k]);
            assert(d1[k] == b1[k - off]);
            assert(rhs[k] == (b1 + b2)[k - off]);
        } else if k < cut + b2.len() {
            assert(lhs[k] == b2[k - cut]);
            assert(rhs[k] == (b1 + b2)[k - off]);
        } else {
            assert(lhs[k] == d1[k]);
        }
    });
    if n <= b1.len() {
        assert_seqs_equal!((b1 + b2).take(n as int) == b1.take(n as int));
    }
}

/// Law: truncating to a length makes the metadata query report
/// exactly that size, whether the file shrank or was zero-extended.
pub proof fn lemma_truncate_sets_size(s: FileState, l: nat)
    ensures
        size_spec(truncate_spec(s, l)) == l,
{
}

/// The kernel's descriptor table: slots naming shared open file
/// descriptions, and the state each description carries.
pub struct DescTable {
    /// Which description each open slot refers to.
    pub slots: Map<nat, nat>,
    /// The state of each live description.
    pub files: Map<nat, FileState>,
}

/// A table is well formed when every open slot refers to a live
/// description.
pub open spec fn table_wf(t: DescTable) -> bool {
    forall|s: nat| #[trigger] t.slots.dom().contains(s) ==> t.files.dom().contains(t.slots[s])
}

/// The table after duplicating slot `from` onto the fresh slot `to`:
/// both slots now name the same description; no description changes.
pub open spec fn dup_spec(t: DescTable, from: nat, to: nat) -> DescTable {
    DescTable { slots: t.slots.insert(to, t.slots[from]), files: t.files }
}

/// The table after closing a slot: the slot is gone; the description
/// stays as long as another slot names it.
pub open spec fn close_slot_spec(t: DescTable, slot: nat) -> DescTable {
    DescTable { slots: t.slots.remove(slot), files: t.files }
}

/// Law: duplicating a descriptor and then closing the original leaves
/// the duplicate naming the same open file description, with its state
/// — contents and shared position — exactly as it was.
pub proof fn lemma_dup_then_close_original(t: DescTable, from: nat, to: nat)
    requires
        table_wf(t),
        t.slots.dom().contains(from),
        from != to,
    ensures
        ({
            let t2 = close_slot_spec(dup_spec(t, from, to), from);
            &&& table_wf(t2)
            &&& t2.slots.dom().contains(to)
            &&& t2.slots[to] == t.slots[from]
            &&& t2.files[t2.slots[to]] == t.files[t.slots[from]]
        }),
{
    let t2 = close_slot_spec(dup_spec(t, from, to), from);
    assert forall|s: nat| #[trigger] t2.slots.dom().contains(s) implies t2.files.dom().contains(
        t2.slots[s],
    ) by {
        if s == to {
            assert(t2.slots[s] == t.slots[from]);
        } else {
            assert(t.slots.dom().contains(s));
        }
    }
}

} // verus!
