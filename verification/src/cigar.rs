//! Alignment operations, their packed encoding, and fragment orientation.

use crate::error::EvidenceError;
use vstd::prelude::*;

verus! {

/// One alignment operation with its length.
#[derive(Clone, Copy, Debug, PartialEq, Eq, Structural)]
pub enum CigarOp {
    Match(u32),
    Ins(u32),
    Del(u32),
    RefSkip(u32),
    SoftClip(u32),
    HardClip(u32),
    Pad(u32),
    Equal(u32),
    Diff(u32),
}

impl CigarOp {
    /// The length carried by the operation.
    pub open spec fn length(self) -> nat {
        match self {
            CigarOp::Match(n) => n as nat,
            CigarOp::Ins(n) => n as nat,
            CigarOp::Del(n) => n as nat,
            CigarOp::RefSkip(n) => n as nat,
            CigarOp::SoftClip(n) => n as nat,
            CigarOp::HardClip(n) => n as nat,
            CigarOp::Pad(n) => n as nat,
            CigarOp::Equal(n) => n as nat,
            CigarOp::Diff(n) => n as nat,
        }
    }

    /// Whether the operation places query bases on the fragment: a match,
    /// an insertion, and the two refinements of a match (sequence match and
    /// sequence mismatch), which count as matches.
    pub open spec fn is_aligned(self) -> bool {
        self is Match || self is Ins || self is Equal || self is Diff
    }

    /// Whether the operation clips query bases.
    pub open spec fn is_clip(self) -> bool {
        self is SoftClip || self is HardClip
    }

    /// Unpacks one operation: the low four bits are the kind, the rest is
    /// the length. `None` for a kind outside the known nine.
    pub fn from_packed(c: u32) -> (op: Option<CigarOp>)
        ensures
            op == decode_op(c),
    {
        let len: u32 = c >> 4;
        let code: u32 = c & 0xF;
        if code == 0 {
            Some(CigarOp::Match(len))
        } else if code == 1 {
            Some(CigarOp::Ins(len))
        } else if code == 2 {
            Some(CigarOp::Del(len))
        } else if code == 3 {
            Some(CigarOp::RefSkip(len))
        } else if code == 4 {
            Some(CigarOp::SoftClip(len))
        } else if code == 5 {
            Some(CigarOp::HardClip(len))
        } else if code == 6 {
            Some(CigarOp::Pad(len))
        } else if code == 7 {
            Some(CigarOp::Equal(len))
        } else if code == 8 {
            Some(CigarOp::Diff(len))
        } else {
            None
        }
    }

    /// Reads one operation from its letter in the text form and its length.
    /// `None` for a byte that is none of `MIDNSHP=X`.
    pub fn from_symbol(symbol: u8, len: u32) -> (op: Option<CigarOp>)
        ensures
            op == symbol_op(symbol, len),
    {
        if symbol == 77 {
            Some(CigarOp::Match(len))
        } else if symbol == 73 {
            Some(CigarOp::Ins(len))
        } else if symbol == 68 {
            Some(CigarOp::Del(len))
        } else if symbol == 78 {
            Some(CigarOp::RefSkip(len))
        } else if symbol == 83 {
            Some(CigarOp::SoftClip(len))
        } else if symbol == 72 {
            Some(CigarOp::HardClip(len))
        } else if symbol == 80 {
            Some(CigarOp::Pad(len))
        } else if symbol == 61 {
            Some(CigarOp::Equal(len))
        } else if symbol == 88 {
            Some(CigarOp::Diff(len))
        } else {
            None
        }
    }
}

/// The operation that a packed word stands for.
pub open spec fn decode_op(c: u32) -> Option<CigarOp> {
    let len = c >> 4;
    let code = c & 0xF;
    if code == 0 {
        Some(CigarOp::Match(len))
    } else if code == 1 {
        Some(CigarOp::Ins(len))
    } else if code == 2 {
        Some(CigarOp::Del(len))
    } else if code == 3 {
        Some(CigarOp::RefSkip(len))
    } else if code == 4 {
        Some(CigarOp::SoftClip(len))
    } else if code == 5 {
        Some(CigarOp::HardClip(len))
    } else if code == 6 {
        Some(CigarOp::Pad(len))
    } else if code == 7 {
        Some(CigarOp::Equal(len))
    } else if code == 8 {
        Some(CigarOp::Diff(len))
    } else {
        None
    }
}

/// The operation that a letter of the text form stands for: `M` (77),
/// `I` (73), `D` (68), `N` (78), `S` (83), `H` (72), `P` (80), `=` (61)
/// and `X` (88).
pub open spec fn symbol_op(symbol: u8, len: u32) -> Option<CigarOp> {
    if symbol == 77 {
        Some(CigarOp::Match(len))
    } else if symbol == 73 {
        Some(CigarOp::Ins(len))
    } else if symbol == 68 {
        Some(CigarOp::Del(len))
    } else if symbol == 78 {
        Some(CigarOp::RefSkip(len))
    } else if symbol == 83 {
        Some(CigarOp::SoftClip(len))
    } else if symbol == 72 {
        Some(CigarOp::HardClip(len))
    } else if symbol == 80 {
        Some(CigarOp::Pad(len))
    } else if symbol == 61 {
        Some(CigarOp::Equal(len))
    } else if symbol == 88 {
        Some(CigarOp::Diff(len))
    } else {
        None
    }
}

/// Every packed word has a known kind.
pub open spec fn all_supported(raw: Seq<u32>) -> bool {
    forall|i: int| 0 <= i < raw.len() ==> (#[trigger] decode_op(raw[i])).is_some()
}

/// The operations that a packed sequence stands for, in the same order.
pub open spec fn decoded(raw: Seq<u32>) -> Seq<CigarOp> {
    Seq::new(raw.len(), |i: int| decode_op(raw[i]).unwrap())
}

/// Every letter is one of the known nine.
pub open spec fn all_symbols_known(pairs: Seq<(u8, u32)>) -> bool {
    forall|i: int| 0 <= i < pairs.len() ==> (#[trigger] symbol_op(pairs[i].0, pairs[i].1)).is_some()
}

/// The operations that a sequence of letters and lengths stands for.
pub open spec fn ops_of_symbols(pairs: Seq<(u8, u32)>) -> Seq<CigarOp> {
    Seq::new(pairs.len(), |i: int| symbol_op(pairs[i].0, pairs[i].1).unwrap())
}

/// The same operations in the opposite order.
pub open spec fn flipped(ops: Seq<CigarOp>) -> Seq<CigarOp> {
    Seq::new(ops.len(), |i: int| ops[ops.len() - 1 - i])
}

/// Operations in fragment orientation: those of a reverse-strand alignment
/// are read back to front, those of a forward-strand alignment as they are.
pub open spec fn oriented(ops: Seq<CigarOp>, is_reverse: bool) -> Seq<CigarOp> {
    if is_reverse {
        flipped(ops)
    } else {
        ops
    }
}

/// Unpacks a whole sequence of operations. Fails, with
/// `UnsupportedOperation`, exactly when some word has an unknown kind.
pub fn decode_cigar(raw: &Vec<u32>) -> (ops: Result<Vec<CigarOp>, EvidenceError>)
    ensures
        ops.is_ok() == all_supported(raw@),
        ops matches Ok(v) ==> v@ == decoded(raw@),
        ops matches Err(e) ==> e == EvidenceError::UnsupportedOperation,
{
    let mut out: Vec<CigarOp> = Vec::new();
    let mut i: usize = 0;
    while i < raw.len()
        invariant
            i <= raw.len(),
            out@.len() == i,
            forall|k: int| 0 <= k < i ==> (#[trigger] decode_op(raw@[k])).is_some(),
            forall|k: int| 0 <= k < i ==> out@[k] == decode_op(raw@[k]).unwrap(),
        decreases raw.len() - i,
    {
        match CigarOp::from_packed(raw[i]) {
            Some(op) => out.push(op),
            None => {
                assert(decode_op(raw@[i as int]).is_none());
                return Err(EvidenceError::UnsupportedOperation);
            },
        }
        i += 1;
    }
    assert(out@ =~= decoded(raw@));
    Ok(out)
}

/// Turns letters and lengths into operations; `None` exactly when some
/// letter is unknown.
pub fn ops_from_symbols(pairs: &Vec<(u8, u32)>) -> (ops: Option<Vec<CigarOp>>)
    ensures
        ops.is_some() == all_symbols_known(pairs@),
        ops matches Some(v) ==> v@ == ops_of_symbols(pairs@),
{
    let mut out: Vec<CigarOp> = Vec::new();
    let mut i: usize = 0;
    while i < pairs.len()
        invariant
            i <= pairs.len(),
            out@.len() == i,
            forall|k: int|
                0 <= k < i ==> (#[trigger] symbol_op(pairs@[k].0, pairs@[k].1)).is_some(),
            forall|k: int| 0 <= k < i ==> out@[k] == symbol_op(pairs@[k].0, pairs@[k].1).unwrap(),
        decreases pairs.len() - i,
    {
        let pair: (u8, u32) = pairs[i];
        match CigarOp::from_symbol(pair.0, pair.1) {
            Some(op) => out.push(op),
            None => {
                assert(symbol_op(pairs@[i as int].0, pairs@[i as int].1).is_none());
                return None;
            },
        }
        i += 1;
    }
    assert(out@ =~= ops_of_symbols(pairs@));
    Some(out)
}

/// Puts operations into fragment orientation, as a new sequence: the
/// lengths are untouched, and only a reverse-strand alignment changes order.
pub fn orient(raw_ops: &Vec<CigarOp>, is_reverse: bool) -> (ops: Vec<CigarOp>)
    ensures
        ops@ == oriented(raw_ops@, is_reverse),
        !is_reverse ==> ops@ == raw_ops@,
        ops@.len() == raw_ops@.len(),
{
    let n: usize = raw_ops.len();
    let mut out: Vec<CigarOp> = Vec::new();
    let mut i: usize = 0;
    while i < n
        invariant
            n == raw_ops@.len(),
            i <= n,
            out@.len() == i,
            forall|k: int| 0 <= k < i ==> out@[k] == oriented(raw_ops@, is_reverse)[k],
        decreases n - i,
    {
        let op: CigarOp = if is_reverse {
            raw_ops[n - 1 - i]
        } else {
            raw_ops[i]
        };
        out.push(op);
        i += 1;
    }
    assert(out@ =~= oriented(raw_ops@, is_reverse));
    out
}

/// Flipping twice gives the sequence back.
pub proof fn lemma_flipped_twice(ops: Seq<CigarOp>)
    ensures
        flipped(flipped(ops)) == ops,
{
    assert(flipped(flipped(ops)) =~= ops);
}

/// Orienting twice under the same strand flag gives back the order that the
/// operations had at first: the strand flip undoes itself.
pub proof fn lemma_orient_involution(ops: Seq<CigarOp>, is_reverse: bool)
    ensures
        oriented(oriented(ops, is_reverse), is_reverse) == ops,
{
    lemma_flipped_twice(ops);
}

/// Orienting twice is orienting once under the flag that tells whether the
/// two flags differ.
pub proof fn lemma_orient_composes(ops: Seq<CigarOp>, first: bool, second: bool)
    ensures
        oriented(oriented(ops, first), second) == oriented(ops, first != second),
{
    lemma_flipped_twice(ops);
}

/// Orienting a forward-strand alignment changes nothing.
pub proof fn lemma_orient_forward_identity(ops: Seq<CigarOp>)
    ensures
        oriented(ops, false) == ops,
{
}

/// Orientation keeps every length: it permutes positions only.
pub proof fn lemma_orient_keeps_lengths(ops: Seq<CigarOp>, is_reverse: bool, i: int)
    requires
        0 <= i < ops.len(),
    ensures
        oriented(ops, is_reverse).len() == ops.len(),
        is_reverse ==> oriented(ops, is_reverse)[i] == ops[ops.len() - 1 - i],
        !is_reverse ==> oriented(ops, is_reverse)[i] == ops[i],
{
}

} // verus!
