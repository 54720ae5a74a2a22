//! The snapshot of a core's log: its last lines, written as hexadecimal digits.
use crate::text::{hex, hex_round_trip, hex_text, unhex};
use vstd::prelude::*;
use vstd::string::*;

verus! {

/// The most bytes of a log that a snapshot begins with. The hexadecimal form of
/// that many bytes fits into an answer, whatever they are.
pub const MAX_SNAPSHOT_BYTES: u64 = 4194304;

/// Where in a log of this length the snapshot begins.
pub open spec fn start_of(length: u64) -> int {
    if length > MAX_SNAPSHOT_BYTES {
        length - MAX_SNAPSHOT_BYTES
    } else {
        0
    }
}

/// Where in a log of this length the snapshot begins.
pub fn snapshot_start(length: u64) -> (start: u64)
    ensures
        start == (if length > MAX_SNAPSHOT_BYTES {
            length - MAX_SNAPSHOT_BYTES
        } else {
            0
        }),
        start == start_of(length),
{
    if length > MAX_SNAPSHOT_BYTES {
        length - MAX_SNAPSHOT_BYTES
    } else {
        0
    }
}

/// What stands behind the first newline, where there is one.
pub open spec fn behind_first_newline(content: Seq<u8>) -> Option<Seq<u8>>
    decreases content.len(),
{
    if content.len() == 0 {
        None
    } else if content[0] == 10 {
        Some(content.skip(1))
    } else {
        behind_first_newline(content.skip(1))
    }
}

/// What a snapshot keeps of what was read from a log of this length: a log that
/// was cut loses the line that it was cut in.
pub open spec fn kept_of(length: u64, content: Seq<u8>) -> Seq<u8> {
    if length > MAX_SNAPSHOT_BYTES {
        match behind_first_newline(content) {
            Some(rest) => rest,
            None => content,
        }
    } else {
        content
    }
}

/// The snapshot of a log of this length, of which `content` was read.
pub fn read_log_snapshot(length: u64, content: &Vec<u8>) -> (text: String)
    ensures
        text@ == hex(kept_of(length, content@)),
{
    if length <= MAX_SNAPSHOT_BYTES {
        return hex_text(content);
    }
    assert(content@.skip(0) =~= content@);
    for i in 0..content.len()
        invariant
            length > MAX_SNAPSHOT_BYTES,
            behind_first_newline(content@) == behind_first_newline(content@.skip(i as int)),
    {
        assert(content@.skip(i as int).skip(1) =~= content@.skip(i + 1));
        if content[i] == 10 {
            let mut kept: Vec<u8> = Vec::new();
            for j in (i + 1)..content.len()
                invariant
                    i < content@.len(),
                    kept@ =~= content@.subrange(i + 1, j as int),
            {
                kept.push(content[j]);
            }
            assert(kept@ =~= content@.skip(i + 1));
            return hex_text(&kept);
        }
    }
    hex_text(content)
}

/// A snapshot can be read back: its digits stand for the bytes that were kept.
pub proof fn snapshot_reads_back(length: u64, content: Seq<u8>)
    ensures
        unhex(hex(kept_of(length, content))) == kept_of(length, content),
{
    hex_round_trip(kept_of(length, content));
}

/// A snapshot holds the end of what was read, and loses at most the line in
/// which the log was cut.
pub proof fn snapshot_keeps_whole_lines(length: u64, content: Seq<u8>)
    ensures
        ({
            let kept = kept_of(length, content);
            let lost = content.len() - kept.len();
            &&& 0 <= lost
            &&& content.skip(lost) == kept
            &&& lost > 0 ==> {
                &&& length > MAX_SNAPSHOT_BYTES
                &&& content[lost - 1] == 10
                &&& forall|i: int| 0 <= i < lost - 1 ==> content[i] != 10
            }
        }),
{
    assert(content.skip(0) =~= content);
    if length > MAX_SNAPSHOT_BYTES {
        newline_is_first(content);
    }
}

proof fn newline_is_first(content: Seq<u8>)
    ensures
        behind_first_newline(content) matches Some(rest) ==> {
            let lost = content.len() - rest.len();
            &&& 0 < lost <= content.len()
            &&& content.skip(lost) == rest
            &&& content[lost - 1] == 10
            &&& forall|i: int| 0 <= i < lost - 1 ==> content[i] != 10
        },
    decreases content.len(),
{
    if content.len() > 0 && content[0] != 10 {
        let shorter = content.skip(1);
        newline_is_first(shorter);
        if let Some(rest) = behind_first_newline(content) {
            let lost = content.len() - rest.len();
            assert(content.skip(lost) =~= shorter.skip(lost - 1));
            assert forall|i: int| 0 <= i < lost - 1 implies content[i] != 10 by {
                if i > 0 {
                    assert(shorter[i - 1] == content[i]);
                }
            }
            assert(shorter[lost - 2] == content[lost - 1]);
        }
    }
}

/// A snapshot of a log that did not grow while it was read is bounded: it has at
/// most two digits for each of the bytes that a snapshot begins with.
pub proof fn snapshot_is_bounded(length: u64, content: Seq<u8>)
    requires
        content.len() <= MAX_SNAPSHOT_BYTES,
    ensures
        hex(kept_of(length, content)).len() <= 2 * MAX_SNAPSHOT_BYTES,
{
    snapshot_keeps_whole_lines(length, content);
}

/// Where a log is longer than four mebibytes, the snapshot begins so far before its end
/// and loses the line in which it was cut, up to and with its newline; else the whole of
/// it is kept.
pub proof fn cut_line_is_lost(length: u64, content: Seq<u8>, newline: int)
    ensures
        length <= 4194304 ==> start_of(length) == 0 && kept_of(length, content) == content,
        length > 4194304 ==> {
            &&& length - start_of(length) == 4194304
            &&& 0 <= newline < content.len() && content[newline] == 10 && (forall|i: int|
                0 <= i < newline ==> content[i] != 10) ==> kept_of(length, content)
                == content.skip(newline + 1)
            &&& (forall|i: int| 0 <= i < content.len() ==> content[i] != 10) ==> kept_of(
                length,
                content,
            ) == content
        },
{
    if length > 4194304 {
        if 0 <= newline < content.len() && content[newline] == 10 && (forall|i: int|
            0 <= i < newline ==> content[i] != 10) {
            newline_is_found(content, newline);
        }
        if forall|i: int| 0 <= i < content.len() ==> content[i] != 10 {
            no_newline_is_found(content);
        }
    }
}

proof fn newline_is_found(content: Seq<u8>, newline: int)
    requires
        0 <= newline < content.len(),
        content[newline] == 10,
        forall|i: int| 0 <= i < newline ==> content[i] != 10,
    ensures
        behind_first_newline(content) == Some(content.skip(newline + 1)),
    decreases newline,
{
    if newline > 0 {
        let shorter = content.skip(1);
        assert forall|i: int| 0 <= i < newline - 1 implies shorter[i] != 10 by {
            assert(shorter[i] == content[i + 1]);
        }
        newline_is_found(shorter, newline - 1);
        assert(shorter.skip(newline) =~= content.skip(newline + 1));
    }
}

proof fn no_newline_is_found(content: Seq<u8>)
    requires
        forall|i: int| 0 <= i < content.len() ==> content[i] != 10,
    ensures
        behind_first_newline(content) is None,
    decreases content.len(),
{
    if content.len() > 0 {
        let shorter = content.skip(1);
        assert forall|i: int| 0 <= i < shorter.len() implies shorter[i] != 10 by {
            assert(shorter[i] == content[i + 1]);
        }
        no_newline_is_found(shorter);
    }
}

} // verus!
