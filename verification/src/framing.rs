//! Line framing: each message is one line of bytes that ends in a newline.
//! Bytes come in chunks of any size; lines are cut at the newlines, white
//! space at the end of a line is dropped, and empty lines are passed over.

use vstd::prelude::*;

verus! {

/// The byte that ends a line.
pub const NEWLINE: u8 = 10;

/// Whether a byte is white space that may trail a message: a space, a tab
/// or a carriage return.
pub open spec fn is_blank(b: u8) -> bool {
    b == 32 || b == 9 || b == 13
}

/// A line without the white space at its end.
pub open spec fn stripped(line: Seq<u8>) -> Seq<u8>
    decreases line.len(),
{
    if line.len() > 0 && is_blank(line.last()) {
        stripped(line.drop_last())
    } else {
        line
    }
}

/// What has been made of the bytes so far: the lines that are complete, and
/// the bytes after the last newline.
pub struct Scan {
    pub frames: Seq<Seq<u8>>,
    pub rest: Seq<u8>,
}

/// The scan after one more byte.
pub open spec fn step(s: Scan, b: u8) -> Scan {
    if b == NEWLINE {
        Scan {
            frames: if stripped(s.rest).len() > 0 {
                s.frames.push(stripped(s.rest))
            } else {
                s.frames
            },
            rest: Seq::empty(),
        }
    } else {
        Scan { frames: s.frames, rest: s.rest.push(b) }
    }
}

/// The scan `start` after the first `n` of `bytes`.
pub open spec fn scanned(start: Scan, bytes: Seq<u8>, n: int) -> Scan
    decreases n,
{
    if n <= 0 || n > bytes.len() {
        start
    } else {
        step(scanned(start, bytes, n - 1), bytes[n - 1])
    }
}

/// The scan of all of `bytes` from nothing.
pub open spec fn framed(bytes: Seq<u8>) -> Scan {
    scanned(Scan { frames: Seq::empty(), rest: Seq::empty() }, bytes, bytes.len() as int)
}

/// The frames of a list of byte vectors.
pub open spec fn frames_view(frames: Seq<Vec<u8>>) -> Seq<Seq<u8>> {
    Seq::new(frames.len(), |i: int| frames[i]@)
}

/// A message as a line: its bytes and a newline.
pub fn frame(payload: &Vec<u8>) -> (r: Vec<u8>)
    ensures
        r@ == payload@.push(NEWLINE),
{
    let mut line: Vec<u8> = Vec::new();
    let mut i: usize = 0;
    while i < payload.len()
        invariant
            i <= payload.len(),
            line@ == payload@.take(i as int),
        decreases payload.len() - i,
    {
        line.push(payload[i]);
        proof {
            assert(line@ =~= payload@.take(i + 1));
        }
        i += 1;
    }
    proof {
        assert(payload@.take(payload.len() as int) =~= payload@);
    }
    line.push(NEWLINE);
    line
}

/// Drops the white space at the end of a line.
pub fn strip(line: Vec<u8>) -> (r: Vec<u8>)
    ensures
        r@ == stripped(line@),
{
    let ghost given = line@;
    let mut line = line;
    while line.len() > 0 && (line[line.len() - 1] == 32 || line[line.len() - 1] == 9 || line[line.len()
        - 1] == 13)
        invariant
            stripped(line@) == stripped(given),
        decreases line.len(),
    {
        let ghost before = line@;
        line.pop();
        proof {
            assert(line@ =~= before.drop_last());
        }
    }
    line
}

/// The reader's side of a connection: the bytes that have come since the
/// last newline.
#[derive(Debug)]
pub struct LineFramer {
    pub buffer: Vec<u8>,
}

impl LineFramer {
    /// A framer that has seen nothing.
    pub fn new() -> (r: LineFramer)
        ensures
            r.buffer@ == Seq::<u8>::empty(),
    {
        LineFramer { buffer: Vec::new() }
    }

    /// Takes in a chunk of bytes and hands out the lines that it completes,
    /// in order, each without its newline and trailing white space; empty
    /// lines are passed over. The bytes after the last newline are kept
    /// for the next chunk.
    pub fn feed(&mut self, bytes: &Vec<u8>) -> (r: Vec<Vec<u8>>)
        ensures
            (Scan { frames: frames_view(r@), rest: final(self).buffer@ }) == scanned(
                Scan { frames: Seq::empty(), rest: old(self).buffer@ },
                bytes@,
                bytes@.len() as int,
            ),
    {
        let ghost start = Scan { frames: Seq::empty(), rest: self.buffer@ };
        let mut frames: Vec<Vec<u8>> = Vec::new();
        let mut i: usize = 0;
        proof {
            assert(frames_view(frames@) =~= Seq::<Seq<u8>>::empty());
        }
        while i < bytes.len()
            invariant
                i <= bytes.len(),
                (Scan { frames: frames_view(frames@), rest: self.buffer@ }) == scanned(
                    start,
                    bytes@,
                    i as int,
                ),
            decreases bytes.len() - i,
        {
            let b = bytes[i];
            let ghost before = frames_view(frames@);
            if b == NEWLINE {
                let mut line: Vec<u8> = Vec::new();
                std::mem::swap(&mut line, &mut self.buffer);
                let line = strip(line);
                if line.len() > 0 {
                    frames.push(line);
                    proof {
                        assert(frames_view(frames@) =~= before.push(line@));
                    }
                }
            } else {
                self.buffer.push(b);
            }
            i += 1;
        }
        frames
    }
}

/// A line that ends in no white space is left as it is.
pub proof fn stripped_keeps_tight_line(line: Seq<u8>)
    requires
        line.len() == 0 || !is_blank(line.last()),
    ensures
        stripped(line) == line,
{
}

/// Bytes without a newline all stay in the rest of the scan.
pub proof fn scan_without_newline(start: Scan, bytes: Seq<u8>, n: int)
    requires
        0 <= n <= bytes.len(),
        forall|i: int| 0 <= i < bytes.len() ==> bytes[i] != NEWLINE,
    ensures
        scanned(start, bytes, n) == (Scan {
            frames: start.frames,
            rest: start.rest + bytes.take(n),
        }),
    decreases n,
{
    if n > 0 {
        scan_without_newline(start, bytes, n - 1);
        assert(start.rest + bytes.take(n) =~= (start.rest + bytes.take(n - 1)).push(bytes[n - 1]));
    } else {
        assert(start.rest + bytes.take(0) =~= start.rest);
    }
}

/// A scan does not depend on what follows the bytes it has read.
pub proof fn scan_of_prefix(start: Scan, a: Seq<u8>, b: Seq<u8>, n: int)
    requires
        0 <= n <= a.len(),
    ensures
        scanned(start, a + b, n) == scanned(start, a, n),
    decreases n,
{
    if n > 0 {
        scan_of_prefix(start, a, b, n - 1);
        assert((a + b)[n - 1] == a[n - 1]);
    }
}

/// It makes no difference in how many chunks the bytes come: scanning one
/// chunk and then the next is scanning both at once.
pub proof fn scan_in_chunks(start: Scan, a: Seq<u8>, b: Seq<u8>, n: int)
    requires
        0 <= n <= b.len(),
    ensures
        scanned(start, a + b, a.len() + n) == scanned(
            scanned(start, a, a.len() as int),
            b,
            n,
        ),
    decreases n,
{
    if n > 0 {
        scan_in_chunks(start, a, b, n - 1);
        assert((a + b)[a.len() + n - 1] == b[n - 1]);
    } else {
        scan_of_prefix(start, a, b, a.len() as int);
    }
}

/// A framed message is read back as it was: the line of a payload that is
/// not empty, holds no newline and ends in no white space yields that
/// payload as its one frame, and leaves nothing behind.
pub proof fn framing_round_trip(payload: Seq<u8>)
    requires
        payload.len() > 0,
        !is_blank(payload.last()),
        forall|i: int| 0 <= i < payload.len() ==> payload[i] != NEWLINE,
    ensures
        framed(payload.push(NEWLINE)) == (Scan { frames: seq![payload], rest: Seq::empty() }),
{
    let start = Scan { frames: Seq::empty(), rest: Seq::empty() };
    let line = payload.push(NEWLINE);
    scan_without_newline(start, payload, payload.len() as int);
    scan_of_prefix(start, payload, seq![NEWLINE], payload.len() as int);
    assert(line =~= payload + seq![NEWLINE]);
    assert(payload.take(payload.len() as int) =~= payload);
    assert(start.rest + payload =~= payload);
    stripped_keeps_tight_line(payload);
    assert(Seq::<Seq<u8>>::empty().push(payload) =~= seq![payload]);
}

/// Messages sent back to back are read one by one: after any scan that
/// left nothing behind, the line of a payload adds that payload as the next
/// frame.
pub proof fn frames_follow_one_another(before: Seq<u8>, payload: Seq<u8>)
    requires
        framed(before).rest.len() == 0,
        payload.len() > 0,
        !is_blank(payload.last()),
        forall|i: int| 0 <= i < payload.len() ==> payload[i] != NEWLINE,
    ensures
        framed(before + payload.push(NEWLINE)) == (Scan {
            frames: framed(before).frames.push(payload),
            rest: Seq::empty(),
        }),
{
    let start = Scan { frames: Seq::empty(), rest: Seq::empty() };
    let line = payload.push(NEWLINE);
    let mid = framed(before);
    scan_in_chunks(start, before, line, line.len() as int);
    scan_without_newline(mid, payload, payload.len() as int);
    scan_of_prefix(mid, payload, seq![NEWLINE], payload.len() as int);
    assert(line =~= payload + seq![NEWLINE]);
    assert(payload.take(payload.len() as int) =~= payload);
    assert(mid.rest + payload =~= payload);
    stripped_keeps_tight_line(payload);
}

} // verus!
