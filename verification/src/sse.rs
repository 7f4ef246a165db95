//! Server-sent events, as far as a stream of JSON frames needs them: bytes
//! come in pieces of any size, and the data of each finished event comes out.
//!
//! A line ends with a line feed; a carriage return before it is dropped. A
//! line that starts with `data:` adds what follows the colon, less one
//! leading space, to the data of the current event, with a line feed between
//! the values of several such lines. An empty line ends the event, which
//! yields its data if it had a data line. Every other line is passed over.

use vstd::prelude::*;

verus! {

/// The byte that ends a line.
pub const LF: u8 = 10;

/// The byte that may stand before the end of a line.
pub const CR: u8 = 13;

/// The space.
pub const SP: u8 = 32;

/// The field name `data` with its colon.
pub open spec fn data_prefix() -> Seq<u8> {
    seq![100u8, 97u8, 116u8, 97u8, 58u8]
}

/// The line without a carriage return at its end.
pub open spec fn strip_cr(line: Seq<u8>) -> Seq<u8> {
    if line.len() > 0 && line.last() == CR {
        line.drop_last()
    } else {
        line
    }
}

/// What a line adds to the data of an event, if it is a data line.
pub open spec fn data_value(line: Seq<u8>) -> Option<Seq<u8>> {
    if line.len() >= 5 && line.subrange(0, 5) == data_prefix() {
        if line.len() >= 6 && line[5] == SP {
            Some(line.subrange(6, line.len() as int))
        } else {
            Some(line.subrange(5, line.len() as int))
        }
    } else {
        None
    }
}

/// What has been read of the stream and not yet given out.
pub struct SseView {
    /// The bytes of the line that is being read.
    pub line: Seq<u8>,
    /// The data gathered for the event that is being read.
    pub data: Seq<u8>,
    /// Whether that event has had a data line.
    pub has_data: bool,
}

/// The state before anything was read.
pub open spec fn initial() -> SseView {
    SseView { line: Seq::empty(), data: Seq::empty(), has_data: false }
}

/// The state after the line that `s` holds has ended, and the data of the
/// event that it ended, if it ended one that had data.
pub open spec fn end_line(s: SseView) -> (SseView, Option<Seq<u8>>) {
    let line = strip_cr(s.line);
    if line.len() == 0 {
        (
            initial(),
            if s.has_data {
                Some(s.data)
            } else {
                None
            },
        )
    } else {
        match data_value(line) {
            Some(v) => (
                SseView {
                    line: Seq::empty(),
                    data: if s.has_data {
                        s.data + seq![LF] + v
                    } else {
                        v
                    },
                    has_data: true,
                },
                None,
            ),
            None => (SseView { line: Seq::empty(), ..s }, None),
        }
    }
}

/// The state after one more byte, and the data of the event that the byte
/// ended, if it ended one that had data.
pub open spec fn step(s: SseView, byte: u8) -> (SseView, Option<Seq<u8>>) {
    if byte == LF {
        end_line(s)
    } else {
        (SseView { line: s.line.push(byte), ..s }, None)
    }
}

/// The state after `bytes`, and the data of the events that ended in them,
/// in order.
pub open spec fn run(s: SseView, bytes: Seq<u8>) -> (SseView, Seq<Seq<u8>>)
    decreases bytes.len(),
{
    if bytes.len() == 0 {
        (s, Seq::empty())
    } else {
        let (before, events) = run(s, bytes.drop_last());
        let (after, event) = step(before, bytes.last());
        (
            after,
            match event {
                Some(e) => events.push(e),
                None => events,
            },
        )
    }
}

/// The bytes of each list of a list.
pub open spec fn payloads(v: Seq<Vec<u8>>) -> Seq<Seq<u8>> {
    Seq::new(v.len(), |i: int| v[i]@)
}

/// One event that carries `payload` as its data.
pub open spec fn frame_of(payload: Seq<u8>) -> Seq<u8> {
    data_prefix() + seq![SP] + payload + seq![LF, LF]
}

/// Reading a stream in two pieces gives what reading it in one piece gives.
pub proof fn lemma_run_concat(s: SseView, a: Seq<u8>, b: Seq<u8>)
    ensures
        run(s, a + b).0 == run(run(s, a).0, b).0,
        run(s, a + b).1 == run(s, a).1 + run(run(s, a).0, b).1,
    decreases b.len(),
{
    if b.len() == 0 {
        assert(a + b =~= a);
        assert(run(s, a).1 + Seq::<Seq<u8>>::empty() =~= run(s, a).1);
    } else {
        lemma_run_concat(s, a, b.drop_last());
        assert((a + b).drop_last() =~= a + b.drop_last());
        assert((a + b).last() == b.last());
        let mid = run(s, a).0;
        let (before, events) = run(mid, b.drop_last());
        let (_, event) = step(before, b.last());
        match event {
            Some(e) => {
                assert((run(s, a).1 + events).push(e) =~= run(s, a).1 + events.push(e));
            },
            None => {},
        }
    }
}

/// Bytes without a line feed only lengthen the line that is being read.
pub proof fn lemma_run_within_line(s: SseView, bytes: Seq<u8>)
    requires
        forall|i: int| 0 <= i < bytes.len() ==> bytes[i] != LF,
    ensures
        run(s, bytes).0 == (SseView { line: s.line + bytes, ..s }),
        run(s, bytes).1 == Seq::<Seq<u8>>::empty(),
    decreases bytes.len(),
{
    if bytes.len() == 0 {
        assert(s.line + bytes =~= s.line);
    } else {
        lemma_run_within_line(s, bytes.drop_last());
        assert((s.line + bytes.drop_last()).push(bytes.last()) =~= s.line + bytes);
    }
}

/// Reading one byte is one step.
pub proof fn lemma_run_one(s: SseView, byte: u8)
    ensures
        run(s, seq![byte]).0 == step(s, byte).0,
        run(s, seq![byte]).1 == match step(s, byte).1 {
            Some(e) => seq![e],
            None => Seq::<Seq<u8>>::empty(),
        },
{
    reveal_with_fuel(run, 2);
    assert(seq![byte].drop_last() =~= Seq::<u8>::empty());
    match step(s, byte).1 {
        Some(e) => {
            assert(Seq::<Seq<u8>>::empty().push(e) =~= seq![e]);
        },
        None => {},
    }
}

/// One framed payload that holds no line feed and does not end in a carriage
/// return is read back as exactly that payload, and leaves nothing behind.
pub proof fn lemma_frame_round_trip(payload: Seq<u8>)
    requires
        forall|i: int| 0 <= i < payload.len() ==> payload[i] != LF,
        payload.len() > 0 ==> payload.last() != CR,
    ensures
        run(initial(), frame_of(payload)).0 == initial(),
        run(initial(), frame_of(payload)).1 == seq![payload],
{
    let line = data_prefix() + seq![SP] + payload;
    assert(frame_of(payload) =~= (line + seq![LF]) + seq![LF]);
    lemma_run_concat(initial(), line + seq![LF], seq![LF]);
    lemma_run_concat(initial(), line, seq![LF]);
    lemma_run_within_line(initial(), line);
    let s1 = run(initial(), line).0;
    assert(s1.line =~= line);
    lemma_run_one(s1, LF);
    assert(run(s1, seq![LF]).0 == end_line(s1).0);
    assert(strip_cr(line) == line);
    assert(line.subrange(0, 5) =~= data_prefix());
    assert(line[5] == SP);
    assert(line.subrange(6, line.len() as int) =~= payload);
    let s2 = end_line(s1).0;
    assert(s2 == SseView { line: Seq::empty(), data: payload, has_data: true });
    assert(run(s1, seq![LF]).1 =~= Seq::<Seq<u8>>::empty());
    lemma_run_one(s2, LF);
    assert(run(s2, seq![LF]).0 == end_line(s2).0);
    assert(run(s2, seq![LF]).1 =~= seq![payload]);
    assert(Seq::<Seq<u8>>::empty() + Seq::<Seq<u8>>::empty() =~= Seq::<Seq<u8>>::empty());
    assert(Seq::<Seq<u8>>::empty() + seq![payload] =~= seq![payload]);
}

/// Reads server-sent events from a stream that comes in pieces.
pub struct SseDecoder {
    line: Vec<u8>,
    data: Vec<u8>,
    has_data: bool,
}

impl SseDecoder {
    /// What has been read and not yet given out.
    pub closed spec fn view(&self) -> SseView {
        SseView { line: self.line@, data: self.data@, has_data: self.has_data }
    }

    /// A decoder that has read nothing.
    pub fn new() -> (r: SseDecoder)
        ensures
            r.wf(),
            r@ == initial(),
    {
        SseDecoder { line: Vec::new(), data: Vec::new(), has_data: false }
    }

    /// Ends the line that is being read.
    fn finish_line(&mut self) -> (r: Option<Vec<u8>>)
        requires
            old(self).wf(),
        ensures
            final(self).wf(),
            final(self)@ == end_line(old(self)@).0,
            match r {
                Some(e) => end_line(old(self)@).1 == Some(e@),
                None => end_line(old(self)@).1.is_none(),
            },
    {
        let mut line: Vec<u8> = Vec::new();
        std::mem::swap(&mut line, &mut self.line);
        let ghost raw = line@;
        if line.len() > 0 && line[line.len() - 1] == CR {
            line.pop();
        }
        assert(line@ =~= strip_cr(raw));
        if line.len() == 0 {
            let mut data: Vec<u8> = Vec::new();
            std::mem::swap(&mut data, &mut self.data);
            let had = self.has_data;
            self.has_data = false;
            return if had {
                Some(data)
            } else {
                None
            };
        }
        let is_data = line.len() >= 5 && line[0] == 100 && line[1] == 97 && line[2] == 116 && line[3]
            == 97 && line[4] == 58;
        proof {
            if line.len() >= 5 {
                let head = line@.subrange(0, 5);
                if is_data {
                    assert(head =~= data_prefix());
                } else {
                    assert(head[0] == line[0] && head[1] == line[1] && head[2] == line[2] && head[3]
                        == line[3] && head[4] == line[4]);
                    assert(data_prefix()[0] == 100 && data_prefix()[1] == 97 && data_prefix()[2] == 116
                        && data_prefix()[3] == 97 && data_prefix()[4] == 58);
                }
            }
        }
        if is_data {
            let start: usize = if line.len() >= 6 && line[5] == SP {
                6
            } else {
                5
            };
            if self.has_data {
                self.data.push(LF);
            }
            let ghost before = self.data@;
            let mut i: usize = start;
            while i < line.len()
                invariant
                    start <= i <= line.len(),
                    self.data@ == before + line@.subrange(start as int, i as int),
                    self.line@ == Seq::<u8>::empty(),
                    self.has_data == old(self).has_data,
                decreases line.len() - i,
            {
                self.data.push(line[i]);
                proof {
                    assert(line@.subrange(start as int, i + 1) =~= line@.subrange(
                        start as int,
                        i as int,
                    ).push(line@[i as int]));
                }
                i += 1;
            }
            proof {
                if old(self).has_data {
                    assert(self.data@ =~= old(self).data@ + seq![LF] + line@.subrange(
                        start as int,
                        line@.len() as int,
                    ));
                } else {
                    assert(old(self).data@.len() == 0 ==> self.data@ =~= line@.subrange(
                        start as int,
                        line@.len() as int,
                    ));
                }
            }
            self.has_data = true;
        }
        None
    }

    /// Takes the next piece of the stream, and returns the data of the events
    /// that end in it, in order.
    pub fn push(&mut self, chunk: &[u8]) -> (r: Vec<Vec<u8>>)
        requires
            old(self).wf(),
        ensures
            final(self).wf(),
            final(self)@ == run(old(self)@, chunk@).0,
            payloads(r@) == run(old(self)@, chunk@).1,
    {
        let mut out: Vec<Vec<u8>> = Vec::new();
        let mut i: usize = 0;
        proof {
            assert(chunk@.take(0) =~= Seq::<u8>::empty());
            assert(payloads(out@) =~= Seq::<Seq<u8>>::empty());
        }
        while i < chunk.len()
            invariant
                i <= chunk.len(),
                self.wf(),
                self@ == run(old(self)@, chunk@.take(i as int)).0,
                payloads(out@) == run(old(self)@, chunk@.take(i as int)).1,
            decreases chunk.len() - i,
        {
            let byte = chunk[i];
            let ghost before = payloads(out@);
            proof {
                assert(chunk@.take(i + 1).drop_last() =~= chunk@.take(i as int));
                assert(chunk@.take(i + 1).last() == byte);
            }
            if byte == LF {
                if let Some(event) = self.finish_line() {
                    out.push(event);
                    proof {
                        assert(payloads(out@) =~= before.push(event@));
                    }
                }
            } else {
                self.line.push(byte);
            }
            i += 1;
        }
        proof {
            assert(chunk@.take(i as int) =~= chunk@);
        }
        out
    }

    /// An event that has no data line holds no data.
    pub closed spec fn wf(&self) -> bool {
        !self.has_data ==> self.data@.len() == 0
    }
}

/// One event that carries `payload` as its data.
pub fn encode_frame(payload: &[u8]) -> (r: Vec<u8>)
    ensures
        r@ == frame_of(payload@),
{
    let mut out: Vec<u8> = Vec::new();
    out.push(100);
    out.push(97);
    out.push(116);
    out.push(97);
    out.push(58);
    out.push(SP);
    let ghost head = out@;
    let mut i: usize = 0;
    while i < payload.len()
        invariant
            i <= payload.len(),
            out@ == head + payload@.take(i as int),
        decreases payload.len() - i,
    {
        out.push(payload[i]);
        proof {
            assert(payload@.take(i + 1) =~= payload@.take(i as int).push(payload@[i as int]));
        }
        i += 1;
    }
    out.push(LF);
    out.push(LF);
    proof {
        assert(payload@.take(i as int) =~= payload@);
        assert(head =~= data_prefix() + seq![SP]);
        assert(out@ =~= frame_of(payload@));
    }
    out
}

} // verus!
