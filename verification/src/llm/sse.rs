//! Server-Sent Events line reader, shared by the Anthropic and OpenAI streaming formats.
//! Raw byte chunks go in; complete events (event type + data) come out.
use vstd::prelude::*;
use vstd::utf8::*;

use crate::constants::SSE_LINE_BUF_SIZE;
use crate::utf8::{is_valid_utf8, lemma_valid_after_ascii, lemma_valid_ascii_byte, lemma_valid_empty, string_from_utf8};
use std::collections::VecDeque;

verus! {

/// One SSE event.
#[derive(Debug)]
pub struct SseEvent {
    /// Event type (such as `message_start`); empty when the stream named none.
    pub event: String,
    /// Data of the event; several `data:` lines are joined with `\n`.
    pub data: String,
}

/// The abstract reader: the bytes of the current line, the event type and data gathered so far
/// (UTF-8 bytes), and the finished events not yet taken (as characters).
#[verifier::ext_equal]
pub struct SseModel {
    pub line: Seq<u8>,
    pub event: Seq<u8>,
    pub data: Seq<u8>,
    pub pending: Seq<(Seq<char>, Seq<char>)>,
}

pub open spec fn event_field() -> Seq<u8> {
    seq![0x65u8, 0x76u8, 0x65u8, 0x6eu8, 0x74u8]
}

pub open spec fn data_field() -> Seq<u8> {
    seq![0x64u8, 0x61u8, 0x74u8, 0x61u8]
}

/// Position of the first `:` in a line.
pub open spec fn first_colon(line: Seq<u8>) -> Option<int>
    decreases line.len(),
{
    if line.len() == 0 {
        None
    } else {
        match first_colon(line.drop_last()) {
            Some(p) => Some(p),
            None => if line.last() == 0x3a { Some(line.len() - 1) } else { None },
        }
    }
}

/// The value after `field:` at colon position `p`; one space right after the colon is dropped.
pub open spec fn field_value(line: Seq<u8>, p: int) -> Seq<u8> {
    if p + 1 < line.len() && line[p + 1] == 0x20 {
        line.subrange(p + 2, line.len() as int)
    } else {
        line.subrange(p + 1, line.len() as int)
    }
}

/// What one complete line does. An empty line ends the event: if a type or data was gathered,
/// the event is queued and both are cleared. Comment lines (leading `:`), lines that are not
/// UTF-8 and lines without a colon are ignored. `event:` sets the type; `data:` appends to the
/// data, after a `\n` when data was already gathered. Other fields are ignored.
pub open spec fn process_line(m: SseModel) -> SseModel {
    let line = m.line;
    if line.len() == 0 {
        if m.data.len() > 0 || m.event.len() > 0 {
            SseModel {
                event: Seq::empty(),
                data: Seq::empty(),
                pending: m.pending.push((decode_utf8(m.event), decode_utf8(m.data))),
                ..m
            }
        } else {
            m
        }
    } else if line[0] == 0x3a || !valid_utf8(line) {
        m
    } else {
        match first_colon(line) {
            None => m,
            Some(p) => {
                let field = line.subrange(0, p);
                let value = field_value(line, p);
                if field == event_field() {
                    SseModel { event: value, ..m }
                } else if field == data_field() {
                    SseModel {
                        data: if m.data.len() > 0 { m.data.push(0x0au8) + value } else { m.data + value },
                        ..m
                    }
                } else {
                    m
                }
            },
        }
    }
}

/// What one byte does: `\n` and `\r` end the line; other bytes extend it while it is shorter
/// than the line buffer and are dropped after that.
pub open spec fn step(m: SseModel, b: u8) -> SseModel {
    if b == 0x0a || b == 0x0d {
        SseModel { line: Seq::empty(), ..process_line(m) }
    } else if m.line.len() < SSE_LINE_BUF_SIZE {
        SseModel { line: m.line.push(b), ..m }
    } else {
        m
    }
}

/// The reader after a sequence of bytes.
pub open spec fn feed_all(m: SseModel, bytes: Seq<u8>) -> SseModel
    decreases bytes.len(),
{
    if bytes.len() == 0 {
        m
    } else {
        step(feed_all(m, bytes.drop_last()), bytes.last())
    }
}

/// The reader before any byte.
pub open spec fn initial_model() -> SseModel {
    SseModel { line: Seq::empty(), event: Seq::empty(), data: Seq::empty(), pending: Seq::empty() }
}

/// Feeding two chunks one after the other is the same as feeding their concatenation: how the
/// stream is cut into chunks never changes the events.
pub proof fn lemma_feed_chunking(m: SseModel, a: Seq<u8>, b: Seq<u8>)
    ensures
        feed_all(feed_all(m, a), b) == feed_all(m, a + b),
    decreases b.len(),
{
    if b.len() == 0 {
        assert(a + b == a);
    } else {
        lemma_feed_chunking(m, a, b.drop_last());
        assert((a + b).drop_last() == a + b.drop_last());
        assert((a + b).last() == b.last());
    }
}

/// Events already finished stay queued, in order, whatever bytes follow.
pub proof fn lemma_pending_prefix(m: SseModel, bytes: Seq<u8>)
    ensures
        m.pending.len() <= feed_all(m, bytes).pending.len(),
        feed_all(m, bytes).pending.subrange(0, m.pending.len() as int) == m.pending,
    decreases bytes.len(),
{
    if bytes.len() > 0 {
        lemma_pending_prefix(m, bytes.drop_last());
        let m1 = feed_all(m, bytes.drop_last());
        let m2 = step(m1, bytes.last());
        assert(m2.pending.subrange(0, m1.pending.len() as int) == m1.pending);
        assert(m2.pending.subrange(0, m.pending.len() as int) == m1.pending.subrange(0, m.pending.len() as int));
    }
}

/// SSE line reader with a bounded line buffer.
pub struct SseLineReader {
    buf: Vec<u8>,
    current_event: Vec<u8>,
    current_data: Vec<u8>,
    pending: VecDeque<SseEvent>,
}

pub open spec fn event_view(e: SseEvent) -> (Seq<char>, Seq<char>) {
    (e.event@, e.data@)
}

impl SseLineReader {
    /// The abstract reader.
    pub closed spec fn model(&self) -> SseModel {
        SseModel {
            line: self.buf@,
            event: self.current_event@,
            data: self.current_data@,
            pending: self.pending@.map_values(|e: SseEvent| event_view(e)),
        }
    }

    /// The line fits the buffer, and the gathered type and data are well-formed UTF-8.
    pub closed spec fn wf(&self) -> bool {
        &&& self.buf@.len() <= SSE_LINE_BUF_SIZE
        &&& valid_utf8(self.current_event@)
        &&& valid_utf8(self.current_data@)
    }

    pub fn new() -> (r: Self)
        ensures
            r.wf(),
            r.model() == initial_model(),
    {
        let r = SseLineReader {
            buf: Vec::new(),
            current_event: Vec::new(),
            current_data: Vec::new(),
            pending: VecDeque::new(),
        };
        proof { lemma_valid_empty(); }
        assert(r.model().pending =~= Seq::<(Seq<char>, Seq<char>)>::empty());
        r
    }

    /// Feeds raw bytes; complete events are queued.
    pub fn feed(&mut self, chunk: &[u8])
        requires
            old(self).wf(),
        ensures
            final(self).wf(),
            final(self).model() == feed_all(old(self).model(), chunk@),
    {
        let mut i: usize = 0;
        while i < chunk.len()
            invariant
                i <= chunk.len(),
                self.wf(),
                self.model() == feed_all(old(self).model(), chunk@.take(i as int)),
            decreases chunk.len() - i,
        {
            let b = chunk[i];
            assert(chunk@.take(i as int + 1).drop_last() == chunk@.take(i as int));
            if b == 0x0a || b == 0x0d {
                self.process_line();
                self.buf = Vec::new();
            } else if self.buf.len() < SSE_LINE_BUF_SIZE {
                self.buf.push(b);
            }
            i = i + 1;
        }
        assert(chunk@.take(chunk.len() as int) == chunk@);
    }

    /// Takes the oldest finished event.
    pub fn next_event(&mut self) -> (r: Option<SseEvent>)
        requires
            old(self).wf(),
        ensures
            final(self).wf(),
            old(self).model().pending.len() == 0 ==> r is None && final(self).model() == old(self).model(),
            old(self).model().pending.len() > 0 ==> {
                &&& r is Some
                &&& event_view(r->Some_0) == old(self).model().pending[0]
                &&& final(self).model() == SseModel { pending: old(self).model().pending.drop_first(), ..old(self).model() }
            },
    {
        let r = self.pending.pop_front();
        proof {
            if old(self).pending@.len() > 0 {
                assert(self.model().pending =~= old(self).model().pending.drop_first());
            }
        }
        r
    }

    fn take_utf8(v: Vec<u8>) -> (s: String)
        requires
            valid_utf8(v@),
        ensures
            s@ == decode_utf8(v@),
    {
        match string_from_utf8(v) {
            Some(s) => s,
            None => String::new(),
        }
    }

    /// Handles the line in the buffer (without its terminator).
    fn process_line(&mut self)
        requires
            old(self).wf(),
        ensures
            final(self).wf(),
            final(self).model() == process_line(old(self).model()),
            final(self).buf@ == old(self).buf@,
    {
        let ghost m = self.model();
        let n = self.buf.len();
        if n == 0 {
            if self.current_data.len() > 0 || self.current_event.len() > 0 {
                let mut ev: Vec<u8> = Vec::new();
                let mut da: Vec<u8> = Vec::new();
                std::mem::swap(&mut ev, &mut self.current_event);
                std::mem::swap(&mut da, &mut self.current_data);
                let event = Self::take_utf8(ev);
                let data = Self::take_utf8(da);
                self.pending.push_back(SseEvent { event, data });
                proof { lemma_valid_empty(); }
                assert(self.model().pending =~= m.pending.push((decode_utf8(m.event), decode_utf8(m.data))));
                assert(self.model().event =~= Seq::<u8>::empty());
                assert(self.model().data =~= Seq::<u8>::empty());
            }
            return;
        }
        if self.buf[0] == 0x3a {
            return;
        }
        if !is_valid_utf8(self.buf.as_slice()) {
            return;
        }
        let mut p: usize = 0;
        while p < n && self.buf[p] != 0x3a
            invariant
                n == self.buf@.len(),
                p <= n,
                forall|j: int| 0 <= j < p ==> self.buf@[j] != 0x3a,
                self.model() == m,
                old(self).wf(),
                self == old(self),
            decreases n - p,
        {
            p = p + 1;
        }
        proof { lemma_first_colon(self.buf@, p as int); }
        if p == n {
            return;
        }
        let ghost line = self.buf@;
        let start: usize = if p + 1 < n && self.buf[p + 1] == 0x20 { p + 2 } else { p + 1 };
        let mut value: Vec<u8> = Vec::new();
        let mut k: usize = start;
        while k < n
            invariant
                start <= k <= n,
                n == self.buf@.len(),
                self.buf@ == line,
                self.model() == m,
                self.wf(),
                value@ == line.subrange(start as int, k as int),
            decreases n - k,
        {
            value.push(self.buf[k]);
            assert(line.subrange(start as int, k as int + 1) == line.subrange(start as int, k as int).push(line[k as int]));
            k = k + 1;
        }
        assert(value@ == field_value(line, p as int));
        proof {
            lemma_valid_after_ascii(line, p as int);
            if start == p + 2 {
                let t = line.subrange(p as int + 1, n as int);
                crate::utf8::lemma_valid_drop_ascii(t);
                assert(t.subrange(1, t.len() as int) == line.subrange(p as int + 2, n as int));
            }
        }
        let is_event = p == 5 && self.buf[0] == 0x65 && self.buf[1] == 0x76 && self.buf[2] == 0x65
            && self.buf[3] == 0x6e && self.buf[4] == 0x74;
        let is_data = p == 4 && self.buf[0] == 0x64 && self.buf[1] == 0x61 && self.buf[2] == 0x74
            && self.buf[3] == 0x61;
        proof {
            let field = line.subrange(0, p as int);
            if is_event { assert(field =~= event_field()); }
            if field == event_field() { assert(field[0] == 0x65u8 && field[1] == 0x76u8 && field[2] == 0x65u8 && field[3] == 0x6eu8 && field[4] == 0x74u8); }
            if is_data { assert(field =~= data_field()); }
            if field == data_field() { assert(field[0] == 0x64u8 && field[1] == 0x61u8 && field[2] == 0x74u8 && field[3] == 0x61u8); }
        }
        assert(m.line == line);
        assert(line.len() > 0 && line[0] != 0x3a && valid_utf8(line));
        assert(first_colon(line) == Some(p as int));
        if is_event {
            self.current_event = value;
            assert(self.model() == process_line(m));
        } else if is_data {
            let ghost d0 = self.current_data@;
            if self.current_data.len() > 0 {
                self.current_data.push(0x0a);
                proof {
                    lemma_valid_ascii_byte(0x0a);
                    valid_utf8_concat(d0, seq![0x0au8]);
                    assert(d0.push(0x0au8) == d0 + seq![0x0au8]);
                }
            }
            let ghost d1 = self.current_data@;
            let ghost pend = self.pending@;
            let mut j: usize = 0;
            while j < value.len()
                invariant
                    j <= value.len(),
                    self.buf@ == line,
                    self.current_event@ == m.event,
                    self.pending@ == pend,
                    self.current_data@ == d1 + value@.take(j as int),
                decreases value.len() - j,
            {
                self.current_data.push(value[j]);
                assert(value@.take(j as int + 1) == value@.take(j as int).push(value@[j as int]));
                j = j + 1;
            }
            assert(value@.take(value.len() as int) == value@);
            proof { valid_utf8_concat(d1, value@); }
            assert(self.model() =~= process_line(m));
        } else {
            proof {
            let field = line.subrange(0, p as int);
            if field == event_field() {
                assert(field.len() == 5);
                assert(field[0] == line[0] && field[1] == line[1] && field[2] == line[2] && field[3] == line[3] && field[4] == line[4]);
                assert(event_field()[0] == 0x65 && event_field()[1] == 0x76 && event_field()[2] == 0x65 && event_field()[3] == 0x6e && event_field()[4] == 0x74);
                assert(is_event);
            }
            if field == data_field() {
                assert(field.len() == 4);
                assert(field[0] == line[0] && field[1] == line[1] && field[2] == line[2] && field[3] == line[3]);
                assert(data_field()[0] == 0x64 && data_field()[1] == 0x61 && data_field()[2] == 0x74 && data_field()[3] == 0x61);
                assert(is_data);
            }
            }
            assert(self.model() =~= process_line(m));
        }
    }
}

/// The loop that looks for the colon finds the first one.
proof fn lemma_first_colon(line: Seq<u8>, p: int)
    requires
        0 <= p <= line.len(),
        forall|j: int| 0 <= j < p ==> line[j] != 0x3a,
        p < line.len() ==> line[p] == 0x3a,
    ensures
        p == line.len() ==> first_colon(line) is None,
        p < line.len() ==> first_colon(line) == Some(p),
    decreases line.len(),
{
    if line.len() > 0 {
        let t = line.drop_last();
        if p < t.len() {
            lemma_first_colon(t, p);
        } else {
            lemma_first_colon(t, t.len() as int);
        }
    }
}

} // verus!
