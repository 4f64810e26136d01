//! Server-sent events: the events of a body that has arrived as a whole.
//!
//! A line ends with a line feed, a carriage return or both. The lines up to an empty one form an
//! event, and its data are the values of its `data` fields, one below the other. What follows the
//! last empty line is no event.

use vstd::prelude::*;
use vstd::utf8::*;

use crate::text::{decode_lossy, lossy_text};

verus! {

pub const LINE_FEED: u8 = 10;

pub const CARRIAGE_RETURN: u8 = 13;

pub const SPACE: u8 = 32;

pub const COLON: u8 = 58;

/// An event of a body.
#[derive(Debug, PartialEq, Eq)]
pub struct SseEvent {
    pub data: String,
}

/// Whether a byte ends a line.
pub open spec fn ends_line(byte: u8) -> bool {
    byte == LINE_FEED || byte == CARRIAGE_RETURN
}

/// The length of the first line.
pub open spec fn line_length(bytes: Seq<u8>) -> nat
    decreases bytes.len(),
{
    if bytes.len() == 0 || ends_line(bytes[0]) {
        0
    } else {
        1 + line_length(bytes.drop_first())
    }
}

/// Where the line after the first begins, if the first line ends at `end`.
pub open spec fn next_line(bytes: Seq<u8>, end: int) -> int {
    if bytes[end] == CARRIAGE_RETURN && end + 1 < bytes.len() && bytes[end + 1] == LINE_FEED {
        end + 2
    } else {
        end + 1
    }
}

/// The lines that have an end.
pub open spec fn lines(bytes: Seq<u8>) -> Seq<Seq<u8>>
    decreases bytes.len(),
{
    let end = line_length(bytes) as int;
    if end >= bytes.len() {
        Seq::empty()
    } else {
        seq![bytes.subrange(0, end)] + lines(
            bytes.subrange(next_line(bytes, end), bytes.len() as int),
        )
    }
}

/// The letters of the field name that carries data.
pub open spec fn data_name() -> Seq<u8> {
    seq![100u8, 97u8, 116u8, 97u8]
}

/// The value of a line that is a `data` field: what follows the colon, without one leading space.
pub open spec fn data_value(line: Seq<u8>) -> Option<Seq<u8>> {
    if line == data_name() {
        Some(Seq::empty())
    } else if line.len() > 4 && line.subrange(0, 4) == data_name() && line[4] == COLON {
        if line.len() > 5 && line[5] == SPACE {
            Some(line.subrange(6, line.len() as int))
        } else {
            Some(line.subrange(5, line.len() as int))
        }
    } else {
        None
    }
}

/// The data of an event with one more value below the others.
pub open spec fn with_value(data: Option<Seq<u8>>, value: Seq<u8>) -> Seq<u8> {
    match data {
        Some(data) => data.push(LINE_FEED) + value,
        None => value,
    }
}

/// The data of the events in a row of lines, of which the first event has some data already.
pub open spec fn events_in(lines: Seq<Seq<u8>>, data: Option<Seq<u8>>) -> Seq<Seq<u8>>
    decreases lines.len(),
{
    if lines.len() == 0 {
        Seq::empty()
    } else {
        let rest = lines.drop_first();
        if lines[0].len() == 0 {
            match data {
                Some(data) => seq![data] + events_in(rest, None),
                None => events_in(rest, None),
            }
        } else {
            match data_value(lines[0]) {
                Some(value) => events_in(rest, Some(with_value(data, value))),
                None => events_in(rest, data),
            }
        }
    }
}

/// The body without the byte order mark that it may begin with.
pub open spec fn without_mark(body: Seq<u8>) -> Seq<u8> {
    if body.len() >= 3 && body[0] == 0xef && body[1] == 0xbb && body[2] == 0xbf {
        body.subrange(3, body.len() as int)
    } else {
        body
    }
}

/// The data of the events of a body, as bytes.
pub open spec fn event_bytes(body: Seq<u8>) -> Seq<Seq<u8>> {
    events_in(lines(without_mark(body)), None)
}

/// The data of the events of a body, as text.
pub open spec fn event_data(body: Seq<u8>) -> Seq<Seq<char>> {
    event_bytes(body).map_values(|bytes: Seq<u8>| lossy_text(bytes))
}

/// What a row of events stands for.
pub open spec fn data_of(events: Seq<SseEvent>) -> Seq<Seq<char>> {
    events.map_values(|event: SseEvent| event.data@)
}

/// A line is as long as the run of bytes in front of the first byte that ends it.
pub(crate) proof fn line_length_is(bytes: Seq<u8>, length: int)
    requires
        0 <= length <= bytes.len(),
        forall|i: int| 0 <= i < length ==> !ends_line(#[trigger] bytes[i]),
        length < bytes.len() ==> ends_line(bytes[length]),
    ensures
        line_length(bytes) == length,
    decreases length,
{
    if length > 0 {
        let rest = bytes.drop_first();
        assert(!ends_line(bytes[0]));
        assert forall|i: int| 0 <= i < length - 1 implies !ends_line(#[trigger] rest[i]) by {
            assert(rest[i] == bytes[i + 1]);
        }
        line_length_is(rest, length - 1);
    }
}

/// Where the line that begins at `from` ends.
fn line_end(body: &[u8], from: usize) -> (end: usize)
    requires
        from <= body@.len(),
    ensures
        from <= end <= body@.len(),
        end - from == line_length(body@.subrange(from as int, body@.len() as int)),
        end < body@.len() ==> ends_line(body@[end as int]),
{
    let mut end: usize = from;
    while end < body.len() && body[end] != LINE_FEED && body[end] != CARRIAGE_RETURN
        invariant
            from <= end <= body@.len(),
            forall|i: int| from <= i < end ==> !ends_line(#[trigger] body@[i]),
        decreases body@.len() - end,
    {
        end += 1;
    }
    proof {
        let rest = body@.subrange(from as int, body@.len() as int);
        assert forall|i: int| 0 <= i < end - from implies !ends_line(#[trigger] rest[i]) by {
            assert(rest[i] == body@[from + i]);
        }
        line_length_is(rest, end - from);
    }
    end
}

/// Where the value of the `data` field between `from` and `end` begins, if the line is one.
fn value_start(body: &[u8], from: usize, end: usize) -> (start: Option<usize>)
    requires
        from <= end <= body@.len(),
    ensures
        start is Some <==> data_value(body@.subrange(from as int, end as int)) is Some,
        start is Some ==> start->0 <= end && data_value(body@.subrange(from as int, end as int))
            == Some(body@.subrange(start->0 as int, end as int)),
{
    let ghost line = body@.subrange(from as int, end as int);
    if end - from < 4 || body[from] != 100 || body[from + 1] != 97 || body[from + 2] != 116
        || body[from + 3] != 97 {
        proof {
            if line == data_name() {
                assert(line[0] == 100 && line[1] == 97 && line[2] == 116 && line[3] == 97);
            }
            if line.len() > 4 && line.subrange(0, 4) == data_name() {
                let head = line.subrange(0, 4);
                assert(head[0] == 100 && head[1] == 97 && head[2] == 116 && head[3] == 97);
            }
        }
        return None;
    }
    if end - from == 4 {
        assert(line =~= data_name());
        assert(body@.subrange(end as int, end as int) =~= Seq::<u8>::empty());
        return Some(end);
    }
    assert(line.subrange(0, 4) =~= data_name());
    assert(line[4] == body@[from + 4]);
    if body[from + 4] != COLON {
        return None;
    }
    if end - from > 5 && body[from + 5] == SPACE {
        assert(line.subrange(6, line.len() as int) =~= body@.subrange(from + 6, end as int));
        Some(from + 6)
    } else {
        assert(line.subrange(5, line.len() as int) =~= body@.subrange(from + 5, end as int));
        Some(from + 5)
    }
}

/// Adds a part of a body to a row of bytes.
fn append(data: &mut Vec<u8>, body: &[u8], from: usize, end: usize)
    requires
        from <= end <= body@.len(),
    ensures
        final(data)@ == old(data)@ + body@.subrange(from as int, end as int),
{
    let mut i: usize = from;
    while i < end
        invariant
            from <= i <= end <= body@.len(),
            data@ == old(data)@ + body@.subrange(from as int, i as int),
        decreases end - i,
    {
        data.push(body[i]);
        assert(body@.subrange(from as int, i + 1) =~= body@.subrange(from as int, i as int).push(
            body@[i as int],
        ));
        i += 1;
    }
}

/// The data of an event, if it has any.
pub open spec fn collected(any: bool, data: Seq<u8>) -> Option<Seq<u8>> {
    if any {
        Some(data)
    } else {
        None
    }
}

/// Whether the data of events that are well-formed UTF-8 are what these bytes encode.
pub open spec fn decoded(bytes: Seq<Seq<u8>>, events: Seq<SseEvent>) -> bool {
    &&& bytes.len() == events.len()
    &&& forall|i: int|
        0 <= i < events.len() && valid_utf8(bytes[i]) ==> (#[trigger] events[i]).data@
            == decode_utf8(bytes[i])
}

/// The events of a body. Data that are well-formed UTF-8 are decoded as they are.
pub fn parse_sse_events(body: &[u8]) -> (events: Vec<SseEvent>)
    ensures
        data_of(events@) == event_data(body@),
        decoded(event_bytes(body@), events@),
{
    let start: usize = if body.len() >= 3 && body[0] == 0xef && body[1] == 0xbb && body[2] == 0xbf {
        3
    } else {
        0
    };
    assert(body@.subrange(start as int, body@.len() as int) =~= without_mark(body@));
    let ghost decode = |bytes: Seq<u8>| lossy_text(bytes);
    let ghost mut told: Seq<Seq<u8>> = Seq::empty();
    let mut events: Vec<SseEvent> = Vec::new();
    let mut data: Vec<u8> = Vec::new();
    let mut any: bool = false;
    let mut at: usize = start;
    assert(data_of(events@) =~= Seq::<Seq<char>>::empty());
    let mut end: usize = line_end(body, at);
    while end < body.len()
        invariant
            at <= end <= body@.len(),
            end - at == line_length(body@.subrange(at as int, body@.len() as int)),
            end < body@.len() ==> ends_line(body@[end as int]),
            !any ==> data@.len() == 0,
            decode == (|bytes: Seq<u8>| lossy_text(bytes)),
            event_bytes(body@) == told + events_in(
                lines(body@.subrange(at as int, body@.len() as int)),
                collected(any, data@),
            ),
            data_of(events@) == told.map_values(decode),
            decoded(told, events@),
        decreases body@.len() - at,
    {
        let ghost rest = body@.subrange(at as int, body@.len() as int);
        let ghost before = collected(any, data@);
        let next: usize = if body[end] == CARRIAGE_RETURN && end + 1 < body.len() && body[end + 1]
            == LINE_FEED {
            end + 2
        } else {
            end + 1
        };
        let ghost line = body@.subrange(at as int, end as int);
        let ghost after = body@.subrange(next as int, body@.len() as int);
        proof {
            assert(rest.subrange(0, end - at) =~= line);
            assert(rest.subrange(next - at, rest.len() as int) =~= after);
            assert(lines(rest) == seq![line] + lines(after));
            assert(lines(rest)[0] == line);
            assert(lines(rest).drop_first() =~= lines(after));
        }
        if end == at {
            if any {
                let text = decode_lossy(data.as_slice());
                let ghost before_data = data_of(events@);
                events.push(SseEvent { data: text });
                proof {
                    let tail = events_in(lines(after), None);
                    assert(told + (seq![data@] + tail) =~= told.push(data@) + tail);
                    assert(data_of(events@) =~= before_data.push(text@));
                    assert(told.push(data@).map_values(decode) =~= told.map_values(decode).push(
                        text@,
                    ));
                    told = told.push(data@);
                }
                data = Vec::new();
                any = false;
            }
        } else {
            match value_start(body, at, end) {
                Some(value) => {
                    if any {
                        data.push(LINE_FEED);
                    }
                    append(&mut data, body, value, end);
                    any = true;
                    assert(data@ =~= with_value(before, body@.subrange(value as int, end as int)));
                },
                None => {},
            }
        }
        at = next;
        end = line_end(body, at);
    }
    proof {
        let rest = body@.subrange(at as int, body@.len() as int);
        assert(lines(rest) =~= Seq::<Seq<u8>>::empty());
        assert(events_in(lines(rest), collected(any, data@)) =~= Seq::<Seq<u8>>::empty());
        assert(told =~= event_bytes(body@));
        assert(data_of(events@) =~= event_data(body@));
    }
    events
}

/// One line of data as an event: a `data` field and an empty line.
pub open spec fn framed(data: Seq<u8>) -> Seq<u8> {
    data_name() + seq![COLON, SPACE] + data + seq![LINE_FEED, LINE_FEED]
}

/// Lines of data as the events of a body.
pub open spec fn framed_all(all: Seq<Seq<u8>>) -> Seq<u8>
    decreases all.len(),
{
    if all.len() == 0 {
        Seq::empty()
    } else {
        framed(all[0]) + framed_all(all.drop_first())
    }
}

/// Whether the data fit one line.
pub open spec fn one_line(data: Seq<u8>) -> bool {
    forall|i: int| 0 <= i < data.len() ==> !ends_line(#[trigger] data[i])
}

/// The first line of a body, and the lines after it.
proof fn lines_unfold(bytes: Seq<u8>, length: int)
    requires
        0 <= length < bytes.len(),
        forall|i: int| 0 <= i < length ==> !ends_line(#[trigger] bytes[i]),
        bytes[length] == LINE_FEED,
    ensures
        lines(bytes) == seq![bytes.subrange(0, length)] + lines(
            bytes.subrange(length + 1, bytes.len() as int),
        ),
{
    line_length_is(bytes, length);
}

/// The lines of a framed event and of what follows it.
proof fn framed_lines(data: Seq<u8>, rest: Seq<u8>)
    requires
        one_line(data),
    ensures
        lines(framed(data) + rest) == seq![
            data_name() + seq![COLON, SPACE] + data,
            Seq::<u8>::empty(),
        ] + lines(rest),
{
    let line = data_name() + seq![COLON, SPACE] + data;
    let whole = framed(data) + rest;
    let end = line.len() as int;
    assert forall|i: int| 0 <= i < end implies !ends_line(#[trigger] whole[i]) by {
        if i >= 6 {
            assert(whole[i] == data[i - 6]);
        }
    }
    lines_unfold(whole, end);
    assert(whole.subrange(0, end) =~= line);
    let after = whole.subrange(end + 1, whole.len() as int);
    assert(after[0] == LINE_FEED);
    lines_unfold(after, 0);
    assert(after.subrange(0, 0) =~= Seq::<u8>::empty());
    assert(after.subrange(1, after.len() as int) =~= rest);
    assert(seq![line] + (seq![Seq::<u8>::empty()] + lines(rest)) =~= seq![
        line,
        Seq::<u8>::empty(),
    ] + lines(rest));
}

/// What is written as events is read back: every line of data, in order, and nothing else.
pub proof fn framed_events_are_read_back(all: Seq<Seq<u8>>)
    requires
        forall|i: int| 0 <= i < all.len() ==> one_line(#[trigger] all[i]),
    ensures
        event_bytes(framed_all(all)) == all,
{
    framed_events_in(all);
    let body = framed_all(all);
    if all.len() > 0 {
        assert(body[0] == 100);
    }
    assert(without_mark(body) == body);
}

/// Texts in UTF-8.
pub open spec fn encoded(texts: Seq<Seq<char>>) -> Seq<Seq<u8>> {
    texts.map_values(|text: Seq<char>| encode_utf8(text))
}

/// Texts that are written as events are read back: every text, in order, and nothing else.
pub proof fn framed_texts_are_read_back(
    texts: Seq<Seq<char>>,
    body: &[u8],
    events: Vec<SseEvent>,
)
    requires
        forall|i: int| 0 <= i < texts.len() ==> one_line(encode_utf8(#[trigger] texts[i])),
        body@ == framed_all(encoded(texts)),
        call_ensures(parse_sse_events, (body,), events),
    ensures
        data_of(events@) == texts,
{
    let bytes = encoded(texts);
    assert forall|i: int| 0 <= i < bytes.len() implies one_line(#[trigger] bytes[i]) by {
        assert(bytes[i] == encode_utf8(texts[i]));
    }
    framed_events_are_read_back(bytes);
    assert forall|i: int| 0 <= i < texts.len() implies #[trigger] data_of(events@)[i]
        == texts[i] by {
        encode_utf8_valid_utf8(texts[i]);
        encode_utf8_decode_utf8(texts[i]);
        assert(bytes[i] == encode_utf8(texts[i]));
        assert(events@[i].data@ == decode_utf8(bytes[i]));
    }
    assert(data_of(events@) =~= texts);
}

/// The events of framed data, without regard to a byte order mark.
proof fn framed_events_in(all: Seq<Seq<u8>>)
    requires
        forall|i: int| 0 <= i < all.len() ==> one_line(#[trigger] all[i]),
    ensures
        events_in(lines(framed_all(all)), None) == all,
    decreases all.len(),
{
    if all.len() == 0 {
        assert(lines(framed_all(all)) =~= Seq::<Seq<u8>>::empty());
        assert(events_in(lines(framed_all(all)), None) =~= all);
    } else {
        let rest = all.drop_first();
        assert forall|i: int| 0 <= i < rest.len() implies one_line(#[trigger] rest[i]) by {
            assert(rest[i] == all[i + 1]);
        }
        framed_events_in(rest);
        framed_lines(all[0], framed_all(rest));
        let line = data_name() + seq![COLON, SPACE] + all[0];
        let first = lines(framed_all(all));
        assert(first[0] == line);
        assert(line.subrange(0, 4) =~= data_name());
        assert(line.len() > 5 && line[4] == COLON && line[5] == SPACE);
        assert(line.subrange(6, line.len() as int) =~= all[0]);
        assert(data_value(line) == Some(all[0]));
        let second = first.drop_first();
        assert(second[0] =~= Seq::<u8>::empty());
        assert(second.drop_first() =~= lines(framed_all(rest)));
        assert(events_in(second, Some(all[0])) == seq![all[0]] + events_in(
            second.drop_first(),
            None,
        ));
        assert(seq![all[0]] + rest =~= all);
    }
}

} // verus!
