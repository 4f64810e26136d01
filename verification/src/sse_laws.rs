//! What the lines of a body and its events amount to.

use vstd::prelude::*;
use vstd::utf8::*;

use crate::sse::{
    data_of, data_value, event_bytes, event_data, events_in, line_length_is, lines,
    parse_sse_events, SseEvent,
};
use crate::text::lossy_text;

verus! {

/// Whether bytes hold neither a line feed nor a carriage return.
pub open spec fn unbroken(bytes: Seq<u8>) -> bool {
    forall|i: int| 0 <= i < bytes.len() ==> #[trigger] bytes[i] != 10 && bytes[i] != 13
}

/// The bytes of the word `data`.
pub open spec fn data_word() -> Seq<u8> {
    seq![100u8, 97u8, 116u8, 97u8]
}

/// A line ends with a line feed, with a carriage return and a line feed, or with a carriage return
/// alone.
pub proof fn lines_are_split(line: Seq<u8>, rest: Seq<u8>)
    requires
        unbroken(line),
    ensures
        lines(line + seq![10u8] + rest) == seq![line] + lines(rest),
        lines(line + seq![13u8, 10u8] + rest) == seq![line] + lines(rest),
        rest.len() == 0 || rest[0] != 10 ==> lines(line + seq![13u8] + rest) == seq![line] + lines(
            rest,
        ),
{
    let end = line.len() as int;

    let fed = line + seq![10u8] + rest;
    assert forall|i: int| 0 <= i < end implies !crate::sse::ends_line(#[trigger] fed[i]) by {
        assert(fed[i] == line[i]);
    }
    assert(fed[end] == 10);
    line_length_is(fed, end);
    assert(fed.subrange(0, end) =~= line);
    assert(fed.subrange(end + 1, fed.len() as int) =~= rest);

    let both = line + seq![13u8, 10u8] + rest;
    assert forall|i: int| 0 <= i < end implies !crate::sse::ends_line(#[trigger] both[i]) by {
        assert(both[i] == line[i]);
    }
    assert(both[end] == 13 && both[end + 1] == 10);
    line_length_is(both, end);
    assert(both.subrange(0, end) =~= line);
    assert(both.subrange(end + 2, both.len() as int) =~= rest);

    if rest.len() == 0 || rest[0] != 10 {
        let returned = line + seq![13u8] + rest;
        assert forall|i: int| 0 <= i < end implies !crate::sse::ends_line(
            #[trigger] returned[i],
        ) by {
            assert(returned[i] == line[i]);
        }
        assert(returned[end] == 13);
        if rest.len() > 0 {
            assert(returned[end + 1] == rest[0]);
        }
        line_length_is(returned, end);
        assert(returned.subrange(0, end) =~= line);
        assert(returned.subrange(end + 1, returned.len() as int) =~= rest);
    }
}

/// What has no end is no line.
pub proof fn lines_need_an_end(bytes: Seq<u8>)
    requires
        unbroken(bytes),
    ensures
        lines(bytes).len() == 0,
{
    assert forall|i: int| 0 <= i < bytes.len() implies !crate::sse::ends_line(
        #[trigger] bytes[i],
    ) by {}
    line_length_is(bytes, bytes.len() as int);
}

/// The value of a `data` field is what follows its colon, without one space in front of it; a
/// field without a colon has an empty value.
pub proof fn data_fields_have_values(value: Seq<u8>)
    ensures
        data_value(data_word()) == Some(Seq::<u8>::empty()),
        data_value(data_word() + seq![58u8, 32u8] + value) == Some(value),
        value.len() == 0 || value[0] != 32 ==> data_value(data_word() + seq![58u8] + value) == Some(
            value,
        ),
{
    let word = data_word();
    assert(word =~= crate::sse::data_name());
    let spaced = word + seq![58u8, 32u8] + value;
    assert(spaced.subrange(0, 4) =~= word);
    assert(spaced[4] == 58 && spaced[5] == 32);
    assert(spaced.subrange(6, spaced.len() as int) =~= value);
    assert(spaced != word) by {
        assert(spaced.len() > 4);
    }
    let plain = word + seq![58u8] + value;
    assert(plain.subrange(0, 4) =~= word);
    assert(plain[4] == 58);
    assert(plain.len() > 4);
    if value.len() > 0 {
        assert(plain[5] == value[0]);
    }
    assert(plain.subrange(5, plain.len() as int) =~= value);
}

/// A line that is neither the word `data` nor begins with it and a colon has no value.
pub proof fn other_lines_have_no_value(line: Seq<u8>)
    requires
        line != data_word(),
        line.len() < 5 || line.subrange(0, 5) != data_word().push(58u8),
    ensures
        data_value(line) is None,
{
    assert(data_word() =~= crate::sse::data_name());
    if line.len() > 4 && line.subrange(0, 4) == data_word() && line[4] == 58 {
        assert(line.subrange(0, 5) =~= line.subrange(0, 4).push(line[4]));
    }
}

/// The lines up to an empty one form an event: the values of its `data` fields, one below the
/// other. Other lines are passed over, and an event without a `data` field is none.
pub proof fn lines_form_events(line: Seq<u8>, rest: Seq<Seq<u8>>, so_far: Option<Seq<u8>>)
    ensures
        events_in(Seq::empty(), so_far).len() == 0,
        line.len() == 0 && so_far is Some ==> events_in(seq![line] + rest, so_far) == seq![
            so_far->0,
        ] + events_in(rest, None),
        line.len() == 0 && so_far is None ==> events_in(seq![line] + rest, so_far) == events_in(
            rest,
            None,
        ),
        line.len() > 0 && data_value(line) is None ==> events_in(seq![line] + rest, so_far)
            == events_in(rest, so_far),
        line.len() > 0 && data_value(line) is Some && so_far is None ==> events_in(
            seq![line] + rest,
            so_far,
        ) == events_in(rest, data_value(line)),
        line.len() > 0 && data_value(line) is Some && so_far is Some ==> events_in(
            seq![line] + rest,
            so_far,
        ) == events_in(rest, Some(so_far->0 + seq![10u8] + data_value(line)->0)),
{
    let all = seq![line] + rest;
    assert(all[0] == line);
    assert(all.drop_first() =~= rest);
    if so_far is Some && data_value(line) is Some {
        assert(so_far->0.push(10u8) + data_value(line)->0 =~= so_far->0 + seq![10u8] + data_value(
            line,
        )->0);
    }
}

/// The events of a body are those of its lines, and a byte order mark in front does not matter.
pub proof fn marks_do_not_matter(body: Seq<u8>)
    ensures
        event_bytes(seq![239u8, 187u8, 191u8] + body) == events_in(lines(body), None),
        !(body.len() >= 3 && body.subrange(0, 3) == seq![239u8, 187u8, 191u8]) ==> event_bytes(body)
            == events_in(lines(body), None),
{
    let marked = seq![239u8, 187u8, 191u8] + body;
    assert(marked[0] == 239 && marked[1] == 187 && marked[2] == 191);
    assert(marked.subrange(3, marked.len() as int) =~= body);
    if body.len() >= 3 && body[0] == 239 && body[1] == 187 && body[2] == 191 {
        assert(body.subrange(0, 3) =~= seq![239u8, 187u8, 191u8]);
    }
}

/// There is one text for each event of a body, in the same order: what its bytes encode, with
/// replacements only where they are ill-formed.
pub proof fn events_have_texts(body: &[u8], events: Vec<SseEvent>)
    requires
        call_ensures(parse_sse_events, (body,), events),
    ensures
        events@.len() == event_bytes(body@).len(),
        event_data(body@).len() == events@.len(),
        forall|i: int|
            0 <= i < events@.len() ==> (#[trigger] events@[i]).data@ == event_data(body@)[i],
        forall|i: int|
            0 <= i < events@.len() ==> (#[trigger] events@[i]).data@ == lossy_text(
                event_bytes(body@)[i],
            ),
        forall|i: int|
            0 <= i < events@.len() && valid_utf8(event_bytes(body@)[i]) ==> (
            #[trigger] events@[i]).data@ == decode_utf8(event_bytes(body@)[i]),
{
    assert forall|i: int| 0 <= i < events@.len() implies (#[trigger] events@[i]).data@
        == event_data(body@)[i] by {
        assert(data_of(events@)[i] == events@[i].data@);
    }
}

} // verus!
