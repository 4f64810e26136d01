//! What the probe and its answer amount to.

use vstd::prelude::*;
use vstd::string::*;
use vstd::utf8::*;

use crate::egress::{
    address_in, checked_probe_url, grown, looked_up, probe_of, received, refresh_step,
    said_address, text_line_length_is, text_lines, trace_address, EgressState, RefreshAction,
    RefreshEvent, TraceBody, UrlTooLong, PROBE_TIMEOUT_SECONDS, REFRESH_INTERVAL_SECONDS,
};
use crate::text::trimmed;
use crate::web::{parsed_url, url_parts};

verus! {

broadcast use vstd::string::group_string_axioms;

/// Whether a text has no line feed.
pub open spec fn unbroken(text: Seq<char>) -> bool {
    forall|i: int| 0 <= i < text.len() ==> #[trigger] text[i] != '\n'
}

/// Whether a line says an address: it begins with `ip=`.
pub open spec fn prefixed(line: Seq<char>) -> bool {
    line.len() >= 3 && line.subrange(0, 3) == "ip="@
}

/// A base URL has a probe exactly when it is a URL with the scheme `http` or `https` and a host.
/// The probe keeps scheme, authority and host, has the path that answers and nothing behind it.
pub proof fn probes_are_made_of_the_base(base_url: Seq<char>)
    ensures
        probe_of(base_url) is Some <==> {
            &&& parsed_url(base_url) is Some
            &&& parsed_url(base_url)->0.scheme == "http"@ || parsed_url(base_url)->0.scheme
                == "https"@
            &&& parsed_url(base_url)->0.host is Some
        },
        probe_of(base_url) is Some ==> {
            let probe = probe_of(base_url)->0;
            let base = parsed_url(base_url)->0;
            &&& probe.scheme == base.scheme
            &&& probe.authority == base.authority
            &&& probe.host == base.host
            &&& probe.path == "/cdn-cgi/trace"@
            &&& probe.query is None
            &&& probe.fragment is None
        },
{
}

/// A probe is refused only where the end of its path, or of the path that it takes the place of,
/// has no position in 32 bits.
pub proof fn only_endless_urls_are_refused(
    base_url: &str,
    probe: Result<Option<url::Url>, UrlTooLong>,
)
    requires
        call_ensures(checked_probe_url, (base_url,), probe),
    ensures
        probe is Err <==> probe_of(base_url@) is Some && {
            let base = parsed_url(base_url@)->0;
            let origin = base.scheme.len() + 3 + base.authority.len();
            origin + base.path.len() > 4294967295 || origin + 14 > 4294967295
        },
        probe is Ok ==> (probe->Ok_0 is Some <==> probe_of(base_url@) is Some),
        probe is Ok && probe->Ok_0 is Some ==> url_parts(probe->Ok_0->0) == probe_of(base_url@)->0,
{
    reveal_strlit("://");
    reveal_strlit("/cdn-cgi/trace");
    assert("://"@.len() == 3 && "/cdn-cgi/trace"@.len() == 14);
}

/// A lookup is given up after three seconds, and another follows a minute later.
pub proof fn lookups_are_timed()
    ensures
        PROBE_TIMEOUT_SECONDS == 3,
        REFRESH_INTERVAL_SECONDS == 60,
{
}

/// A line ends with a line feed, or with a carriage return and a line feed, and the rest follows.
pub proof fn lines_are_split(line: Seq<char>, rest: Seq<char>)
    requires
        unbroken(line),
        line.len() == 0 || line[line.len() - 1] != '\r',
    ensures
        text_lines(line + seq!['\n'] + rest) == seq![line] + text_lines(rest),
        text_lines(line + seq!['\r', '\n'] + rest) == seq![line] + text_lines(rest),
{
    let plain = line + seq!['\n'] + rest;
    let end = line.len() as int;
    assert forall|i: int| 0 <= i < end implies #[trigger] plain[i] != '\n' by {
        assert(plain[i] == line[i]);
    }
    assert(plain[end] == '\n');
    text_line_length_is(plain, end);
    assert(plain.subrange(0, end) =~= line);
    assert(plain.subrange(end + 1, plain.len() as int) =~= rest);

    let marked = line + seq!['\r', '\n'] + rest;
    assert forall|i: int| 0 <= i < end + 1 implies #[trigger] marked[i] != '\n' by {
        if i < end {
            assert(marked[i] == line[i]);
        }
    }
    assert(marked[end + 1] == '\n');
    text_line_length_is(marked, end + 1);
    assert(marked.subrange(0, end + 1) =~= line.push('\r'));
    assert(line.push('\r').drop_last() =~= line);
    assert(marked.subrange(end + 2, marked.len() as int) =~= rest);
}

/// The last line needs no end, and an empty text has no line.
pub proof fn last_lines_need_no_end(line: Seq<char>)
    requires
        unbroken(line),
    ensures
        line.len() > 0 ==> text_lines(line) == seq![line],
        line.len() == 0 ==> text_lines(line).len() == 0,
{
    if line.len() > 0 {
        text_line_length_is(line, line.len() as int);
    }
}

/// What is said is what follows `ip=` on the first line that begins so; other lines are passed
/// over.
pub proof fn first_addresses_are_said(line: Seq<char>, rest: Seq<Seq<char>>)
    ensures
        prefixed(line) ==> said_address(seq![line] + rest) == Some(
            line.subrange(3, line.len() as int),
        ),
        !prefixed(line) ==> said_address(seq![line] + rest) == said_address(rest),
        said_address(Seq::empty()) is None,
{
    reveal_strlit("ip=");
    let all = seq![line] + rest;
    assert(all[0] == line);
    assert(all.drop_first() =~= rest);
    if line.len() >= 3 {
        let head = line.subrange(0, 3);
        assert(head[0] == line[0] && head[1] == line[1] && head[2] == line[2]);
        if line[0] == 'i' && line[1] == 'p' && line[2] == '=' {
            assert(head =~= "ip="@);
        }
    }
}

/// The address of an answer is what is said on its lines, without white space around it.
pub proof fn said_addresses_are_trimmed(body: Seq<char>)
    ensures
        said_address(text_lines(body)) is Some ==> trace_address(body) == Some(
            trimmed(said_address(text_lines(body))->0),
        ),
        said_address(text_lines(body)) is None ==> trace_address(body) is None,
{
}

/// An answer in bytes is read as the text that it encodes, and not at all where it encodes none.
pub proof fn answers_are_text(bytes: Seq<u8>)
    ensures
        valid_utf8(bytes) ==> address_in(bytes) == trace_address(decode_utf8(bytes)),
        !valid_utf8(bytes) ==> address_in(bytes) is None,
{
}

/// An answer takes another chunk behind what it has as long as it has no more than 4096 bytes.
pub proof fn answers_have_a_limit(taken: Seq<u8>, chunk: Seq<u8>)
    ensures
        taken.len() + chunk.len() <= 4096 ==> grown(taken, chunk) == Some(taken + chunk),
        taken.len() + chunk.len() > 4096 ==> grown(taken, chunk) is None,
{
}

/// A chunk is taken behind those before it as long as there are no more than 4096 bytes, and
/// otherwise nothing is.
pub proof fn chunks_are_taken_up_to_the_limit(body: &mut TraceBody, chunk: &[u8], taken: bool)
    requires
        call_ensures(TraceBody::push, (body, chunk), taken),
    ensures
        taken <==> old(body)@.len() + chunk@.len() <= 4096,
        taken ==> final(body)@ == old(body)@ + chunk@,
        !taken ==> final(body)@ == old(body)@,
{
}

/// The chunks of an answer are taken in order; one that is lost or too much ends it.
pub proof fn chunks_are_taken_in_order(
    taken: Seq<u8>,
    chunk: Option<Seq<u8>>,
    rest: Seq<Option<Seq<u8>>>,
)
    ensures
        received(taken, Seq::empty()) == Some(taken),
        chunk is None ==> received(taken, seq![chunk] + rest) is None,
        chunk is Some && taken.len() + chunk->0.len() > 4096 ==> received(
            taken,
            seq![chunk] + rest,
        ) is None,
        chunk is Some && taken.len() + chunk->0.len() <= 4096 ==> received(
            taken,
            seq![chunk] + rest,
        ) == received(taken + chunk->0, rest),
{
    let all = seq![chunk] + rest;
    assert(all[0] == chunk);
    assert(all.drop_first() =~= rest);
}

/// Only an answer with success is read.
pub proof fn only_successes_are_read(success: Option<bool>, chunks: Seq<Option<Seq<u8>>>)
    requires
        success != Some(true),
    ensures
        looked_up(success, chunks) is None,
{
}

/// What is reported and done: the start is reported and a probe built; without a probe the address
/// is unavailable and all ends; with one there is a lookup, whose outcome is reported; then a rest,
/// and another lookup.
pub proof fn refreshing_goes_on(event: RefreshEvent, step: (Option<EgressState>, RefreshAction))
    requires
        call_ensures(refresh_step, (event,), step),
    ensures
        event is Started ==> step.0 is Some && step.0->0 is Resolving && step.1
            == RefreshAction::BuildProbe,
        event == RefreshEvent::Built(true) ==> step.0 is None && step.1 == RefreshAction::LookUp,
        event == RefreshEvent::Built(false) ==> step.0 is Some && step.0->0 is Unavailable && step.1
            == RefreshAction::Stop,
        event matches RefreshEvent::LookedUp(Some(address)) ==> step.0 is Some
            && step.0->0 is Available && step.0->0->Available_0@ == address@ && step.1
            == RefreshAction::Rest,
        event == RefreshEvent::LookedUp(None) ==> step.0 is Some && step.0->0 is Unavailable
            && step.1 == RefreshAction::Rest,
        event is Rested ==> step.0 is None && step.1 == RefreshAction::LookUp,
{
    if step.0 is Some {
        assert(step.0->0@ is Resolving || step.0->0@ is Available || step.0->0@ is Unavailable);
    }
}

} // verus!
