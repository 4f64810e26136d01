//! The egress address of the proxy: where to ask for it, how to read the answer, and what to
//! report while it is kept up to date.

use vstd::prelude::*;
use vstd::string::*;
use vstd::utf8::*;

use crate::json::chars_of;
use crate::text::{characters, decode, same_text, trim, trimmed};
use crate::web::{
    clear_url_fragment, clear_url_query, origin_text, parse_url, parsed_url, plain_host, plain_path,
    plain_writing, set_url_path, url_host, url_parts, url_path, url_scheme, url_text, web, web_text,
    UrlParts,
};

verus! {

broadcast use vstd::string::group_string_axioms;

/// The number of seconds between two lookups.
pub const REFRESH_INTERVAL_SECONDS: u64 = 60;

/// The number of seconds after which a lookup is given up.
pub const PROBE_TIMEOUT_SECONDS: u64 = 3;

/// The largest answer that is read.
pub const MAX_TRACE_BODY_BYTES: usize = 4096;

/// The last position in a URL at which a path can end.
pub const MAX_URL_LENGTH: usize = 4294967295;

/// The path that answers with the address of who asks.
pub open spec fn trace_path() -> Seq<char> {
    "/cdn-cgi/trace"@
}

/// Whether the parts are those of a place that can be asked.
pub open spec fn askable(parts: UrlParts) -> bool {
    web(parts) && parts.host is Some
}

/// The parts of the probe: those of the place, with the path that answers and nothing behind it.
pub open spec fn probe_parts(parts: UrlParts) -> UrlParts {
    UrlParts { path: trace_path(), query: None, fragment: None, ..parts }
}

/// The parts of the probe that belongs to a base URL, if that names a place that can be asked.
pub open spec fn probe_of(base_url: Seq<char>) -> Option<UrlParts> {
    match parsed_url(base_url) {
        Some(parts) => if askable(parts) {
            Some(probe_parts(parts))
        } else {
            None
        },
        None => None,
    }
}

/// Whether the end of a path behind the origin has a position that a URL can hold.
pub open spec fn path_fits(parts: UrlParts, path: Seq<char>) -> bool {
    origin_text(parts).len() + path.len() <= MAX_URL_LENGTH
}

/// Whether the path of the URL that a text says can be exchanged for that of the probe.
pub open spec fn probe_fits(base_url: Seq<char>) -> bool {
    match parsed_url(base_url) {
        Some(parts) => askable(parts) ==> path_fits(parts, parts.path) && path_fits(
            parts,
            trace_path(),
        ),
        None => true,
    }
}

/// The path of the probe stands in a URL as it is.
proof fn trace_path_is_plain()
    ensures
        plain_path(trace_path()),
        trace_path().len() == 14,
{
    reveal_strlit("/cdn-cgi/trace");
    let path = trace_path();
    assert(path.len() == 14);
    assert(path =~= seq!['/', 'c', 'd', 'n', '-', 'c', 'g', 'i', '/', 't', 'r', 'a', 'c', 'e']);
}

/// Whether a URL names a place that can be asked.
fn can_be_asked(url: &url::Url) -> (yes: bool)
    ensures
        yes == askable(url_parts(*url)),
{
    (same_text(url_scheme(url), "http") || same_text(url_scheme(url), "https")) && url_host(
        url,
    ).is_some()
}

/// Whether the probe of a base URL is known to read back as it is: its host has no
/// internationalised label, or the base URL is plain already.
pub open spec fn settled(base_url: Seq<char>) -> bool {
    probe_of(base_url) is Some && (plain_host(probe_of(base_url)->0) || plain_writing(base_url))
}

/// The probe that belongs to a base URL, if that names a place on the web. The probe of a probe is
/// the same, where it is known to read back.
pub fn probe_url(base_url: &str) -> (probe: Option<url::Url>)
    requires
        probe_fits(base_url@),
    ensures
        probe is Some <==> probe_of(base_url@) is Some,
        probe is Some ==> probe_of(base_url@) == Some(url_parts(probe->0)),
        settled(base_url@) ==> probe_of(web_text(url_parts(probe->0))) == Some(url_parts(probe->0)),
{
    let mut url = match parse_url(base_url) {
        Ok(url) => url,
        Err(_) => {
            return None;
        },
    };
    if !can_be_asked(&url) {
        return None;
    }
    proof {
        trace_path_is_plain();
    }
    // What stands behind the path goes first, so that no position behind it has to be moved.
    clear_url_fragment(&mut url);
    clear_url_query(&mut url);
    set_url_path(&mut url, "/cdn-cgi/trace");
    assert(web_text(url_parts(url)) =~= origin_text(url_parts(url)) + trace_path());
    Some(url)
}

/// A URL that is too long for its path to be exchanged.
#[derive(Debug, Clone, Copy, PartialEq, Eq)]
pub struct UrlTooLong;

/// The probe that belongs to a base URL, or an error where the URL is too long for its path to be
/// exchanged.
pub fn checked_probe_url(base_url: &str) -> (probe: Result<Option<url::Url>, UrlTooLong>)
    ensures
        probe is Ok <==> probe_fits(base_url@),
        probe is Ok ==> {
            &&& probe->Ok_0 is Some <==> probe_of(base_url@) is Some
            &&& probe->Ok_0 is Some ==> probe_of(base_url@) == Some(url_parts(probe->Ok_0->0))
            &&& settled(base_url@) ==> probe_of(web_text(url_parts(probe->Ok_0->0))) == Some(
                url_parts(probe->Ok_0->0),
            )
        },
{
    proof {
        trace_path_is_plain();
    }
    match parse_url(base_url) {
        Ok(parsed) => {
            let mut url = parsed;
            if can_be_asked(&url) {
                clear_url_fragment(&mut url);
                clear_url_query(&mut url);
                let end: usize = url_text(&url).unicode_len();
                let path: usize = url_path(&url).unicode_len();
                assert(web_text(url_parts(url)) =~= origin_text(url_parts(url)) + url_parts(
                    url,
                ).path);
                if end > MAX_URL_LENGTH || end - path > MAX_URL_LENGTH - 14 {
                    return Err(UrlTooLong);
                }
            }
        },
        Err(_) => {},
    }
    Ok(probe_url(base_url))
}

/// The length of the first line of a text.
pub open spec fn text_line_length(text: Seq<char>) -> nat
    decreases text.len(),
{
    if text.len() == 0 || text[0] == '\n' {
        0
    } else {
        1 + text_line_length(text.drop_first())
    }
}

/// A line without the carriage return in front of its line feed.
pub open spec fn without_return(line: Seq<char>) -> Seq<char> {
    if line.len() > 0 && line.last() == '\r' {
        line.drop_last()
    } else {
        line
    }
}

/// The lines of a text. A line ends with a line feed, or with a carriage return and a line feed;
/// the last line needs no end.
pub open spec fn text_lines(text: Seq<char>) -> Seq<Seq<char>>
    decreases text.len(),
{
    let end = text_line_length(text) as int;
    if text.len() == 0 {
        Seq::empty()
    } else if end < text.len() {
        seq![without_return(text.subrange(0, end))] + text_lines(
            text.subrange(end + 1, text.len() as int),
        )
    } else {
        seq![text]
    }
}

/// Whether a line says the address.
pub open spec fn says_address(line: Seq<char>) -> bool {
    line.len() >= 3 && line[0] == 'i' && line[1] == 'p' && line[2] == '='
}

/// What the first line that says the address says.
pub open spec fn said_address(lines: Seq<Seq<char>>) -> Option<Seq<char>>
    decreases lines.len(),
{
    if lines.len() == 0 {
        None
    } else if says_address(lines[0]) {
        Some(lines[0].subrange(3, lines[0].len() as int))
    } else {
        said_address(lines.drop_first())
    }
}

/// The address in the answer to a probe, as it is written there, without white space around it.
pub open spec fn trace_address(body: Seq<char>) -> Option<Seq<char>> {
    match said_address(text_lines(body)) {
        Some(said) => Some(trimmed(said)),
        None => None,
    }
}

/// A line is as long as the run of characters in front of the first line feed.
pub(crate) proof fn text_line_length_is(text: Seq<char>, length: int)
    requires
        0 <= length <= text.len(),
        forall|i: int| 0 <= i < length ==> #[trigger] text[i] != '\n',
        length < text.len() ==> text[length] == '\n',
    ensures
        text_line_length(text) == length,
    decreases length,
{
    if length > 0 {
        let rest = text.drop_first();
        assert(text[0] != '\n');
        assert forall|i: int| 0 <= i < length - 1 implies #[trigger] rest[i] != '\n' by {
            assert(rest[i] == text[i + 1]);
        }
        text_line_length_is(rest, length - 1);
    }
}

/// The address in the answer to a probe, as it is written there, without white space around it.
/// Whether it is an address is for the caller to find out.
pub fn trace_ip_text(body: &str) -> (address: Option<&str>)
    ensures
        chars_of(address) == trace_address(body@),
{
    let chars = characters(body);
    let ghost all = body@;
    let mut at: usize = 0;
    assert(all.subrange(0, all.len() as int) =~= all);
    while at < chars.len()
        invariant
            at <= chars.len(),
            chars@ == all,
            all == body@,
            said_address(text_lines(all)) == said_address(
                text_lines(all.subrange(at as int, all.len() as int)),
            ),
        decreases chars.len() - at,
    {
        let ghost rest = all.subrange(at as int, all.len() as int);
        let mut end: usize = at;
        while end < chars.len() && chars[end] != '\n'
            invariant
                at <= end <= chars.len(),
                chars@ == all,
                forall|i: int| at <= i < end ==> #[trigger] all[i] != '\n',
            decreases chars.len() - end,
        {
            end += 1;
        }
        proof {
            assert forall|i: int| 0 <= i < end - at implies #[trigger] rest[i] != '\n' by {
                assert(rest[i] == all[at + i]);
            }
            text_line_length_is(rest, end - at);
        }
        let mut stop: usize = end;
        if end < chars.len() && end > at && chars[end - 1] == '\r' {
            stop = end - 1;
        }
        let ghost line = all.subrange(at as int, stop as int);
        proof {
            if end < chars.len() {
                let after = all.subrange(end + 1, all.len() as int);
                assert(rest.subrange(0, end - at) =~= all.subrange(at as int, end as int));
                assert(without_return(rest.subrange(0, end - at)) =~= line);
                assert(rest.subrange(end - at + 1, rest.len() as int) =~= after);
                assert(text_lines(rest) == seq![line] + text_lines(after));
                assert(text_lines(rest).drop_first() =~= text_lines(after));
            } else {
                assert(rest =~= line);
                assert(text_lines(rest) == seq![line]);
                assert(text_lines(rest).drop_first() =~= Seq::<Seq<char>>::empty());
            }
            assert(text_lines(rest)[0] == line);
        }
        if stop - at >= 3 && chars[at] == 'i' && chars[at + 1] == 'p' && chars[at + 2] == '=' {
            assert(line.subrange(3, line.len() as int) =~= all.subrange(at + 3, stop as int));
            return Some(trim(body.substring_char(at + 3, stop)));
        }
        if end < chars.len() {
            at = end + 1;
        } else {
            at = end;
            assert(all.subrange(at as int, all.len() as int) =~= Seq::<char>::empty());
        }
    }
    assert(all.subrange(at as int, all.len() as int) =~= Seq::<char>::empty());
    None
}

/// The address in the answer to a probe, in the form that `read_address` gives it. That is asked
/// for the text of the first line that says an address, and what it does not take for one is none.
pub fn parse_trace_ip<F: Fn(&str) -> Option<String>>(body: &str, read_address: F) -> (address:
    Option<String>)
    requires
        forall|said: &str| call_requires(read_address, (said,)),
    ensures
        trace_address(body@) is None ==> address is None,
        trace_address(body@) is Some ==> exists|said: &str|
            said@ == trace_address(body@)->0 && #[trigger] call_ensures(
                read_address,
                (said,),
                address,
            ),
{
    match trace_ip_text(body) {
        Some(said) => read_address(said),
        None => None,
    }
}

/// An answer with one chunk more, as long as it does not become too large.
pub open spec fn grown(taken: Seq<u8>, chunk: Seq<u8>) -> Option<Seq<u8>> {
    if taken.len() + chunk.len() <= MAX_TRACE_BODY_BYTES {
        Some(taken + chunk)
    } else {
        None
    }
}

/// The address in an answer, as it is written there. An answer that is no text has none.
pub open spec fn address_in(bytes: Seq<u8>) -> Option<Seq<char>> {
    if valid_utf8(bytes) {
        trace_address(decode_utf8(bytes))
    } else {
        None
    }
}

/// An answer after a row of chunks, taken one by one. It is given up with the first chunk that is
/// lost or makes it too large.
pub open spec fn received(taken: Seq<u8>, chunks: Seq<Option<Seq<u8>>>) -> Option<Seq<u8>>
    decreases chunks.len(),
{
    if chunks.len() == 0 {
        Some(taken)
    } else {
        match chunks[0] {
            Some(chunk) => match grown(taken, chunk) {
                Some(bytes) => received(bytes, chunks.drop_first()),
                None => None,
            },
            None => None,
        }
    }
}

/// The address that a lookup finds, as it is written in the answer. `success` is missing where no
/// answer came, and says of an answer whether its status is one of success.
pub open spec fn looked_up(success: Option<bool>, chunks: Seq<Option<Seq<u8>>>) -> Option<
    Seq<char>,
> {
    if success == Some(true) {
        match received(Seq::empty(), chunks) {
            Some(bytes) => address_in(bytes),
            None => None,
        }
    } else {
        None
    }
}

/// The answer to a probe, as far as it has arrived.
#[derive(Debug)]
pub struct TraceBody {
    bytes: Vec<u8>,
}

impl View for TraceBody {
    type V = Seq<u8>;

    closed spec fn view(&self) -> Seq<u8> {
        self.bytes@
    }
}

impl TraceBody {
    /// An answer of which nothing has arrived. An answer without success is not read.
    pub fn open(success: bool) -> (body: Option<TraceBody>)
        ensures
            body is Some <==> success,
            body is Some ==> body->0@ == Seq::<u8>::empty(),
    {
        if success {
            Some(TraceBody { bytes: Vec::new() })
        } else {
            None
        }
    }

    /// Takes over what has arrived, as long as the answer does not become too large.
    pub fn push(&mut self, chunk: &[u8]) -> (taken: bool)
        ensures
            taken == (grown(old(self)@, chunk@) is Some),
            taken ==> grown(old(self)@, chunk@) == Some(final(self)@),
            !taken ==> final(self)@ == old(self)@,
    {
        if self.bytes.len() > MAX_TRACE_BODY_BYTES || chunk.len() > MAX_TRACE_BODY_BYTES
            - self.bytes.len() {
            return false;
        }
        let mut i: usize = 0;
        while i < chunk.len()
            invariant
                i <= chunk@.len(),
                self.bytes@ == old(self).bytes@ + chunk@.take(i as int),
            decreases chunk@.len() - i,
        {
            self.bytes.push(chunk[i]);
            assert(chunk@.take(i + 1) =~= chunk@.take(i as int).push(chunk@[i as int]));
            i += 1;
        }
        assert(chunk@.take(chunk@.len() as int) =~= chunk@);
        true
    }

    /// The address in the answer, in the form that `read_address` gives it. An answer that is no
    /// text has none.
    pub fn address<F: Fn(&str) -> Option<String>>(&self, read_address: F) -> (address: Option<
        String,
    >)
        requires
            forall|said: &str| call_requires(read_address, (said,)),
        ensures
            address_in(self@) is None ==> address is None,
            address_in(self@) is Some ==> exists|said: &str|
                said@ == address_in(self@)->0 && #[trigger] call_ensures(
                    read_address,
                    (said,),
                    address,
                ),
    {
        match decode(self.bytes.as_slice()) {
            Some(text) => parse_trace_ip(text, read_address),
            None => None,
        }
    }
}

/// What is known of the egress address.
#[derive(Debug, Clone, PartialEq, Eq)]
pub enum EgressState {
    Resolving,
    Available(String),
    Unavailable,
}

/// What an `EgressState` stands for.
pub enum Egress {
    Resolving,
    Available(Seq<char>),
    Unavailable,
}

impl View for EgressState {
    type V = Egress;

    open spec fn view(&self) -> Egress {
        match self {
            EgressState::Resolving => Egress::Resolving,
            EgressState::Available(address) => Egress::Available(address@),
            EgressState::Unavailable => Egress::Unavailable,
        }
    }
}

/// What has happened while the address is kept up to date.
#[derive(Debug, Clone, PartialEq, Eq)]
pub enum RefreshEvent {
    Started,
    /// The probe was to be built; whether it could be.
    Built(bool),
    /// The address was looked up; what came of it.
    LookedUp(Option<String>),
    /// The interval between two lookups is over.
    Rested,
}

/// What to do next while the address is kept up to date.
#[derive(Debug, Clone, Copy, PartialEq, Eq, Structural)]
pub enum RefreshAction {
    BuildProbe,
    LookUp,
    Rest,
    Stop,
}

/// What to report on an event, if anything.
pub open spec fn report_on(event: RefreshEvent) -> Option<Egress> {
    match event {
        RefreshEvent::Started => Some(Egress::Resolving),
        RefreshEvent::Built(built) => if built {
            None
        } else {
            Some(Egress::Unavailable)
        },
        RefreshEvent::LookedUp(Some(address)) => Some(Egress::Available(address@)),
        RefreshEvent::LookedUp(None) => Some(Egress::Unavailable),
        RefreshEvent::Rested => None,
    }
}

/// What to do after an event.
pub open spec fn action_after(event: RefreshEvent) -> RefreshAction {
    match event {
        RefreshEvent::Started => RefreshAction::BuildProbe,
        RefreshEvent::Built(built) => if built {
            RefreshAction::LookUp
        } else {
            RefreshAction::Stop
        },
        RefreshEvent::LookedUp(_) => RefreshAction::Rest,
        RefreshEvent::Rested => RefreshAction::LookUp,
    }
}

/// What a report that may be missing stands for.
pub open spec fn report_view(report: Option<EgressState>) -> Option<Egress> {
    match report {
        Some(report) => Some(report@),
        None => None,
    }
}

/// What to report on an event, and what to do next.
pub fn refresh_step(event: RefreshEvent) -> (step: (Option<EgressState>, RefreshAction))
    ensures
        report_view(step.0) == report_on(event),
        step.1 == action_after(event),
{
    match event {
        RefreshEvent::Started => (Some(EgressState::Resolving), RefreshAction::BuildProbe),
        RefreshEvent::Built(built) => if built {
            (None, RefreshAction::LookUp)
        } else {
            (Some(EgressState::Unavailable), RefreshAction::Stop)
        },
        RefreshEvent::LookedUp(Some(address)) => (
            Some(EgressState::Available(address)),
            RefreshAction::Rest,
        ),
        RefreshEvent::LookedUp(None) => (Some(EgressState::Unavailable), RefreshAction::Rest),
        RefreshEvent::Rested => (None, RefreshAction::LookUp),
    }
}

} // verus!
