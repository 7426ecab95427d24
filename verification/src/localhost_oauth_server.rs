//! The redirect-capture listener: code extraction from the raw request, the
//! reply shown to the browser, and the decisions of the polling accept loop.
//!
//! The socket itself lives with the caller.  It reports each poll here as a
//! [`PollEvent`] and performs the [`PollAction`] it gets back, so everything
//! the listener decides is checked while the I/O stays outside.

use vstd::prelude::*;
use vstd::string::StrSliceExecFns;
use vstd::string::StringExecFns;

use crate::search::chars_vec;
use crate::search::contains_pat;
use crate::search::find_char_between;
use crate::search::find_first_from;
use crate::search::find_last;
use crate::search::lemma_find_char_between_props;
use crate::search::lemma_find_char_between_unique;
use crate::search::lemma_find_first_from_props;
use crate::search::lemma_find_first_unique;
use crate::search::lemma_find_last_props;
use crate::search::lemma_find_last_unique;
use crate::search::match_at;
use crate::search::spec_find_char_between;
use crate::search::spec_find_first_from;
use crate::search::spec_find_last;

verus! {

/// How long the accept loop sleeps after an empty poll, in nanoseconds:
/// short enough that the browser's redirect is answered promptly, long
/// enough that the loop never busy-spins.
pub const POLL_DELAY_NS: u32 = 50000;

/// The query marker in front of the authorization code.
pub open spec fn code_marker() -> Seq<char> {
    seq!['c', 'o', 'd', 'e', '=']
}

/// The HTTP version token that ends the request line.
pub open spec fn http_marker() -> Seq<char> {
    seq![' ', 'H', 'T', 'T', 'P', '/', '1', '.', '1']
}

/// What `String::from_utf8_lossy` decodes the given bytes to.
pub uninterp spec fn utf8_lossy(bytes: Seq<u8>) -> Seq<char>;

/// Relies on `String::from_utf8_lossy`: the decoding is a function of the
/// bytes alone, and on valid UTF-8 input it is exactly the UTF-8 decoding.
#[verifier::external_body]
fn decode_utf8_lossy(bytes: &Vec<u8>) -> (r: String)
    ensures
        r@ == utf8_lossy(bytes@),
        vstd::utf8::valid_utf8(bytes@) ==> r@ == vstd::utf8::decode_utf8(bytes@),
{
    String::from_utf8_lossy(bytes.as_slice()).into_owned()
}

/// The code carried by a request, if any: everything after the last `code=`,
/// cut at the first following HTTP version token, then cut at the first `&`,
/// and only if what is left is non-empty.
pub open spec fn extraction(s: Seq<char>) -> Option<Seq<char>> {
    match spec_find_last(s, code_marker()) {
        None => None,
        Some(i) => {
            let start = i + code_marker().len();
            match spec_find_first_from(s, http_marker(), start) {
                None => None,
                Some(j) => {
                    let end = match spec_find_char_between(s, '&', start, j) {
                        Some(k) => k,
                        None => j,
                    };
                    if start < end {
                        Some(s.subrange(start, end))
                    } else {
                        None
                    }
                },
            }
        },
    }
}

/// The characters of `code=`, for the searches.
fn code_marker_vec() -> (v: Vec<char>)
    ensures
        v@ == code_marker(),
{
    let mut v: Vec<char> = Vec::new();
    v.push('c');
    v.push('o');
    v.push('d');
    v.push('e');
    v.push('=');
    assert(v@ =~= code_marker());
    v
}

/// The characters of the HTTP version token, for the searches.
fn http_marker_vec() -> (v: Vec<char>)
    ensures
        v@ == http_marker(),
{
    let mut v: Vec<char> = Vec::new();
    v.push(' ');
    v.push('H');
    v.push('T');
    v.push('T');
    v.push('P');
    v.push('/');
    v.push('1');
    v.push('.');
    v.push('1');
    assert(v@ =~= http_marker());
    v
}

/// Pulls the authorization code out of a decoded request, exactly as
/// [`extraction`] describes.
pub fn extract_code(raw_request: String) -> (r: Option<String>)
    ensures
        r matches Some(code) ==> extraction(raw_request@) == Some(code@),
        r is None ==> extraction(raw_request@) is None,
{
    let s = chars_vec(raw_request.as_str());
    // Binds the length once so every later index stays within machine range.
    let _request_len: usize = s.len();
    let code_pat = code_marker_vec();
    let http_pat = http_marker_vec();
    match find_last(&s, &code_pat) {
        None => None,
        Some(i) => {
            proof {
                lemma_find_last_props(s@, code_marker());
            }
            let start = i + 5;
            match find_first_from(&s, &http_pat, start) {
                None => None,
                Some(j) => {
                    proof {
                        lemma_find_first_from_props(s@, http_marker(), start as int);
                    }
                    let end = match find_char_between(&s, '&', start, j) {
                        Some(k) => {
                            proof {
                                lemma_find_char_between_props(s@, '&', start as int, j as int);
                            }
                            k
                        },
                        None => j,
                    };
                    if start < end {
                        let sub = raw_request.as_str().substring_char(start, end);
                        Some(String::from_str(sub))
                    } else {
                        None
                    }
                },
            }
        },
    }
}

/// A request without the `code=` marker never yields a code.
pub proof fn lemma_no_marker_no_code(s: Seq<char>)
    requires
        !contains_pat(s, code_marker()),
    ensures
        extraction(s) is None,
{
    lemma_find_last_props(s, code_marker());
    if spec_find_last(s, code_marker()) matches Some(j) {
        assert(contains_pat(s, code_marker()));
    }
}

/// An extracted code is never the empty string.
pub proof fn lemma_extraction_never_empty(s: Seq<char>)
    ensures
        extraction(s) matches Some(code) ==> code.len() > 0,
{
    lemma_find_last_props(s, code_marker());
    match spec_find_last(s, code_marker()) {
        None => {},
        Some(i) => {
            let start = i + code_marker().len();
            lemma_find_first_from_props(s, http_marker(), start);
            match spec_find_first_from(s, http_marker(), start) {
                None => {},
                Some(j) => {
                    lemma_find_char_between_props(s, '&', start, j);
                },
            }
        },
    }
}

/// The minimal reply the browser is shown when a code was captured.
pub open spec fn ok_response() -> Seq<char> {
    "HTTP/1.1 200 OK\r\n\r\n200 OK"@
}

/// The minimal reply for a connection that carried no usable code.
pub open spec fn unauthorized_response() -> Seq<char> {
    "HTTP/1.1 401 Unauthorized\r\n\r\n401 Unauthorized"@
}

/// The reply written back on a captured code.
pub fn ok_response_text() -> (r: String)
    ensures
        r@ == ok_response(),
{
    String::from_str("HTTP/1.1 200 OK\r\n\r\n200 OK")
}

/// The reply written back on a connection without a code.
pub fn unauthorized_response_text() -> (r: String)
    ensures
        r@ == unauthorized_response(),
{
    String::from_str("HTTP/1.1 401 Unauthorized\r\n\r\n401 Unauthorized")
}

/// What the cancellation channel showed when a poll found no connection:
/// a pending signal, nothing yet, or a sender that is gone.
#[derive(Debug, Clone, Copy, PartialEq, Eq, Structural)]
pub enum CancelSignal {
    Pending,
    Empty,
    Disconnected,
}

/// One observation of the listening socket, as the I/O loop reports it.
#[derive(Debug)]
pub enum PollEvent {
    /// A connection arrived and these request bytes were read from it.
    Connection(Vec<u8>),
    /// No connection was pending; the cancellation channel looked like this.
    NoConnection(CancelSignal),
    /// The socket itself failed.
    SocketError,
}

/// What the I/O loop must do with the observation it reported.
#[derive(Debug)]
pub enum PollAction {
    /// Write `response` to the connection, hand `code` to the flow, and tear
    /// the listener down.
    CaptureCode { code: String, response: String },
    /// Write `response` to the connection and keep listening: one bad
    /// connection does not end the capture attempt.
    Reject { response: String },
    /// Sleep for the poll interval, then poll again.
    WaitRetry,
    /// Tear the listener down; the flow sees `AuthServerClosedEarly`.
    CloseEarly,
}

/// True when the event carries a request whose bytes yield a code.
pub open spec fn event_captures(e: PollEvent) -> bool {
    e matches PollEvent::Connection(data) && extraction(utf8_lossy(data@)) is Some
}

/// True when the event ends the listening on the spot: a cancellation that is
/// pending or can never arrive, or a broken socket.
pub open spec fn event_closes(e: PollEvent) -> bool {
    ||| e matches PollEvent::NoConnection(sig) && sig != CancelSignal::Empty
    ||| e is SocketError
}

/// Whether the listener has terminated after seeing the event.
pub open spec fn done_after(done: bool, e: PollEvent) -> bool {
    done || event_captures(e) || event_closes(e)
}

/// True when the poll on a listener in the given state captures a code.
pub open spec fn poll_captures(done: bool, e: PollEvent) -> bool {
    !done && event_captures(e)
}

/// The lifecycle of one redirect capture attempt.  It starts listening, eats
/// poll observations, and terminates on the first captured code, on a
/// cancellation, or on a socket failure — never twice.
#[derive(Debug)]
pub struct RedirectListener {
    done: bool,
}

impl RedirectListener {
    /// True when the listener has terminated and will capture nothing more.
    pub closed spec fn is_done(&self) -> bool {
        self.done
    }

    /// A listener that has just bound its socket and heard nothing yet.
    pub fn new() -> (l: Self)
        ensures
            !l.is_done(),
    {
        RedirectListener { done: false }
    }

    /// True when the listener has terminated.
    pub fn is_finished(&self) -> (b: bool)
        ensures
            b == self.is_done(),
    {
        self.done
    }

    /// Decides what the I/O loop does with one poll observation.  A captured
    /// code or a close signal terminates the listener; a connection without a
    /// code is answered and skipped; an empty poll waits and retries.
    pub fn on_poll(&mut self, event: PollEvent) -> (a: PollAction)
        ensures
            final(self).is_done() == done_after(old(self).is_done(), event),
            (a is CaptureCode) == poll_captures(old(self).is_done(), event),
            old(self).is_done() ==> a is CloseEarly,
            !old(self).is_done() ==> match event {
                PollEvent::Connection(data) => match extraction(utf8_lossy(data@)) {
                    Some(c) => a matches PollAction::CaptureCode { code, response } && code@ == c
                        && response@ == ok_response(),
                    None => a matches PollAction::Reject { response } && response@
                        == unauthorized_response(),
                },
                PollEvent::NoConnection(sig) => if sig is Empty {
                    a is WaitRetry
                } else {
                    a is CloseEarly
                },
                PollEvent::SocketError => a is CloseEarly,
            },
    {
        if self.done {
            return PollAction::CloseEarly;
        }
        match event {
            PollEvent::Connection(data) => {
                let text = decode_utf8_lossy(&data);
                match extract_code(text) {
                    Some(code) => {
                        self.done = true;
                        PollAction::CaptureCode { code, response: ok_response_text() }
                    },
                    None => PollAction::Reject { response: unauthorized_response_text() },
                }
            },
            PollEvent::NoConnection(sig) => match sig {
                CancelSignal::Empty => PollAction::WaitRetry,
                CancelSignal::Pending => {
                    self.done = true;
                    PollAction::CloseEarly
                },
                CancelSignal::Disconnected => {
                    self.done = true;
                    PollAction::CloseEarly
                },
            },
            PollEvent::SocketError => {
                self.done = true;
                PollAction::CloseEarly
            },
        }
    }
}

/// A code is captured at most once per listener: the poll that captures
/// terminates the listener, and a terminated listener captures nothing,
/// whatever arrives next.
pub proof fn lemma_single_capture(first: PollEvent, second: PollEvent)
    requires
        poll_captures(false, first),
    ensures
        done_after(false, first),
        !poll_captures(done_after(false, first), second),
{
}

/// A request line of the canonical redirect shape: some prefix, the `code=`
/// marker, the code itself, further query parameters, the HTTP version token,
/// and whatever follows.
pub open spec fn redirect_request_line(
    prefix: Seq<char>,
    code: Seq<char>,
    rest: Seq<char>,
    tail: Seq<char>,
) -> Seq<char> {
    prefix + code_marker() + code + seq!['&'] + rest + http_marker() + tail
}

/// On every request line of the canonical redirect shape, extraction returns
/// exactly the code: the `&`-free text between the last `code=` and the
/// first HTTP version token after it.
pub proof fn lemma_extraction_of_redirect_request(
    prefix: Seq<char>,
    code: Seq<char>,
    rest: Seq<char>,
    tail: Seq<char>,
)
    requires
        code.len() > 0,
        forall|k: int| 0 <= k < code.len() ==> code[k] != '&',
        forall|p: int|
            p > prefix.len() ==> !match_at(
                redirect_request_line(prefix, code, rest, tail),
                code_marker(),
                p,
            ),
        forall|p: int|
            prefix.len() + code_marker().len() <= p < prefix.len() + code_marker().len()
                + code.len() + 1 + rest.len() ==> !match_at(
                redirect_request_line(prefix, code, rest, tail),
                http_marker(),
                p,
            ),
    ensures
        extraction(redirect_request_line(prefix, code, rest, tail)) == Some(code),
{
    let s = redirect_request_line(prefix, code, rest, tail);
    let i0 = prefix.len() as int;
    let start = i0 + 5;
    let amp = start + code.len();
    let j0 = amp + 1 + rest.len();
    assert(code_marker().len() == 5);
    assert(http_marker().len() == 9);
    assert(s.len() == prefix.len() + 5 + code.len() + 1 + rest.len() + 9 + tail.len());
    assert forall|k: int| 0 <= k < 5 implies s[i0 + k] == code_marker()[k] by {}
    assert forall|k: int| 0 <= k < code.len() implies s[start + k] == code[k] by {}
    assert(s[amp] == '&');
    assert forall|k: int| 0 <= k < 9 implies s[j0 + k] == http_marker()[k] by {}
    assert(match_at(s, code_marker(), i0));
    lemma_find_last_unique(s, code_marker(), i0);
    assert(match_at(s, http_marker(), j0));
    lemma_find_first_unique(s, http_marker(), start, j0);
    assert forall|k: int| start <= k < amp implies s[k] != '&' by {
        assert(s[k] == code[k - start]);
    }
    lemma_find_char_between_unique(s, '&', start, j0, amp);
    assert(s.subrange(start, amp) =~= code);
}

} // verus!
