//! Adding a server: its URL and name are checked, its health endpoint is asked,
//! and only then does it enter the list.

use vstd::prelude::*;

use crate::servers::{EntryModel, ServerConfig, ServerEntry};
use crate::servers::entries_of;
use crate::text::strip_trailing;
use crate::text::{
    is_white_space, just, outcome_of, stripped_of, trimmed, without_leading, without_trailing,
};
use crate::text::{
    law_trimming, lemma_dropping_in_steps, lemma_stripped, lemma_trailing_run,
    lemma_without_leading, lemma_without_trailing,
};
use crate::web_url::{UrlModel, WebUrl};
use crate::web_url::{parse_of, url_parse};

verus! {

/// What is answered when the URL does not parse.
pub const URL_MALFORMED: &'static str = "URL 형식이 올바르지 않습니다.";

/// What is answered when the URL is neither `http` nor `https`.
pub const URL_UNSUPPORTED: &'static str = "http/https URL 만 지원합니다.";

/// What is answered when the name is blank.
pub const NAME_MISSING: &'static str = "서버 이름을 입력하세요.";

/// What is answered when the health endpoint could not be reached.
pub const SERVER_UNREACHABLE: &'static str =
    "서버에 연결할 수 없습니다. URL 과 네트워크를 확인하세요.";

/// What stands before the status when the health endpoint answers with anything
/// but success.
pub const PING_REFUSED_BEFORE: &'static str = "QA Manager 서버 응답이 아닙니다 (/api/ping → ";

/// What stands after that status.
pub const PING_REFUSED_AFTER: &'static str = ").";

/// The path of the health endpoint below a server's URL.
pub const PING_PATH: &'static str = "/api/ping";

/// How long the health endpoint is waited for, in seconds.
pub const PING_TIMEOUT_SECS: u64 = 5;

/// What a URL is kept without at its end.
pub open spec fn is_slash_or_space(c: char) -> bool {
    c == '/' || is_white_space(c)
}

/// `s` without slashes and white space at its end.
pub open spec fn without_tail(s: Seq<char>) -> Seq<char> {
    without_trailing(s, |c: char| is_slash_or_space(c))
}

/// The text that is kept of a URL as it was typed: without white space at its
/// start, and without white space and slashes at its end.
pub open spec fn normalized(raw: Seq<char>) -> Seq<char> {
    without_tail(trimmed(raw))
}

/// Whether a URL text is taken, given what it parses to.
pub open spec fn url_verdict(
    text: Seq<char>,
    parsed: Result<UrlModel, Seq<char>>,
) -> Result<Seq<char>, Seq<char>> {
    match parsed {
        Err(_) => Err(URL_MALFORMED@),
        Ok(u) => if u.is_web() {
            Ok(text)
        } else {
            Err(URL_UNSUPPORTED@)
        },
    }
}

/// The text under which a URL is kept, or why it is not taken.
pub open spec fn kept_url(raw: Seq<char>) -> Result<Seq<char>, Seq<char>> {
    url_verdict(normalized(raw), url_parse(normalized(raw)))
}

/// Takes the URL text where it parsed as an `http` or `https` URL.
pub fn accept_url(text: &str, parsed: &Result<WebUrl, String>) -> (r: Result<String, String>)
    ensures
        outcome_of(r) == url_verdict(text@, parse_of(*parsed)),
        r is Ok <==> (parsed matches Ok(u) && (u.scheme@ == "http"@ || u.scheme@ == "https"@)),
        r matches Ok(t) ==> t@ == text@,
{
    match parsed {
        Err(_) => Err(URL_MALFORMED.to_owned()),
        Ok(url) => if url.is_web() {
            Ok(text.to_owned())
        } else {
            Err(URL_UNSUPPORTED.to_owned())
        },
    }
}

/// Taking slashes and then white space off the end brings a text that does not
/// start with white space nearer to the form in which it is kept, or shows that it
/// has it.
proof fn lemma_clean_step(s: Seq<char>)
    requires
        s.len() > 0 ==> !is_white_space(s.first()),
    ensures
        ({
            let t = trimmed(stripped_of(s, '/'));
            &&& t.len() > 0 ==> !is_white_space(t.first())
            &&& without_tail(t) == without_tail(s)
            &&& t.len() <= s.len()
            &&& t.len() == s.len() ==> t == s
            &&& t == s ==> without_tail(s) == s
        }),
{
    let tail = |c: char| is_slash_or_space(c);
    let space = |c: char| is_white_space(c);
    let stripped = stripped_of(s, '/');
    let t = trimmed(stripped);
    lemma_stripped(s, '/');
    lemma_dropping_in_steps(s, just('/'), tail);
    if stripped.len() > 0 {
        assert(stripped.first() == s.first());
        assert(!space(stripped.first()));
    }
    assert(without_leading(stripped, space) == stripped);
    lemma_dropping_in_steps(stripped, space, tail);
    lemma_without_trailing(stripped, space);
    if t.len() > 0 {
        assert(t.first() == s.first());
    }
    if t.len() == s.len() {
        assert(stripped =~= s);
        assert(t =~= s);
    }
    if t == s && s.len() > 0 {
        assert(stripped =~= s);
        assert(!space(t.last()));
        assert(!tail(s.last()));
    }
}

/// Takes white space off both ends of a URL, and slashes off its end, until neither
/// is left there.
fn clean_url(raw: &str) -> (r: &str)
    ensures
        r@ == normalized(raw@),
{
    let mut text = raw.trim();
    proof {
        law_trimming(raw@);
    }
    loop
        invariant
            text@.len() > 0 ==> !is_white_space(text@.first()),
            without_tail(text@) == normalized(raw@),
        decreases text@.len(),
    {
        let shorter = strip_trailing(text, '/').trim();
        proof {
            lemma_clean_step(text@);
        }
        if *shorter == *text {
            return text;
        }
        text = shorter;
    }
}

/// Brings a URL into the form in which it is kept, without white space around it
/// and without slashes at its end, and takes it where it is an `http` or `https`
/// URL.
pub fn normalize_url(raw: &str) -> (r: Result<String, String>)
    ensures
        outcome_of(r) == kept_url(raw@),
{
    let text = clean_url(raw);
    accept_url(text, &WebUrl::parse(text))
}

/// A server that may be added once its health endpoint has answered.
#[derive(Debug, PartialEq, Eq)]
pub struct ServerRequest {
    /// The name, without white space around it.
    pub name: String,
    /// The URL in the form in which it is kept.
    pub url: String,
    /// The URL of the health endpoint.
    pub ping: String,
}

/// A server that may be added, in contracts.
pub struct RequestModel {
    pub name: Seq<char>,
    pub url: Seq<char>,
    pub ping: Seq<char>,
}

impl View for ServerRequest {
    type V = RequestModel;

    open spec fn view(&self) -> RequestModel {
        RequestModel { name: self.name@, url: self.url@, ping: self.ping@ }
    }
}

/// What is asked of the server under a URL that was taken or not, or why it is
/// not asked: the URL is looked at before the name.
pub open spec fn request_for(
    name: Seq<char>,
    url: Result<Seq<char>, Seq<char>>,
) -> Result<RequestModel, Seq<char>> {
    match url {
        Err(m) => Err(m),
        Ok(u) => if trimmed(name).len() == 0 {
            Err(NAME_MISSING@)
        } else {
            Ok(RequestModel { name: trimmed(name), url: u, ping: u + PING_PATH@ })
        },
    }
}

/// The request inside a result, in contracts.
pub open spec fn request_of(r: Result<ServerRequest, String>) -> Result<RequestModel, Seq<char>> {
    match r {
        Ok(q) => Ok(q@),
        Err(m) => Err(m@),
    }
}

/// Checks the name against a URL that was taken or not.
pub fn make_request(name: &str, url: Result<String, String>) -> (r: Result<ServerRequest, String>)
    ensures
        request_of(r) == request_for(name@, outcome_of(url)),
{
    match url {
        Err(message) => Err(message),
        Ok(url) => {
            let name = name.trim();
            if name.is_empty() {
                return Err(NAME_MISSING.to_owned());
            }
            let ping = url.clone().concat(PING_PATH);
            Ok(ServerRequest { name: name.to_owned(), url, ping })
        },
    }
}

/// Checks what was typed for a new server and says which health endpoint is to
/// be asked.
pub fn prepare_server(name: &str, url: &str) -> (r: Result<ServerRequest, String>)
    ensures
        request_of(r) == request_for(name@, kept_url(url@)),
{
    make_request(name, normalize_url(url))
}

/// What came of asking a health endpoint.
#[derive(Debug, PartialEq, Eq)]
pub enum PingOutcome {
    /// The HTTP client could not be set up; its message.
    ClientFailed(String),
    /// The request failed: no connection, or no answer in time.
    Unreachable,
    /// The server answered with this HTTP status.
    Answered(u16),
}

/// What came of asking a health endpoint, in contracts.
pub enum PingModel {
    ClientFailed(Seq<char>),
    Unreachable,
    Answered(u16),
}

impl View for PingOutcome {
    type V = PingModel;

    open spec fn view(&self) -> PingModel {
        match *self {
            PingOutcome::ClientFailed(m) => PingModel::ClientFailed(m@),
            PingOutcome::Unreachable => PingModel::Unreachable,
            PingOutcome::Answered(code) => PingModel::Answered(code),
        }
    }
}

impl PingModel {
    /// An HTTP status has three digits, the first of them not zero.
    pub open spec fn valid(self) -> bool {
        self matches PingModel::Answered(code) ==> 100 <= code <= 999
    }
}

/// The reason phrase that `http::StatusCode` displays after a code.
pub uninterp spec fn status_reason(code: u16) -> Seq<char>;

/// A decimal digit.
pub open spec fn decimal_digit(n: int) -> char {
    (0x30 + n) as char
}

/// How an HTTP status is written: the three digits of the code, a space and the
/// reason phrase.
pub open spec fn status_text(code: u16, reason: Seq<char>) -> Seq<char> {
    seq![
        decimal_digit(code as int / 100),
        decimal_digit(code as int / 10 % 10),
        decimal_digit(code as int % 10),
        ' ',
    ] + reason
}

/// Calls `reqwest::StatusCode::from_u16`, which takes the codes from 100 to 999,
/// and displays the status: the code, a space and a reason phrase that depends on
/// the code alone. Which phrase belongs to which code is not stated.
#[verifier::external_body]
fn describe_status(code: u16) -> (r: String)
    requires
        100 <= code <= 999,
    ensures
        r@ == status_text(code, status_reason(code)),
{
    reqwest::StatusCode::from_u16(code).unwrap().to_string()
}

/// The refusal of a server whose health endpoint answers with the given status.
pub open spec fn refusal(status: Seq<char>) -> Seq<char> {
    PING_REFUSED_BEFORE@ + status + PING_REFUSED_AFTER@
}

/// The refusal of a server whose health endpoint answers with the given status.
pub fn refusal_message(status: &str) -> (r: String)
    ensures
        r@ == refusal(status@),
{
    PING_REFUSED_BEFORE.to_owned().concat(status).concat(PING_REFUSED_AFTER)
}

/// Why a server is not added after its health endpoint was asked; `None` where
/// it answered with success.
pub open spec fn ping_refusal(outcome: PingModel) -> Option<Seq<char>> {
    match outcome {
        PingModel::ClientFailed(m) => Some(m),
        PingModel::Unreachable => Some(SERVER_UNREACHABLE@),
        PingModel::Answered(code) => if 200 <= code < 300 {
            None
        } else {
            Some(refusal(status_text(code, status_reason(code))))
        },
    }
}

/// Judges what came of asking a health endpoint: any status from 200 to 299 is
/// success, everything else is refused with a reason.
pub fn check_ping(outcome: PingOutcome) -> (r: Result<(), String>)
    requires
        outcome@.valid(),
    ensures
        match ping_refusal(outcome@) {
            None => r is Ok,
            Some(m) => r matches Err(e) && e@ == m,
        },
{
    match outcome {
        PingOutcome::ClientFailed(message) => Err(message),
        PingOutcome::Unreachable => Err(SERVER_UNREACHABLE.to_owned()),
        PingOutcome::Answered(code) => if 200 <= code && code < 300 {
            Ok(())
        } else {
            Err(refusal_message(describe_status(code).as_str()))
        },
    }
}

/// The digits in which an id is written.
pub open spec fn is_lower_hex(c: char) -> bool {
    '0' <= c <= '9' || 'a' <= c <= 'f'
}

/// The text form of a random UUID: groups of 8, 4, 4, 4 and 12 lower-case
/// hexadecimal digits joined by hyphens, with the version digit `4` and a
/// variant digit of `8`, `9`, `a` or `b`.
pub open spec fn is_random_uuid(id: Seq<char>) -> bool {
    &&& id.len() == 36
    &&& forall|i: int|
        0 <= i < 36 ==> if i == 8 || i == 13 || i == 18 || i == 23 {
            #[trigger] id[i] == '-'
        } else {
            is_lower_hex(id[i])
        }
    &&& id[14] == '4'
    &&& id[19] == '8' || id[19] == '9' || id[19] == 'a' || id[19] == 'b'
}

/// Calls `uuid::Uuid::new_v4` and displays the UUID. Which one comes is up to
/// chance; that it is written as a random UUID holds of every one. That it
/// differs from every earlier one is likely, and is not claimed.
#[verifier::external_body]
fn new_id() -> (r: String)
    ensures
        is_random_uuid(r@),
{
    uuid::Uuid::new_v4().to_string()
}

impl ServerConfig {
    /// Enters a server under the given id at the end of the list, and returns it.
    pub fn register_server(&mut self, id: String, name: String, url: String) -> (r: ServerEntry)
        ensures
            r@ == (EntryModel { id: id@, name: name@, url: url@ }),
            r.id@ == id@,
            r.name@ == name@,
            r.url@ == url@,
            final(self)@ == old(self)@.with_server(r@),
            final(self).servers@.len() == old(self).servers@.len() + 1,
            final(self).servers@.drop_last() == old(self).servers@,
            final(self).servers@.last()@ == r@,
            final(self).last == old(self).last,
    {
        let entry = ServerEntry { id, name, url };
        let ghost before = self.servers@;
        self.servers.push(entry.clone());
        proof {
            assert(entries_of(self.servers@) =~= entries_of(before).push(entry@));
            assert(self.servers@.drop_last() =~= before);
        }
        entry
    }

    /// Adds a server, given what came of asking the health endpoint that
    /// `prepare_server` names for the same input. The server enters the list, under
    /// a new random id, only where the input was in order and the endpoint answered
    /// with success; otherwise nothing changes and the reason is returned.
    pub fn add_server(&mut self, name: &str, url: &str, outcome: PingOutcome) -> (r: Result<
        ServerEntry,
        String,
    >)
        requires
            outcome@.valid(),
        ensures
            match request_for(name@, kept_url(url@)) {
                Err(m) => {
                    &&& r matches Err(e)
                    &&& e@ == m
                    &&& final(self)@ == old(self)@
                },
                Ok(request) => match ping_refusal(outcome@) {
                    Some(m) => {
                        &&& r matches Err(e)
                        &&& e@ == m
                        &&& final(self)@ == old(self)@
                    },
                    None => {
                        &&& r matches Ok(entry)
                        &&& entry@.name == request.name
                        &&& entry@.url == request.url
                        &&& is_random_uuid(entry@.id)
                        &&& final(self)@ == old(self)@.with_server(entry@)
                    },
                },
            },
            r is Ok ==> {
                &&& final(self).servers@.len() == old(self).servers@.len() + 1
                &&& final(self).servers@.drop_last() == old(self).servers@
                &&& final(self).servers@.last()@ == r->Ok_0@
            },
            r is Err ==> final(self).servers == old(self).servers,
            final(self).last == old(self).last,
    {
        let request = match prepare_server(name, url) {
            Ok(request) => request,
            Err(message) => {
                return Err(message);
            },
        };
        match check_ping(outcome) {
            Ok(()) => Ok(self.register_server(new_id(), request.name, request.url)),
            Err(message) => Err(message),
        }
    }
}

/// The text that is kept of a URL is the part of what was typed that has white space
/// before it, white space and slashes after it, and none of these at its own ends,
/// whatever that part holds.
pub proof fn law_normalizing_keeps_the_middle(raw: Seq<char>, i: int, j: int)
    requires
        0 <= i <= j <= raw.len(),
        forall|k: int| 0 <= k < i ==> is_white_space(#[trigger] raw[k]),
        forall|k: int|
            j <= k < raw.len() ==> #[trigger] raw[k] == '/' || is_white_space(raw[k]),
        i < j ==> !is_white_space(raw[i]),
        i < j ==> !is_white_space(raw[j - 1]) && raw[j - 1] != '/',
    ensures
        normalized(raw) == raw.subrange(i, j),
{
    let tail = |c: char| is_slash_or_space(c);
    let space = |c: char| is_white_space(c);
    let front = without_leading(raw, space);
    lemma_without_leading(raw, space);
    lemma_dropping_in_steps(front, space, tail);
    let n = raw.len() - front.len();
    assert(front =~= raw.skip(n));
    if i < j {
        assert(n == i) by {
            if n > i {
                assert(space(raw[i]));
            }
            if n < i {
                assert(!space(front.first()));
                assert(front.first() == raw[n]);
            }
        }
        assert(!tail(front[j - i - 1]));
        assert forall|k: int| j - i <= k < front.len() implies tail(#[trigger] front[k]) by {
            assert(front[k] == raw[k + i]);
        }
        lemma_trailing_run(front, tail, j - i);
        assert(front.take(j - i) =~= raw.subrange(i, j));
    } else {
        assert forall|k: int| 0 <= k < front.len() implies tail(#[trigger] front[k]) by {
            assert(front[k] == raw[k + n]);
        }
        lemma_trailing_run(front, tail, 0);
        assert(front.take(0) =~= raw.subrange(i, j));
    }
}

/// A URL is taken exactly where its text, in the form in which it is kept, parses
/// with the scheme `http` or `https`, and it is kept as that text; a text that does
/// not parse and one of another scheme are each refused with their own message.
pub proof fn law_every_web_url_is_taken(raw: Seq<char>)
    ensures
        kept_url(raw) is Ok <==> (url_parse(normalized(raw)) matches Ok(u) && (u.scheme == "http"@
            || u.scheme == "https"@)),
        kept_url(raw) matches Ok(t) ==> t == normalized(raw),
        url_parse(normalized(raw)) is Err ==> kept_url(raw) == Err::<Seq<char>, Seq<char>>(
            "URL 형식이 올바르지 않습니다."@,
        ),
        url_parse(normalized(raw)) matches Ok(u) ==> u.scheme != "http"@ && u.scheme != "https"@
            ==> kept_url(raw) == Err::<Seq<char>, Seq<char>>("http/https URL 만 지원합니다."@),
{
}

/// Whether a URL text is taken depends on nothing of the URL but its scheme, and a
/// text that is taken is taken as it is.
pub proof fn law_scheme_alone_decides(a: Seq<char>, b: Seq<char>, u: UrlModel, v: UrlModel)
    requires
        u.scheme == v.scheme,
    ensures
        url_verdict(a, Ok(u)) is Ok <==> url_verdict(b, Ok(v)) is Ok,
        url_verdict(a, Ok(u)) matches Ok(t) ==> t == a,
        u.scheme == "http"@ || u.scheme == "https"@ ==> url_verdict(a, Ok(u)) is Ok,
{
}

/// Behind a URL that is taken, any name that is not blank leads to a request, with
/// the name trimmed, the URL unchanged and the health endpoint below it; a blank name
/// is refused; and behind a URL that is not taken its refusal comes, whatever the
/// name.
pub proof fn law_every_named_server_is_asked(name: Seq<char>, url: Seq<char>, why: Seq<char>)
    ensures
        trimmed(name).len() > 0 ==> (request_for(name, Ok(url)) matches Ok(q) && q.name == trimmed(
            name,
        ) && q.url == url && q.ping == url + "/api/ping"@),
        trimmed(name).len() == 0 ==> request_for(name, Ok(url)) == Err::<RequestModel, Seq<char>>(
            "서버 이름을 입력하세요."@,
        ),
        request_for(name, Err(why)) == Err::<RequestModel, Seq<char>>(why),
{
}

/// A request, and what came of asking for one, stand for just what they hold.
pub proof fn law_requests_are_taken_whole(request: ServerRequest, message: String)
    ensures
        request@.name == request.name@,
        request@.url == request.url@,
        request@.ping == request.ping@,
        request_of(Ok(request)) == Ok::<RequestModel, Seq<char>>(request@),
        request_of(Err(message)) == Err::<RequestModel, Seq<char>>(message@),
{
}

/// What came of asking a health endpoint stands for just what it holds.
pub proof fn law_ping_is_taken_whole(outcome: PingOutcome)
    ensures
        outcome matches PingOutcome::ClientFailed(m) ==> outcome@ == PingModel::ClientFailed(m@),
        outcome is Unreachable ==> outcome@ is Unreachable,
        outcome matches PingOutcome::Answered(code) ==> outcome@ == PingModel::Answered(code),
{
}

/// A refusal shows the status as it is between its own words, so that different
/// statuses have different refusals.
pub proof fn law_refusal_shows_the_status(a: Seq<char>, b: Seq<char>)
    ensures
        "QA Manager 서버 응답이 아닙니다 (/api/ping → "@.is_prefix_of(refusal(a)),
        ")."@.is_suffix_of(refusal(a)),
        refusal(a).len() == "QA Manager 서버 응답이 아닙니다 (/api/ping → "@.len() + a.len() + ")."@.len(),
        forall|k: int|
            0 <= k < a.len() ==> #[trigger] refusal(
                a,
            )["QA Manager 서버 응답이 아닙니다 (/api/ping → "@.len() + k] == a[k],
        refusal(a) == refusal(b) ==> a == b,
{
    let before = PING_REFUSED_BEFORE@;
    let after = PING_REFUSED_AFTER@;
    assert(refusal(a).subrange(before.len() as int, refusal(a).len() - after.len()) =~= a);
    assert(refusal(b).subrange(before.len() as int, refusal(b).len() - after.len()) =~= b);
}

/// Whatever else comes of asking a health endpoint has its own reason: the client's
/// message, the advice to look at URL and network, or the status that came.
pub proof fn law_every_refusal_has_its_reason(outcome: PingModel)
    ensures
        outcome matches PingModel::ClientFailed(m) ==> ping_refusal(outcome) == Some(m),
        outcome is Unreachable ==> ping_refusal(outcome) == Some(
            "서버에 연결할 수 없습니다. URL 과 네트워크를 확인하세요."@,
        ),
        outcome matches PingModel::Answered(code) ==> code < 200 || code >= 300 ==> ping_refusal(
            outcome,
        ) == Some(refusal(status_text(code, status_reason(code)))),
{
}

}
