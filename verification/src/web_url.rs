//! Parsed URLs as plain values.

use vstd::prelude::*;

verus! {

/// The host of a URL's origin.
#[derive(Debug, PartialEq, Eq)]
pub enum UrlHost {
    /// A domain name, in ASCII form.
    Domain(String),
    /// An IPv4 address, as the number its four octets form.
    Ipv4(u32),
    /// An IPv6 address, as the number its sixteen octets form.
    Ipv6(u128),
}

/// The origin of a URL.
#[derive(Debug, PartialEq, Eq)]
pub enum UrlOrigin {
    /// An origin that is equal to no other, not even to a second one of the
    /// same URL.
    Opaque,
    /// Scheme, host and port.
    Tuple(String, UrlHost, u16),
}

/// A URL that has been parsed.
#[derive(Debug, PartialEq, Eq)]
pub struct WebUrl {
    /// The text that was parsed.
    pub text: String,
    /// The serialisation.
    pub href: String,
    /// The scheme, in lower case.
    pub scheme: String,
    /// The path.
    pub path: String,
}

/// The host of an origin, in contracts.
pub enum HostModel {
    Domain(Seq<char>),
    Ipv4(u32),
    Ipv6(u128),
}

/// An origin, in contracts.
pub enum OriginModel {
    Opaque,
    Tuple(Seq<char>, HostModel, u16),
}

/// A parsed URL, in contracts.
pub struct UrlModel {
    pub text: Seq<char>,
    pub href: Seq<char>,
    pub scheme: Seq<char>,
    pub path: Seq<char>,
}

impl View for UrlHost {
    type V = HostModel;

    open spec fn view(&self) -> HostModel {
        match *self {
            UrlHost::Domain(d) => HostModel::Domain(d@),
            UrlHost::Ipv4(a) => HostModel::Ipv4(a),
            UrlHost::Ipv6(a) => HostModel::Ipv6(a),
        }
    }
}

impl View for UrlOrigin {
    type V = OriginModel;

    open spec fn view(&self) -> OriginModel {
        match *self {
            UrlOrigin::Opaque => OriginModel::Opaque,
            UrlOrigin::Tuple(s, h, p) => OriginModel::Tuple(s@, h@, p),
        }
    }
}

impl View for WebUrl {
    type V = UrlModel;

    open spec fn view(&self) -> UrlModel {
        UrlModel {
            text: self.text@,
            href: self.href@,
            scheme: self.scheme@,
            path: self.path@,
        }
    }
}

impl UrlModel {
    /// The URL is one that the shell can show: `http` or `https`.
    pub open spec fn is_web(self) -> bool {
        self.scheme == "http"@ || self.scheme == "https"@
    }

    /// The URL is what its text parses to.
    pub open spec fn valid(self) -> bool {
        url_parse(self.text) == Ok::<UrlModel, Seq<char>>(self)
    }

    /// The origin of the URL.
    pub open spec fn origin(self) -> OriginModel {
        origin_of_text(self.text)
    }
}

impl OriginModel {
    /// The two origins are the same. An opaque origin is the same as none.
    pub open spec fn same(self, other: OriginModel) -> bool {
        self is Tuple && self == other
    }
}

/// What a parse gave, in contracts.
pub open spec fn parse_of(r: Result<WebUrl, String>) -> Result<UrlModel, Seq<char>> {
    match r {
        Ok(u) => Ok(u@),
        Err(e) => Err(e@),
    }
}

/// What `url::Url::parse` makes of a text: the URL, with the text beside it, or the
/// message of the error.
pub uninterp spec fn url_parse(text: Seq<char>) -> Result<UrlModel, Seq<char>>;

/// Calls `url::Url::parse` and takes the URL apart into its serialisation, its
/// scheme and its path, or the error into its message. The result is a function of
/// the text alone. Nothing else is claimed of what the parser accepts.
#[verifier::external_body]
fn parse_text(text: &str) -> (r: Result<WebUrl, String>)
    ensures
        parse_of(r) == url_parse(text@),
        r matches Ok(u) ==> u@.text == text@,
{
    let u = url::Url::parse(text).map_err(|e| e.to_string())?;
    Ok(WebUrl {
        text: String::from(text),
        href: String::from(u.as_str()),
        scheme: String::from(u.scheme()),
        path: String::from(u.path()),
    })
}

/// What `url::Url::origin` gives for the URL that a text parses to, where the
/// scheme is not `blob`.
pub uninterp spec fn url_origin(text: Seq<char>) -> OriginModel;

/// Calls `url::Url::origin` on the URL that the text parses to. The scheme is not
/// `blob`: for that one the call parses the path and asks for its origin in turn,
/// to any depth. For the others the result is a function of the text alone, once the
/// number that tells opaque origins apart is left out, and an `http` or `https` URL
/// has an origin of its scheme, a host and a port.
#[verifier::external_body]
fn plain_origin(text: &str) -> (r: UrlOrigin)
    requires
        url_parse(text@) is Ok,
        url_parse(text@)->Ok_0.scheme != "blob"@,
    ensures
        r@ == url_origin(text@),
        url_parse(text@)->Ok_0.is_web() ==> r@ is Tuple && r@->Tuple_0
            == url_parse(text@)->Ok_0.scheme,
{
    match url::Url::parse(text).unwrap().origin() {
        url::Origin::Opaque(_) => UrlOrigin::Opaque,
        url::Origin::Tuple(s, h, p) => {
            let host = match h {
                url::Host::Domain(d) => UrlHost::Domain(d),
                url::Host::Ipv4(a) => UrlHost::Ipv4(u32::from(a)),
                url::Host::Ipv6(a) => UrlHost::Ipv6(u128::from(a)),
            };
            UrlOrigin::Tuple(s, host, p)
        },
    }
}

/// The origin of the URL that a text parses to, looking through at most `depth`
/// layers of `blob`: a `blob` URL has the origin of the URL in its path, and where
/// there is no URL the origin is opaque.
pub open spec fn origin_within(text: Seq<char>, depth: nat) -> OriginModel
    decreases depth,
{
    match url_parse(text) {
        Err(_) => OriginModel::Opaque,
        Ok(u) => if u.scheme != "blob"@ {
            url_origin(text)
        } else if depth == 0 {
            OriginModel::Opaque
        } else {
            origin_within(u.path, (depth - 1) as nat)
        },
    }
}

/// The origin of the URL that a text parses to. Every layer of `blob` takes up
/// characters of the text, so a text has fewer layers than characters.
pub open spec fn origin_of_text(text: Seq<char>) -> OriginModel {
    origin_within(text, text.len())
}

/// The origin of the URL that a text parses to.
pub fn origin_of(text: &str) -> (r: UrlOrigin)
    ensures
        r@ == origin_of_text(text@),
        url_parse(text@) matches Ok(u) ==> u.is_web() ==> r@ is Tuple && r@->Tuple_0 == u.scheme,
{
    let mut current: String = text.to_owned();
    let mut depth: usize = text.unicode_len();
    proof {
        lemma_blob_is_not_web();
    }
    loop
        invariant
            origin_within(current@, depth as nat) == origin_of_text(text@),
            current@ == text@ || (url_parse(text@) matches Ok(u) && !u.is_web()),
            "blob"@ != "http"@,
            "blob"@ != "https"@,
        decreases depth,
    {
        match parse_text(current.as_str()) {
            Err(_) => {
                return UrlOrigin::Opaque;
            },
            Ok(url) => {
                if !(*url.scheme.as_str() == *"blob") {
                    return plain_origin(current.as_str());
                }
                if depth == 0 {
                    return UrlOrigin::Opaque;
                }
                depth = depth - 1;
                current = url.path;
            },
        }
    }
}

proof fn lemma_blob_is_not_web()
    ensures
        "blob"@ != "http"@,
        "blob"@ != "https"@,
{
    reveal_strlit("blob");
    reveal_strlit("http");
    reveal_strlit("https");
    assert("blob"@[0] == 'b');
    assert("http"@[0] == 'h');
    assert("https"@[0] == 'h');
}

impl WebUrl {
    /// Parses `text` as an absolute URL; the error is the parser's message.
    pub fn parse(text: &str) -> (r: Result<WebUrl, String>)
        ensures
            parse_of(r) == url_parse(text@),
            r matches Ok(u) ==> u@.valid() && u@.text == text@,
    {
        parse_text(text)
    }

    /// Whether the scheme is `http` or `https`.
    pub fn is_web(&self) -> (r: bool)
        ensures
            r == self@.is_web(),
    {
        *self.scheme.as_str() == *"http" || *self.scheme.as_str() == *"https"
    }

    /// The origin of the URL. That of an `http` or `https` URL is its scheme with a
    /// host and a port.
    pub fn origin(&self) -> (r: UrlOrigin)
        ensures
            r@ == self@.origin(),
            self@.valid() && self@.is_web() ==> r@ is Tuple && r@->Tuple_0 == self@.scheme,
    {
        origin_of(self.text.as_str())
    }

    /// Whether the two URLs have the same origin.
    pub fn same_origin(&self, other: &WebUrl) -> (r: bool)
        ensures
            r == self@.origin().same(other@.origin()),
            other@.valid() && other@.is_web() ==> r == (self@.origin() == other@.origin()),
    {
        match (&self.origin(), &other.origin()) {
            (UrlOrigin::Tuple(s, h, p), UrlOrigin::Tuple(t, g, q)) => *s == *t && same_host(h, g)
                && *p == *q,
            _ => false,
        }
    }
}

/// Whether the two hosts are the same: of one kind and with the same value.
fn same_host(a: &UrlHost, b: &UrlHost) -> (r: bool)
    ensures
        r == (a@ == b@),
{
    match (a, b) {
        (UrlHost::Domain(d), UrlHost::Domain(e)) => *d == *e,
        (UrlHost::Ipv4(x), UrlHost::Ipv4(y)) => *x == *y,
        (UrlHost::Ipv6(x), UrlHost::Ipv6(y)) => *x == *y,
        _ => false,
    }
}

/// A parsed URL, and what a parse gave, stand for just the texts in them.
pub proof fn law_urls_are_taken_whole(url: WebUrl, message: String)
    ensures
        url@.text == url.text@,
        url@.href == url.href@,
        url@.scheme == url.scheme@,
        url@.path == url.path@,
        parse_of(Ok(url)) == Ok::<UrlModel, Seq<char>>(url@),
        parse_of(Err(message)) == Err::<UrlModel, Seq<char>>(message@),
{
}

/// A URL can be shown exactly where its scheme is one of the two of the web.
pub proof fn law_web_is_http_or_https(url: UrlModel)
    ensures
        url.is_web() <==> url.scheme == "http"@ || url.scheme == "https"@,
{
}

/// Two origins are the same exactly where both have a scheme, a host and a port and
/// agree in all three, whichever of them is asked.
pub proof fn law_same_origin_agrees_in_all(a: OriginModel, b: OriginModel)
    ensures
        a.same(b) == b.same(a),
        a is Opaque ==> !a.same(b),
        a matches OriginModel::Tuple(s, h, p) ==> (b matches OriginModel::Tuple(t, g, q) ==> (a.same(
            b,
        ) <==> s == t && h == g && p == q)),
{
}

/// A URL whose scheme is not `blob` has the origin that the parser gives it, and a
/// text that is no URL has an opaque one.
pub proof fn law_origin_of_plain_url(text: Seq<char>)
    ensures
        url_parse(text) is Err ==> origin_of_text(text) is Opaque,
        url_parse(text) matches Ok(u) ==> u.scheme != "blob"@ ==> origin_of_text(text)
            == url_origin(text),
{
}

/// `layers` are texts of which each but the last is a `blob` URL with the next one
/// as its path.
pub open spec fn are_blob_layers(layers: Seq<Seq<char>>) -> bool {
    forall|i: int|
        0 <= i < layers.len() - 1 ==> (url_parse(#[trigger] layers[i]) matches Ok(u) && u.scheme
            == "blob"@ && u.path == layers[i + 1])
}

/// A URL within layers of `blob` gives the outermost one its origin, and so does a
/// text there that is no URL.
pub proof fn law_blob_has_origin_of_its_path(layers: Seq<Seq<char>>)
    requires
        0 < layers.len() <= layers[0].len() + 1,
        are_blob_layers(layers),
        url_parse(layers.last()) matches Ok(u) ==> u.scheme != "blob"@,
    ensures
        origin_of_text(layers[0]) == match url_parse(layers.last()) {
            Ok(_) => url_origin(layers.last()),
            Err(_) => OriginModel::Opaque,
        },
{
    lemma_origin_through_layers(layers, layers[0].len());
}

proof fn lemma_origin_through_layers(layers: Seq<Seq<char>>, depth: nat)
    requires
        0 < layers.len() <= depth + 1,
        are_blob_layers(layers),
        url_parse(layers.last()) matches Ok(u) ==> u.scheme != "blob"@,
    ensures
        origin_within(layers[0], depth) == match url_parse(layers.last()) {
            Ok(_) => url_origin(layers.last()),
            Err(_) => OriginModel::Opaque,
        },
    decreases layers.len(),
{
    if layers.len() > 1 {
        let inner = layers.drop_first();
        assert forall|i: int| 0 <= i < inner.len() - 1 implies (url_parse(
            #[trigger] inner[i],
        ) matches Ok(u) && u.scheme == "blob"@ && u.path == inner[i + 1]) by {
            assert(inner[i] == layers[i + 1]);
        }
        assert(url_parse(layers[0]) is Ok);
        assert(inner[0] == layers[1]);
        assert(inner.last() == layers.last());
        lemma_origin_through_layers(inner, (depth - 1) as nat);
    }
}

}
