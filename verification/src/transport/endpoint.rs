//! URLs as the transports use them: parsed by the `url` crate, and the
//! address a server binds to.

use vstd::prelude::*;
use crate::text::{owned, u64_to_decimal, decimal};

verus! {

/// The parts of a parsed URL that the transports read.
#[derive(Debug)]
pub struct ParsedUrl {
    /// The URL as the parser writes it out.
    pub serialization: String,
    /// The host, if the URL has one.
    pub host: Option<String>,
    /// The port, if the URL names one other than its scheme's default.
    pub port: Option<u16>,
}

/// The mathematical form of a [`ParsedUrl`].
pub struct UrlParts {
    pub serialization: Seq<char>,
    pub host: Option<Seq<char>>,
    pub port: Option<u16>,
}

impl View for ParsedUrl {
    type V = UrlParts;

    open spec fn view(&self) -> UrlParts {
        UrlParts {
            serialization: self.serialization@,
            host: match self.host {
                Some(h) => Some(h@),
                None => None,
            },
            port: self.port,
        }
    }
}

/// What `url::Url::parse` makes of a text: the URL's serialization, host and
/// port, or the message of the parse error. A function of the text alone;
/// the WHATWG URL rules it follows are the `url` crate's.
pub uninterp spec fn url_parse(text: Seq<char>) -> Result<UrlParts, Seq<char>>;

/// Parses a URL with `url::Url::parse` and reads its serialization
/// (`as_str`), `host_str` and `port`; on failure, the error's message.
/// The result is named by [`url_parse`]; nothing more is claimed of it.
#[verifier::external_body]
pub fn parse_url(text: &str) -> (res: Result<ParsedUrl, String>)
    ensures
        match url_parse(text@) {
            Ok(p) => res matches Ok(u) && u@ == p,
            Err(e) => res matches Err(m) && m@ == e,
        },
{
    match ::url::Url::parse(text) {
        Ok(u) => Ok(ParsedUrl {
            serialization: u.as_str().to_string(),
            host: match u.host_str() {
                Some(h) => Some(h.to_string()),
                None => None,
            },
            port: u.port(),
        }),
        Err(e) => Err(e.to_string()),
    }
}

/// The address a server listens on: the URL's host (`127.0.0.1` when it has
/// none), `:`, and its port (8000 when it names none).
pub open spec fn bind_address_spec(u: UrlParts) -> Seq<char> {
    (match u.host {
        Some(h) => h,
        None => "127.0.0.1"@,
    }) + ":"@ + decimal(
        match u.port {
            Some(p) => p as nat,
            None => 8000,
        },
    )
}

impl ParsedUrl {
    /// The address a server listens on (see [`bind_address_spec`]).
    pub fn bind_address(&self) -> (res: String)
        ensures
            res@ == bind_address_spec(self@),
    {
        let mut out = match &self.host {
            Some(h) => h.clone(),
            None => owned("127.0.0.1"),
        };
        out.append(":");
        let port: u64 = match self.port {
            Some(p) => p as u64,
            None => 8000,
        };
        let p = u64_to_decimal(port);
        out.append(p.as_str());
        out
    }

    /// A copy of the parsed URL.
    pub fn copy(&self) -> (res: ParsedUrl)
        ensures
            res@ == self@,
    {
        ParsedUrl {
            serialization: self.serialization.clone(),
            host: match &self.host {
                Some(h) => Some(h.clone()),
                None => None,
            },
            port: self.port,
        }
    }
}

} // verus!
