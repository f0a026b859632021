//! The transport session: hosts, credentials, and request composition.

use vstd::prelude::*;
use vstd::string::StrSliceExecFns;
use vstd::string::StringExecFns;
use crate::encode::{spec_json_str, JsonBuf};
use crate::Error;

verus! {

/// The verb of an HTTP request.
#[derive(Debug, Clone, Copy, PartialEq, Eq, Structural)]
pub enum HttpMethod {
    Delete,
    Get,
    Patch,
    Post,
}

/// A fully composed request: everything the transport needs to carry it
/// out.  The credential headers stand in `headers`.
#[derive(Debug)]
pub struct RequestParts {
    pub method: HttpMethod,
    pub url: String,
    pub headers: Vec<(String, String)>,
}

/// What `url::Url::parse` followed by `Url::join` resolves a base and a
/// path to, as text.
pub uninterp spec fn url_join_of(base: Seq<char>, path: Seq<char>) -> Option<Seq<char>>;

/// Relies on `url::Url::parse` and `Url::join`: resolution succeeds exactly
/// on well-formed input, and the result depends on the two texts alone.
#[verifier::external_body]
fn url_join(base: &str, path: &str) -> (r: Option<String>)
    ensures
        match r {
            Some(u) => url_join_of(base@, path@) == Some(u@),
            None => url_join_of(base@, path@) is None,
        },
{
    match url::Url::parse(base) {
        Ok(b) => match b.join(path) {
            Ok(u) => Some(u.as_str().to_owned()),
            Err(_) => None,
        },
        Err(_) => None,
    }
}

/// The live trading host.
pub fn live_api() -> (r: &'static str)
    ensures
        r@ == "https://api.alpaca.markets"@,
{
    "https://api.alpaca.markets"
}

/// The paper trading host.
pub fn paper_api() -> (r: &'static str)
    ensures
        r@ == "https://paper-api.alpaca.markets"@,
{
    "https://paper-api.alpaca.markets"
}

/// The authentication frame: a two-field envelope whose data carries the
/// credential pair.
pub open spec fn spec_auth_frame(key: Seq<char>, secret: Seq<char>) -> Seq<char> {
    "{\"action\":\"authenticate\",\"data\":{\"key_id\":"@ + spec_json_str(key)
        + ",\"secret_key\":"@ + spec_json_str(secret) + "}}"@
}

/// The contextual information that every call needs: the credential pair
/// and the host the session is bound to.
#[derive(Debug)]
pub struct Alpaca {
    api_key: String,
    api_secret: String,
    host: String,
}

/// The mathematical shape of a session.
pub struct AlpacaView {
    pub key: Seq<char>,
    pub secret: Seq<char>,
    pub host: Seq<char>,
}

impl View for Alpaca {
    type V = AlpacaView;

    closed spec fn view(&self) -> AlpacaView {
        AlpacaView { key: self.api_key@, secret: self.api_secret@, host: self.host@ }
    }
}

impl Alpaca {
    /// Builds the session state bound to the live or the paper host; an
    /// override host, where one is supplied, takes precedence over both.
    /// The liveness probe around it is the transport's work.
    pub fn new(live: bool, api_key_id: &str, api_secret_key: &str, override_host: Option<
        String,
    >) -> (r: Alpaca)
        ensures
            r@.key == api_key_id@,
            r@.secret == api_secret_key@,
            r@.host == match override_host {
                Some(h) => h@,
                None => if live {
                    "https://api.alpaca.markets"@
                } else {
                    "https://paper-api.alpaca.markets"@
                },
            },
    {
        let host = match override_host {
            Some(h) => h,
            None => if live {
                String::from_str(live_api())
            } else {
                String::from_str(paper_api())
            },
        };
        Alpaca {
            api_key: String::from_str(api_key_id),
            api_secret: String::from_str(api_secret_key),
            host,
        }
    }

    /// Maps the status of the liveness probe made when a session is built:
    /// success keeps the session, 401 and 403 mean the credentials were
    /// rejected, and any other status fails with the URL and the status.
    pub fn probe_outcome(status: u16, probe_url: &str) -> (r: Result<(), Error>)
        ensures
            r is Ok <==> 200 <= status < 300,
            !(200 <= status < 300) ==> match r {
                Err(e) => if status == 401 || status == 403 {
                    e matches Error::InvalidCredentials
                } else {
                    e matches Error::CallFailed { url, status: st } && url@ == probe_url@ && st
                        == status
                },
                Ok(_) => false,
            },
    {
        if 200 <= status && status < 300 {
            Ok(())
        } else if status == 401 || status == 403 {
            Err(Error::InvalidCredentials)
        } else {
            Err(Error::CallFailed { url: String::from_str(probe_url), status })
        }
    }

    /// Composes a request against the session's host, with the two
    /// credential headers set.  Fails only where the path does not resolve
    /// against the host.
    pub fn request(&self, method: HttpMethod, path: &str) -> (r: Result<RequestParts, Error>)
        ensures
            match r {
                Ok(p) => {
                    &&& url_join_of(self@.host, path@) matches Some(u) && p.url@ == u
                    &&& p.method == method
                    &&& p.headers@.len() == 2
                    &&& p.headers@[0].0@ == "APCA-API-KEY-ID"@
                    &&& p.headers@[0].1@ == self@.key
                    &&& p.headers@[1].0@ == "APCA-API-SECRET-KEY"@
                    &&& p.headers@[1].1@ == self@.secret
                },
                Err(e) => e matches Error::InternalURL && url_join_of(self@.host, path@) is None,
            },
    {
        match url_join(self.host.as_str(), path) {
            Some(u) => {
                let mut headers: Vec<(String, String)> = Vec::new();
                headers.push((String::from_str("APCA-API-KEY-ID"), self.api_key.clone()));
                headers.push((String::from_str("APCA-API-SECRET-KEY"), self.api_secret.clone()));
                Ok(RequestParts { method, url: u, headers })
            },
            None => Err(Error::InternalURL),
        }
    }

    /// How many characters the session's host has.
    pub fn host_len(&self) -> (r: usize)
        ensures
            r == self@.host.len(),
    {
        self.host.as_str().unicode_len()
    }

    /// Derives the websocket endpoint from the host and pre-serializes the
    /// authentication frame; performs no network work itself.
    pub fn stream(&self) -> (r: (String, String))
        requires
            self@.host.len() >= 4,
        ensures
            r.0@ == "ws"@ + self@.host.skip(4) + "/stream"@,
            r.1@ == spec_auth_frame(self@.key, self@.secret),
    {
        let n = self.host.as_str().unicode_len();
        let tail = self.host.as_str().substring_char(4, n);
        let mut ws_host = String::from_str("ws");
        ws_host.append(tail);
        ws_host.append("/stream");
        let mut buf = JsonBuf::new();
        buf.lit("{\"action\":\"authenticate\",\"data\":{\"key_id\":");
        buf.str_val(self.api_key.as_str());
        buf.lit(",\"secret_key\":");
        buf.str_val(self.api_secret.as_str());
        buf.lit("}}");
        let auth = buf.finish();
        proof {
            assert(auth@ =~= spec_auth_frame(self@.key, self@.secret));
            assert(ws_host@ =~= "ws"@ + self@.host.skip(4) + "/stream"@);
        }
        (ws_host, auth)
    }
}

} // verus!
