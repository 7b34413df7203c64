use crate::replace::decimal;
use crate::replace::decimal_string;
use crate::text::text_eq;
use vstd::prelude::*;
use vstd::string::*;

verus! {

/// The bytes that are read from a connection at a time.
pub const PACKET_SIZE: usize = 1400;

/// The head of a request that asks for `path` at `host` and for the
/// connection to be closed after the answer.
pub open spec fn header_text(method: Seq<char>, path: Seq<char>, host: Seq<char>) -> Seq<char> {
    method + " "@ + path + " HTTP/1.1\r\nHost: "@ + host
        + "\r\nConnection: close\r\nAccept-Encoding: identity\r\n\r\n"@
}

/// The head of a request.
pub fn create_http_header(method: &str, path: &str, host: &str) -> (r: String)
    ensures
        r@ == header_text(method@, path@, host@),
{
    let mut out = String::from_str(method);
    out.append(" ");
    out.append(path);
    out.append(" HTTP/1.1\r\nHost: ");
    out.append(host);
    out.append("\r\nConnection: close\r\nAccept-Encoding: identity\r\n\r\n");
    out
}

/// The port of a scheme where the address names none.
pub open spec fn scheme_port(scheme: Seq<char>) -> Option<u16> {
    if scheme == "https"@ {
        Some(443u16)
    } else if scheme == "http"@ {
        Some(80u16)
    } else {
        None
    }
}

/// The port to connect to: the one that the address names, else the one of
/// its scheme, which only `https` and `http` have.
pub fn connection_port(port: Option<u16>, scheme: &str) -> (r: Option<u16>)
    ensures
        r == (match port {
            Some(p) => Some(p),
            None => scheme_port(scheme@),
        }),
{
    match port {
        Some(p) => Some(p),
        None => if text_eq(scheme, "https") {
            Some(443)
        } else if text_eq(scheme, "http") {
            Some(80)
        } else {
            None
        },
    }
}

/// The host and the port as a socket is told them.
pub fn socket_address(host: &str, port: u16) -> (r: String)
    ensures
        r@ == host@ + ":"@ + decimal(port as int),
{
    let mut out = String::from_str(host);
    out.append(":");
    out.append(decimal_string(port as i128).as_str());
    out
}

/// The readiness that a connection waits for.
#[derive(Clone, Copy, Debug, PartialEq, Eq, Structural)]
pub enum Interest {
    Readable,
    Writable,
    Both,
}

/// The readiness to wait for, given what the session wants: to write where
/// it wants to write, and to read in every other case.
pub fn event_set(wants_read: bool, wants_write: bool) -> (r: Interest)
    ensures
        r == (if wants_read && wants_write {
            Interest::Both
        } else if wants_write {
            Interest::Writable
        } else {
            Interest::Readable
        }),
{
    if wants_read && wants_write {
        Interest::Both
    } else if wants_write {
        Interest::Writable
    } else {
        Interest::Readable
    }
}

/// How an attempt to read from a connection went.
#[derive(Clone, Copy, Debug, PartialEq, Eq, Structural)]
pub enum ReadOutcome {
    /// Nothing is there yet.
    WouldBlock,
    /// The connection is broken.
    Broken,
    /// The connection is at its end.
    EndOfFile,
    /// The session refused what was read.
    SessionError,
    /// Data was read; `peer_has_closed` says that the peer ended the session.
    Data { peer_has_closed: bool },
}

/// Whether a connection is being closed, and whether it was ended in order.
#[derive(Clone, Copy, Debug, PartialEq, Eq, Structural)]
pub struct Closure {
    pub closing: bool,
    pub clean_closure: bool,
}

impl Closure {
    /// A connection that is open.
    pub fn new() -> (r: Self)
        ensures
            r == (Closure { closing: false, clean_closure: false }),
    {
        Closure { closing: false, clean_closure: false }
    }

    /// The state after an attempt to read.
    pub open spec fn after(self, outcome: ReadOutcome) -> Closure {
        match outcome {
            ReadOutcome::WouldBlock => self,
            ReadOutcome::Broken => Closure { closing: true, ..self },
            ReadOutcome::EndOfFile => Closure { closing: true, clean_closure: true },
            ReadOutcome::SessionError => Closure { closing: true, ..self },
            ReadOutcome::Data { peer_has_closed } => if peer_has_closed {
                Closure { closing: true, clean_closure: true }
            } else {
                self
            },
        }
    }

    /// Takes the outcome of an attempt to read. A connection that is being
    /// closed stays so.
    pub fn do_read(&mut self, outcome: ReadOutcome)
        ensures
            *final(self) == old(self).after(outcome),
            old(self).closing ==> final(self).closing,
    {
        match outcome {
            ReadOutcome::WouldBlock => {},
            ReadOutcome::Broken => {
                self.closing = true;
            },
            ReadOutcome::EndOfFile => {
                self.closing = true;
                self.clean_closure = true;
            },
            ReadOutcome::SessionError => {
                self.closing = true;
            },
            ReadOutcome::Data { peer_has_closed } => {
                if peer_has_closed {
                    self.clean_closure = true;
                    self.closing = true;
                }
            },
        }
    }

    /// Whether the connection is being closed.
    pub fn is_closed(&self) -> (r: bool)
        ensures
            r == self.closing,
    {
        self.closing
    }
}

} // verus!
