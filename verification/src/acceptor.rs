use crate::text::{lemma_ascii_octets, octets};
use vstd::prelude::*;
use vstd::string::*;

verus! {

/// Seconds that the client that calls upstream waits for a connection.
pub const CONNECT_TIMEOUT_SECS: u64 = 5;

/// Seconds that the client that calls upstream gives a whole call.
pub const CALL_TIMEOUT_SECS: u64 = 60;

/// Seconds between two keep-alive pings on an HTTP/2 connection upstream.
pub const KEEP_ALIVE_INTERVAL_SECS: u64 = 25;

/// Seconds that the answer to a keep-alive ping may take.
pub const KEEP_ALIVE_TIMEOUT_SECS: u64 = 5;

/// What the listener gave when it was asked for the next connection.
#[derive(Debug, PartialEq, Eq)]
pub enum Arrival {
    /// Nothing came.
    Nothing,
    /// A connection came, between these two addresses.
    Stream { remote_addr: String, local_addr: String },
    /// Taking the connection failed, with this message.
    Failed(String),
}

/// A warning for the server's log.
#[derive(Debug, PartialEq, Eq)]
pub struct Warning {
    pub target: String,
    pub action: String,
    /// The two ends of the connection, where the warning is about one.
    pub endpoints: Option<(String, String)>,
    pub message: String,
}

/// A `Warning` with its texts as sequences of characters.
pub ghost struct Notice {
    pub target: Seq<char>,
    pub action: Seq<char>,
    pub endpoints: Option<(Seq<char>, Seq<char>)>,
    pub message: Seq<char>,
}

impl View for Warning {
    type V = Notice;

    open spec fn view(&self) -> Notice {
        Notice {
            target: self.target@,
            action: self.action@,
            endpoints: match self.endpoints {
                Some((remote, local)) => Some((remote@, local@)),
                None => None,
            },
            message: self.message@,
        }
    }
}

/// What the accept loop does with an arrival. After each of them it asks the
/// listener again: none ends the loop.
#[derive(Debug, PartialEq, Eq)]
pub enum Turn {
    /// Nothing to do.
    Idle,
    /// Serve the connection in a task of its own: handshake, then requests.
    Serve { remote_addr: String, local_addr: String },
    /// Log the warning and drop what failed.
    Warn(Warning),
}

/// The protocols that the server offers in the TLS handshake, the preferred one
/// first: HTTP/2, then HTTP/1.1.
pub fn alpn_protocols() -> (r: Vec<Vec<u8>>)
    ensures
        r@.len() == 2,
        r@[0]@ == octets("h2"@),
        r@[1]@ == octets("http/1.1"@),
{
    proof {
        reveal_strlit("h2");
        reveal_strlit("http/1.1");
        lemma_ascii_octets("h2");
        lemma_ascii_octets("http/1.1");
    }
    let mut r: Vec<Vec<u8>> = Vec::new();
    r.push("h2".as_bytes_vec());
    r.push("http/1.1".as_bytes_vec());
    r
}

/// One turn of the accept loop: a connection is served, a failure to take one is
/// logged, and where nothing came nothing is done.
pub fn accept(arrival: Arrival) -> (r: Turn)
    ensures
        match arrival {
            Arrival::Nothing => r is Idle,
            Arrival::Stream { remote_addr, local_addr } => r == (Turn::Serve {
                remote_addr,
                local_addr,
            }),
            Arrival::Failed(message) => r matches Turn::Warn(w) && w@ == (Notice {
                target: "server"@,
                action: "accept_stream"@,
                endpoints: None,
                message: message@,
            }),
        },
{
    match arrival {
        Arrival::Nothing => Turn::Idle,
        Arrival::Stream { remote_addr, local_addr } => Turn::Serve { remote_addr, local_addr },
        Arrival::Failed(message) => Turn::Warn(
            Warning {
                target: "server".to_owned(),
                action: "accept_stream".to_owned(),
                endpoints: None,
                message,
            },
        ),
    }
}

/// What is logged when the task of a connection ends: nothing where it ended well,
/// and where the handshake or the stream failed a warning with the two ends of the
/// connection and the message of the error.
pub fn served(remote_addr: String, local_addr: String, outcome: Result<(), String>) -> (r: Option<
    Warning,
>)
    ensures
        match outcome {
            Ok(_) => r is None,
            Err(message) => r matches Some(w) && w@ == (Notice {
                target: "server"@,
                action: "spawn_service"@,
                endpoints: Some((remote_addr@, local_addr@)),
                message: message@,
            }),
        },
{
    match outcome {
        Ok(_) => None,
        Err(message) => Some(
            Warning {
                target: "server".to_owned(),
                action: "spawn_service".to_owned(),
                endpoints: Some((remote_addr, local_addr)),
                message,
            },
        ),
    }
}

} // verus!
