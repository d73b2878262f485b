use vstd::prelude::*;
use vstd::string::StringExecFns;

use crate::config::{DEFAULT_CLOSE_TIMEOUT_SECS, DEFAULT_TIMEOUT_SECS};
use crate::decimal::{decimal, digits_value, is_digit, law_decimal_reads_back, push_decimal};
use crate::error::ProtocolError;
use crate::timespan::{TimeSpan, NANOS_PER_SEC};

verus! {

/// Settings of a plain TCP transport.
#[derive(Debug, Clone)]
pub struct TcpConfig {
    /// IP address or host name of the server.
    pub address: String,
    /// Port of the server.
    pub port: u16,
    /// Limit on the connect and on one request/response exchange.
    pub timeout: TimeSpan,
    /// Number of times a failed exchange is sent again (default 0).
    pub retry_count: u32,
    /// Limit on closing the connection.
    pub close_timeout: TimeSpan,
    /// Reserved for TLS settings: `None` is plain TCP.
    pub _tls: Option<()>,
}

impl Default for TcpConfig {
    fn default() -> (c: Self)
        ensures
            c.address@ == Seq::<char>::empty(),
            c.port == 0,
            c.timeout@ == DEFAULT_TIMEOUT_SECS * NANOS_PER_SEC,
            c.retry_count == 0,
            c.close_timeout@ == DEFAULT_CLOSE_TIMEOUT_SECS * NANOS_PER_SEC,
            c._tls is None,
    {
        TcpConfig {
            address: String::new(),
            port: 0,
            timeout: TimeSpan::from_secs(DEFAULT_TIMEOUT_SECS),
            retry_count: 0,
            close_timeout: TimeSpan::from_secs(DEFAULT_CLOSE_TIMEOUT_SECS),
            _tls: None,
        }
    }
}

/// The text `"{address}:{port}"` that a TCP connect is given.
pub open spec fn socket_address_text(address: Seq<char>, port: u16) -> Seq<char> {
    address + seq![':'] + decimal(port as nat)
}

impl TcpConfig {
    /// The `host:port` string to connect to.
    pub fn socket_address(&self) -> (s: String)
        ensures
            s@ == socket_address_text(self.address@, self.port),
            s@.len() > self.address@.len() + 1,
            s@.take(self.address@.len() as int) == self.address@,
            s@[self.address@.len() as int] == ':',
            forall|i: int| self.address@.len() < i < s@.len() ==> is_digit(#[trigger] s@[i]),
            self.port > 0 ==> s@[self.address@.len() as int + 1] as int != 48,
            digits_value(s@.skip(self.address@.len() as int + 1)) == self.port,
    {
        let mut s = self.address.clone();
        proof { reveal_strlit(":"); }
        s.append(":");
        push_decimal(&mut s, self.port as u64);
        proof {
            let ghost k = self.address@.len() as int;
            law_decimal_reads_back(self.port as nat);
            assert(s@.take(k) =~= self.address@);
            assert(s@.skip(k + 1) =~= decimal(self.port as nat));
            assert forall|i: int| k < i < s@.len() implies is_digit(#[trigger] s@[i]) by {
                assert(s@[i] == decimal(self.port as nat)[i - k - 1]);
            }
            assert(s@[k + 1] == decimal(self.port as nat)[0]);
        }
        s
    }
}

/// Failures after which an exchange is worth sending again: the exchange ran
/// out of time, or the socket reported an I/O error. A frame that cannot be
/// encoded or decoded, or a missing connection, would fail the same way again.
pub open spec fn is_transient(e: ProtocolError) -> bool {
    e is Timeout || e is Io
}

impl TcpConfig {
    /// Decides, after an exchange failed with `failure` when `resends_done`
    /// resends had already been made, whether to send again: `Some` with the
    /// new count of resends where the failure is transient and fewer than
    /// `retry_count` resends were made; `None` to report the failure.
    /// So a request is sent at most `retry_count + 1` times.
    pub fn next_resend(&self, resends_done: u32, failure: &ProtocolError) -> (r: Option<u32>)
        ensures
            r is Some <==> (resends_done < self.retry_count && is_transient(*failure)),
            r matches Some(n) ==> n == resends_done + 1 && n <= self.retry_count,
    {
        let transient = match failure {
            ProtocolError::Timeout => true,
            ProtocolError::Io(_) => true,
            _ => false,
        };
        if transient && resends_done < self.retry_count {
            Some(resends_done + 1)
        } else {
            None
        }
    }
}

} // verus!
