//! The remote access gateway: configuration and connection policy.
//!
//! The gateway binds a SQL engine to a network listener with a fixed-size
//! worker pool and a bounded listen queue, and a client connects with a
//! bounded number of retry attempts. The networking itself — sockets,
//! accept loops, transmission — is outside work driven by the embedding
//! program; this module holds the configuration and the retry decision
//! the embedding program consults after every failed attempt.

use vstd::prelude::*;

use crate::sql::{SqlCode, SqlError};
use crate::Error;

verus! {

/// Client connection parameters.
pub struct ClientParams {
    /// The transmit buffer size, in bytes.
    pub tx_buf_size_v: usize,
    /// The server host name.
    pub host_v: String,
    /// The server port.
    pub port_v: u16,
    /// The maximum number of connection attempts.
    pub max_conn_attempts_v: u32,
}

impl ClientParams {
    /// Creates client parameters with the default transmit buffer (64
    /// KiB) and retry budget (ten attempts).
    pub fn new(host: &str, port: u16) -> (r: Self)
        ensures
            r.tx_buf_size_v == 65536,
            r.host_v@ == host@,
            r.port_v == port,
            r.max_conn_attempts_v == 10,
    {
        ClientParams {
            tx_buf_size_v: 65536,
            host_v: host.to_owned(),
            port_v: port,
            max_conn_attempts_v: 10,
        }
    }

    /// Sets the transmit buffer size.
    pub fn tx_buf_size(&mut self, tx_buf_size: usize) -> (r: &mut Self)
        ensures
            (*r).tx_buf_size_v == tx_buf_size,
            (*r).host_v == old(self).host_v,
            (*r).port_v == old(self).port_v,
            (*r).max_conn_attempts_v == old(self).max_conn_attempts_v,
            *final(self) == *final(r),
    {
        self.tx_buf_size_v = tx_buf_size;
        self
    }

    /// Sets the server host name.
    pub fn host(&mut self, host: &str) -> (r: &mut Self)
        ensures
            (*r).host_v@ == host@,
            (*r).tx_buf_size_v == old(self).tx_buf_size_v,
            (*r).port_v == old(self).port_v,
            (*r).max_conn_attempts_v == old(self).max_conn_attempts_v,
            *final(self) == *final(r),
    {
        self.host_v = host.to_owned();
        self
    }

    /// Sets the server port.
    pub fn port(&mut self, port: u16) -> (r: &mut Self)
        ensures
            (*r).port_v == port,
            (*r).tx_buf_size_v == old(self).tx_buf_size_v,
            (*r).host_v == old(self).host_v,
            (*r).max_conn_attempts_v == old(self).max_conn_attempts_v,
            *final(self) == *final(r),
    {
        self.port_v = port;
        self
    }

    /// Sets the maximum number of connection attempts.
    pub fn max_conn_attempts(&mut self, max_conn_attempts: u32) -> (r: &mut Self)
        ensures
            (*r).max_conn_attempts_v == max_conn_attempts,
            (*r).tx_buf_size_v == old(self).tx_buf_size_v,
            (*r).host_v == old(self).host_v,
            (*r).port_v == old(self).port_v,
            *final(self) == *final(r),
    {
        self.max_conn_attempts_v = max_conn_attempts;
        self
    }
}

/// Server parameters: the listener port, buffer size, worker-thread count
/// and listen queue bound.
#[derive(Clone, Copy, Debug, PartialEq, Eq, Structural)]
pub struct ServerParams {
    /// The listener port.
    pub port_v: u16,
    /// The per-connection buffer size, in bytes.
    pub buf_size_v: usize,
    /// The number of worker threads draining the listen queue.
    pub threads_v: usize,
    /// The bound of the listen queue.
    pub listen_queue_size_v: usize,
}

impl ServerParams {
    /// Creates server parameters with a 64 KiB buffer, eight workers and
    /// a listen queue of five.
    pub fn new(port: u16) -> (r: Self)
        ensures
            r.port_v == port,
            r.buf_size_v == 65536,
            r.threads_v == 8,
            r.listen_queue_size_v == 5,
    {
        ServerParams { port_v: port, buf_size_v: 65536, threads_v: 8, listen_queue_size_v: 5 }
    }

    /// Sets the per-connection buffer size.
    pub fn buf_size(&mut self, buf_size: usize) -> (r: &mut Self)
        ensures
            (*r) == (ServerParams { buf_size_v: buf_size, ..*old(self) }),
            *final(self) == *final(r),
    {
        self.buf_size_v = buf_size;
        self
    }

    /// Sets the number of worker threads.
    pub fn threads(&mut self, threads: usize) -> (r: &mut Self)
        ensures
            (*r) == (ServerParams { threads_v: threads, ..*old(self) }),
            *final(self) == *final(r),
    {
        self.threads_v = threads;
        self
    }

    /// Sets the listen queue bound.
    pub fn listen_queue_size(&mut self, listen_queue_size: usize) -> (r: &mut Self)
        ensures
            (*r) == (ServerParams { listen_queue_size_v: listen_queue_size, ..*old(self) }),
            *final(self) == *final(r),
    {
        self.listen_queue_size_v = listen_queue_size;
        self
    }
}

/// The connection state a client drives through its bounded retry loop:
/// how many attempts were made against how many are allowed.
#[derive(Clone, Copy, Debug, PartialEq, Eq, Structural)]
pub struct ConnectState {
    /// Attempts made so far.
    pub attempts_made: u32,
    /// The retry budget.
    pub max_attempts: u32,
}

impl ConnectState {
    /// Starts a fresh connection bout under the client's retry budget.
    pub fn new(params: &ClientParams) -> (r: ConnectState)
        ensures
            r.attempts_made == 0,
            r.max_attempts == params.max_conn_attempts_v,
    {
        ConnectState { attempts_made: 0, max_attempts: params.max_conn_attempts_v }
    }

    /// Accounts one failed attempt and decides whether to retry.
    ///
    /// Succeeds (retry) exactly while the budget allows another attempt;
    /// once the budget is spent it fails with `COMMUNICATION_ERROR` —
    /// kept distinct from the SQL error space, so a caller can tell "the
    /// SQL failed" from "the server is unreachable".
    pub fn attempt_failed(&mut self) -> (r: Result<(), Error>)
        ensures
            final(self).max_attempts == old(self).max_attempts,
            (old(self).attempts_made + 1 < old(self).max_attempts ==> r == Ok::<(), Error>(())
                && final(self).attempts_made == old(self).attempts_made + 1),
            (old(self).attempts_made + 1 >= old(self).max_attempts ==> r == Err::<(), Error>(
                Error::Sql(SqlError(SqlCode::CommunicationError)),
            ) && final(self).attempts_made == (if old(self).attempts_made < u32::MAX {
                old(self).attempts_made + 1int
            } else {
                old(self).attempts_made as int
            })),
    {
        if self.attempts_made < u32::MAX {
            self.attempts_made = self.attempts_made + 1;
        }
        if self.attempts_made < self.max_attempts {
            Ok(())
        } else {
            Err(Error::Sql(SqlError(SqlCode::CommunicationError)))
        }
    }
}

} // verus!
