use vstd::prelude::*;

use crate::error::ProtocolError;

verus! {

/// The connection slot of a transport: empty until a connect succeeds, and
/// emptied again by a close, whether or not the close then succeeds.
pub struct Link<C> {
    conn: Option<C>,
}

impl<C> Link<C> {
    /// The connection held, if any.
    pub closed spec fn held(&self) -> Option<C> {
        self.conn
    }

    /// A slot that holds no connection.
    pub fn new() -> (l: Link<C>)
        ensures
            l.held() is None,
    {
        Link { conn: None }
    }

    /// Whether a connection is held.
    pub fn is_connected(&self) -> (b: bool)
        ensures
            b == self.held() is Some,
    {
        self.conn.is_some()
    }

    /// Keeps the connection that a connect established, in place of any
    /// connection held before.
    pub fn attach(&mut self, c: C)
        ensures
            final(self).held() == Some(c),
    {
        self.conn = Some(c);
    }

    /// Takes the connection out for closing; the slot is empty afterwards.
    /// `None` means that there is nothing to close.
    pub fn detach(&mut self) -> (r: Option<C>)
        ensures
            r == old(self).held(),
            final(self).held() is None,
    {
        self.conn.take()
    }

    /// The connection to send on, or `NotConnected` where none is held.
    pub fn active(&mut self) -> (r: Result<&mut C, ProtocolError>)
        ensures
            old(self).held() is None <==> r is Err,
            r is Err ==> r matches Err(ProtocolError::NotConnected),
            r is Err ==> final(self).held() is None,
            r matches Ok(c) ==> *c == old(self).held().unwrap() && final(self).held() == Some(*final(c)),
    {
        match &mut self.conn {
            Some(c) => Ok(c),
            None => Err(ProtocolError::NotConnected),
        }
    }
}

} // verus!
