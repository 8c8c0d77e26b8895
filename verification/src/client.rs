//! The state of a client handle: open with a client, or closed for good.

use vstd::prelude::*;

verus! {

/// A client that can be closed. Once closed it stays closed, and every later
/// request for the client is refused.
pub struct ClientHandle<C> {
    inner: Option<C>,
}

/// The request for a client of a closed handle.
#[derive(Clone, Copy, Debug, PartialEq, Eq, Structural)]
pub struct ClientClosed;

pub open spec fn client_closed_text() -> Seq<char> {
    seq!['C', 'l', 'i', 'e', 'n', 't', ' ', 'i', 's', ' ', 'c', 'l', 'o', 's', 'e', 'd']
}

impl ClientClosed {
    /// The text of the error that the bindings throw.
    pub fn reason(&self) -> (r: String)
        ensures
            r@ == client_closed_text(),
    {
        let t = "Client is closed";
        proof {
            reveal_strlit("Client is closed");
            assert(t@ =~= client_closed_text());
        }
        String::from_str(t)
    }
}

impl<C> ClientHandle<C> {
    /// The handle still holds its client.
    pub closed spec fn is_open(self) -> bool {
        self.inner is Some
    }

    /// The client that an open handle holds.
    pub closed spec fn held(self) -> C {
        self.inner->0
    }

    /// The same handle, closed.
    pub closed spec fn closed(self) -> Self {
        ClientHandle { inner: None }
    }

    /// An open handle holding `client`.
    pub fn new(client: C) -> (r: Self)
        ensures
            r.is_open(),
            r.held() == client,
    {
        ClientHandle { inner: Some(client) }
    }

    /// Closes the handle and tells whether it was open until now.
    pub fn close(&mut self) -> (was_open: bool)
        ensures
            was_open == old(self).is_open(),
            !final(self).is_open(),
            *final(self) == old(self).closed(),
    {
        let was_open = self.inner.is_some();
        self.inner = None;
        was_open
    }

    /// The client of an open handle; a closed handle refuses.
    pub fn client(&self) -> (r: Result<&C, ClientClosed>)
        ensures
            self.is_open() ==> (r matches Ok(c) && *c == self.held()),
            !self.is_open() ==> r is Err,
    {
        match &self.inner {
            Some(c) => Ok(c),
            None => Err(ClientClosed),
        }
    }
}

/// Closing is idempotent: a closed handle is not open, and closing it again
/// leaves it as it is (so a second `close` returns `false`).
pub proof fn law_close_is_idempotent<C>(h: ClientHandle<C>)
    ensures
        !h.closed().is_open(),
        h.closed().closed() == h.closed(),
{
}

/// After `close`, every request for the client is refused: a handle that is
/// not open stays closed under `close`, and `client` refuses it.
pub proof fn law_closed_stays_closed<C>(h: ClientHandle<C>)
    requires
        !h.is_open(),
    ensures
        h.closed() == h,
{
}

} // verus!
