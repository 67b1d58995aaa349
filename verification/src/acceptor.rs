//! The hot-reloadable acceptor's state: the TLS configuration currently in
//! force. The accept loop races "next configuration arrived" against "next
//! connection arrived"; a new configuration replaces the current one whole,
//! and a connection is handshaked with whichever configuration is current —
//! or refused outright when none has ever arrived.

use vstd::prelude::*;

verus! {

/// Why a connection was refused before its handshake began.
#[derive(Clone, Copy, PartialEq, Eq, Structural, Debug)]
pub enum AcceptError {
    /// A connection arrived before any configuration item: it fails at once
    /// rather than waiting for one.
    ConfigMissing,
}

/// The acceptor's swappable context: the latest configuration item, if any
/// has arrived. `C` is whatever the chosen TLS backend needs — certificate
/// source, key source, protocol list.
pub struct HotConfigAcceptor<C> {
    current: Option<C>,
}

impl<C> HotConfigAcceptor<C> {
    /// The configuration in force.
    pub closed spec fn spec_current(self) -> Option<C> {
        self.current
    }

    /// The acceptor before any configuration item has arrived.
    pub fn new() -> (r: HotConfigAcceptor<C>)
        ensures
            r.spec_current() is None,
    {
        HotConfigAcceptor { current: None }
    }

    /// The acceptor after a configuration item `c` arrives: `c` is in force,
    /// whole, and the previous configuration is gone.
    pub closed spec fn spec_on_config(self, c: C) -> HotConfigAcceptor<C> {
        HotConfigAcceptor { current: Some(c) }
    }

    /// A configuration item arrived: swap it in.
    pub fn on_config(&mut self, c: C)
        ensures
            *final(self) == old(self).spec_on_config(c),
            final(self).spec_current() == Some(c),
    {
        self.current = Some(c);
    }

    /// A connection arrived: hand back the configuration to handshake it
    /// with, or refuse it when none has ever arrived.
    pub fn on_connection(&self) -> (r: Result<&C, AcceptError>)
        ensures
            match r {
                Ok(c) => self.spec_current() == Some(*c),
                Err(e) => self.spec_current() is None && e == AcceptError::ConfigMissing,
            },
    {
        match &self.current {
            Some(c) => Ok(c),
            None => Err(AcceptError::ConfigMissing),
        }
    }
}

/// Hot reload: once configuration `c2` replaces `c1`, every later
/// connection is handshaked with `c2`'s parameters; and on an acceptor that
/// never received a configuration, a connection finds none and is refused.
pub proof fn lemma_hot_reload<C>(a: HotConfigAcceptor<C>, c1: C, c2: C)
    ensures
        a.spec_on_config(c1).spec_on_config(c2).spec_current() == Some(c2),
{
}

} // verus!
