use vstd::prelude::*;

use crate::error::{Error, Result};
use crate::php_server::{has_port, PhpServerManager};

verus! {

/// Port the search wraps to when it runs past the top of the range.
pub const WRAP_PORT: u16 = 8000;

/// The candidate after `port`: the next port up; at the top of the range
/// the search wraps once to the floor port, and a second arrival there ends
/// it (None). The top port itself is probed only as a start port.
pub open spec fn next_candidate(port: u16, wrapped: bool) -> Option<(u16, bool)> {
    if port >= 65534 {
        if wrapped {
            None
        } else {
            Some((WRAP_PORT, true))
        }
    } else {
        Some(((port + 1) as u16, wrapped))
    }
}

/// How many candidates a search at `port` may still move to; it shrinks
/// with every step, so a search ends.
pub open spec fn candidates_left(port: u16, wrapped: bool) -> nat {
    let rest: nat = if port >= 65534 {
        0
    } else {
        (65534 - port) as nat
    };
    if wrapped {
        rest
    } else {
        rest + 1 + (65534 - WRAP_PORT) as nat
    }
}

/// A linear search for a free port from a start port: upward, then once
/// more from the floor port. The caller probes each candidate and reports
/// whether it was bound.
#[derive(Debug, Clone, Copy)]
pub struct PortSearch {
    start: u16,
    port: u16,
    wrapped: bool,
}

impl PortSearch {
    pub closed spec fn start_port(&self) -> u16 {
        self.start
    }

    /// The candidate to probe now.
    pub closed spec fn current_port(&self) -> u16 {
        self.port
    }

    /// Whether the search has wrapped to the floor port.
    pub closed spec fn has_wrapped(&self) -> bool {
        self.wrapped
    }

    pub fn new(start: u16) -> (r: PortSearch)
        ensures
            r.start_port() == start,
            r.current_port() == start,
            !r.has_wrapped(),
    {
        PortSearch { start, port: start, wrapped: false }
    }

    /// The port to probe next.
    pub fn current(&self) -> (r: u16)
        ensures
            r == self.current_port(),
    {
        self.port
    }

    /// Moves past a busy candidate. Returns false, leaving the search as it
    /// was, when no candidate is left.
    pub fn advance(&mut self) -> (r: bool)
        ensures
            final(self).start_port() == old(self).start_port(),
            match next_candidate(old(self).current_port(), old(self).has_wrapped()) {
                Some((p, w)) => r && final(self).current_port() == p && final(self).has_wrapped()
                    == w,
                None => !r && *final(self) == *old(self),
            },
            r ==> candidates_left(final(self).current_port(), final(self).has_wrapped())
                < candidates_left(old(self).current_port(), old(self).has_wrapped()),
    {
        if self.port >= 65534 {
            if self.wrapped {
                return false;
            }
            self.port = WRAP_PORT;
            self.wrapped = true;
        } else {
            self.port = self.port + 1;
        }
        true
    }
}

impl PhpServerManager {
    /// One step of the search for a free port, after the caller probed the
    /// current candidate (`bound_elsewhere`: another listener holds it).
    /// A candidate that this manager does not track and that the probe found
    /// free is returned; otherwise the search moves on (`None`), or fails
    /// once every candidate was tried.
    pub fn find_available_port_step(&self, search: &mut PortSearch, bound_elsewhere: bool) -> (r:
        Option<Result<u16>>)
        ensures
            final(search).start_port() == old(search).start_port(),
            ({
                let p = old(search).current_port();
                let busy = has_port(self.instances(), p) || bound_elsewhere;
                let next = next_candidate(p, old(search).has_wrapped());
                &&& !busy ==> r == Some(Ok::<u16, Error>(p)) && *final(search) == *old(search)
                &&& busy && next is Some ==> r is None && Some(
                    (final(search).current_port(), final(search).has_wrapped()),
                ) == next
                &&& busy && next is None ==> (r matches Some(Err(Error::PortsExhausted(s))) && s
                    == old(search).start_port())
            }),
            r matches Some(Ok(p)) ==> !bound_elsewhere && !has_port(self.instances(), p),
    {
        let p = search.current();
        if !self.is_port_in_use(p, bound_elsewhere) {
            return Some(Ok(p));
        }
        if search.advance() {
            None
        } else {
            Some(Err(Error::PortsExhausted(search.start)))
        }
    }
}

} // verus!
