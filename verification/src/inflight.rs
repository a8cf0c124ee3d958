//! At most one update in flight for each client: a guard that a caller asks
//! before it starts an update and tells when the update has ended.

use vstd::prelude::*;
use crate::client::ClientTxError;

verus! {

/// The clients for which an update is in flight.
#[derive(Debug)]
pub struct UpdateGuard {
    in_flight: Vec<String>,
}

impl UpdateGuard {
    /// The identifiers of the clients for which an update is in flight.
    pub closed spec fn clients(&self) -> Set<Seq<char>> {
        Set::new(
            |c: Seq<char>| exists|i: int| 0 <= i < self.in_flight@.len() && self.in_flight@[i]@ == c,
        )
    }

    /// No client is held twice.
    pub closed spec fn wf(&self) -> bool {
        forall|i: int, j: int|
            0 <= i < j < self.in_flight@.len() ==> self.in_flight@[i]@ != self.in_flight@[j]@
    }

    /// A guard with no update in flight.
    pub fn new() -> (r: UpdateGuard)
        ensures
            r.wf(),
            r.clients() == Set::<Seq<char>>::empty(),
    {
        let r = UpdateGuard { in_flight: Vec::new() };
        r
    }

    fn position(&self, client_id: &String) -> (r: Option<usize>)
        ensures
            match r {
                Some(i) => i < self.in_flight@.len() && self.in_flight@[i as int]@ == client_id@,
                None => forall|j: int|
                    0 <= j < self.in_flight@.len() ==> self.in_flight@[j]@ != client_id@,
            },
    {
        let mut i: usize = 0;
        while i < self.in_flight.len()
            invariant
                i <= self.in_flight@.len(),
                forall|j: int| 0 <= j < i ==> self.in_flight@[j]@ != client_id@,
            decreases self.in_flight@.len() - i,
        {
            if self.in_flight[i] == *client_id {
                return Some(i);
            }
            i += 1;
        }
        None
    }

    /// Tests whether an update is in flight for the client.
    pub fn is_updating(&self, client_id: &String) -> (r: bool)
        ensures
            r == self.clients().contains(client_id@),
    {
        self.position(client_id).is_some()
    }

    /// Claims the client for an update. The claim is granted exactly when no
    /// update is in flight for the client; a refused claim changes nothing.
    pub fn try_begin(&mut self, client_id: &String) -> (granted: bool)
        requires
            old(self).wf(),
        ensures
            final(self).wf(),
            granted == !old(self).clients().contains(client_id@),
            final(self).clients() == old(self).clients().insert(client_id@),
    {
        match self.position(client_id) {
            Some(_) => false,
            None => {
                let ghost before = self.in_flight@;
                self.in_flight.push(client_id.clone());
                assert forall|c: Seq<char>|
                    self.clients().contains(c) <==> old(self).clients().insert(
                        client_id@,
                    ).contains(c) by {
                    if old(self).clients().contains(c) {
                        let i = choose|i: int| 0 <= i < before.len() && before[i]@ == c;
                        assert(self.in_flight@[i]@ == c);
                    }
                    if c == client_id@ {
                        assert(self.in_flight@[before.len() as int]@ == c);
                    }
                }
                true
            },
        }
    }

    /// Claims the client for an update, or says that one is in flight.
    pub fn claim(&mut self, client_id: &String) -> (r: Result<(), ClientTxError>)
        requires
            old(self).wf(),
        ensures
            final(self).wf(),
            final(self).clients() == old(self).clients().insert(client_id@),
            old(self).clients().contains(client_id@) ==> r == Err::<(), ClientTxError>(
                ClientTxError::UpdateInFlight,
            ),
            !old(self).clients().contains(client_id@) ==> r == Ok::<(), ClientTxError>(()),
    {
        if self.try_begin(client_id) {
            Ok(())
        } else {
            Err(ClientTxError::UpdateInFlight)
        }
    }

    /// Gives the client up after its update has ended, whether it succeeded
    /// or not. Giving up a client that is not held changes nothing.
    pub fn finish(&mut self, client_id: &String)
        requires
            old(self).wf(),
        ensures
            final(self).wf(),
            final(self).clients() == old(self).clients().remove(client_id@),
    {
        match self.position(client_id) {
            None => {},
            Some(k) => {
                let ghost before = self.in_flight@;
                self.in_flight.remove(k);
                assert forall|c: Seq<char>|
                    self.clients().contains(c) <==> old(self).clients().remove(
                        client_id@,
                    ).contains(c) by {
                    if old(self).clients().contains(c) && c != client_id@ {
                        let i = choose|i: int| 0 <= i < before.len() && before[i]@ == c;
                        if i < k {
                            assert(self.in_flight@[i]@ == c);
                        } else {
                            assert(self.in_flight@[i - 1]@ == c);
                        }
                    }
                }
            },
        }
    }
}

} // verus!
