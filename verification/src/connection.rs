//! The connection that every request of one test shares: its state, and the
//! shared and exclusive holds under which the state is read and changed.
//!
//! The wrapper decides; it never waits. An acquisition that cannot be granted
//! is answered with `None`, and the caller tries again once a hold was
//! released. A hold that is never released therefore keeps every later
//! exclusive acquisition waiting: the wrapper frees nothing by itself.

use vstd::prelude::*;

verus! {

/// The transaction that a test's requests run in, named by its number.
#[derive(Clone, Copy, Debug, PartialEq, Eq, Structural)]
pub struct TransactionHandle {
    pub id: u64,
}

/// What the handlers find when they ask for the connection.
#[derive(Clone, Copy, Debug, PartialEq, Eq, Structural)]
pub enum ConnectionState {
    /// A transaction is open; every query runs inside it.
    Transacting(TransactionHandle),
    /// No transaction is open.
    Disconnected,
}

/// What is left to do with the transaction when a wrapper goes away. There is
/// no way to commit.
#[derive(Clone, Copy, Debug, PartialEq, Eq, Structural)]
pub enum Teardown {
    /// The open transaction is rolled back.
    Rollback(TransactionHandle),
    /// Nothing was open.
    Nothing,
}

/// Why a change of state was refused.
#[derive(Clone, Copy, Debug, PartialEq, Eq, Structural)]
pub enum ProtocolError {
    /// The caller holds no hold of the kind that the operation needs.
    NotHeld,
    /// A transaction is open; it is not replaced.
    AlreadyTransacting,
}

/// A shared hold on a wrapper.
#[derive(Debug)]
pub struct ReadGuard {
    _hold: (),
}

/// The exclusive hold on a wrapper.
#[derive(Debug)]
pub struct WriteGuard {
    _hold: (),
}

/// A wrapper as mathematical values: the state, the number of shared holds,
/// and whether the exclusive hold is out.
pub struct Holds {
    pub state: ConnectionState,
    pub shared: nat,
    pub exclusive: bool,
}

impl Holds {
    /// The exclusive hold excludes every shared hold.
    pub open spec fn well_formed(self) -> bool {
        self.exclusive ==> self.shared == 0
    }

    /// Nobody holds the wrapper.
    pub open spec fn free(self) -> bool {
        !self.exclusive && self.shared == 0
    }

    /// A shared hold is granted unless the exclusive hold is out, or the
    /// count of shared holds has reached the largest number it can take.
    pub open spec fn grants_shared(self) -> bool {
        !self.exclusive && self.shared < u64::MAX
    }

    /// The exclusive hold is granted only to a free wrapper.
    pub open spec fn grants_exclusive(self) -> bool {
        self.free()
    }

    pub open spec fn share(self) -> Holds {
        Holds { shared: self.shared + 1, ..self }
    }

    pub open spec fn unshare(self) -> Holds {
        Holds { shared: (self.shared - 1) as nat, ..self }
    }

    pub open spec fn lock(self) -> Holds {
        Holds { exclusive: true, ..self }
    }

    pub open spec fn unlock(self) -> Holds {
        Holds { exclusive: false, ..self }
    }

    pub open spec fn with_state(self, state: ConnectionState) -> Holds {
        Holds { state, ..self }
    }

    /// What is left to do with the transaction at the end.
    pub open spec fn teardown(self) -> Teardown {
        match self.state {
            ConnectionState::Transacting(handle) => Teardown::Rollback(handle),
            ConnectionState::Disconnected => Teardown::Nothing,
        }
    }
}

/// The holder of the one connection state of a test.
#[derive(Debug)]
pub struct ConnectionWrapper {
    state: ConnectionState,
    shared: u64,
    exclusive: bool,
}

impl View for ConnectionWrapper {
    type V = Holds;

    closed spec fn view(&self) -> Holds {
        Holds { state: self.state, shared: self.shared as nat, exclusive: self.exclusive }
    }
}

impl ConnectionWrapper {
    #[verifier::type_invariant]
    spec fn exclusive_excludes_shared(self) -> bool {
        self.exclusive ==> self.shared == 0
    }

    /// A wrapper around the open transaction `handle`, held by nobody.
    pub fn new(handle: TransactionHandle) -> (wrapper: ConnectionWrapper)
        ensures
            wrapper@ == (Holds {
                state: ConnectionState::Transacting(handle),
                shared: 0,
                exclusive: false,
            }),
    {
        ConnectionWrapper {
            state: ConnectionState::Transacting(handle),
            shared: 0,
            exclusive: false,
        }
    }

    /// Whether nobody holds the wrapper. Every wrapper is well formed.
    pub fn is_free(&self) -> (free: bool)
        ensures
            free == self@.free(),
            self@.well_formed(),
    {
        proof {
            use_type_invariant(self);
        }
        !self.exclusive && self.shared == 0
    }

    /// Asks for a shared hold. It is granted whenever the exclusive hold is
    /// not out, however many shared holds there are; `None` tells the caller
    /// to wait.
    pub fn acquire_shared(&mut self) -> (guard: Option<ReadGuard>)
        ensures
            guard is Some <==> old(self)@.grants_shared(),
            guard is Some ==> final(self)@ == old(self)@.share(),
            guard is None ==> final(self)@ == old(self)@,
    {
        if self.exclusive || self.shared == u64::MAX {
            None
        } else {
            self.shared = self.shared + 1;
            Some(ReadGuard { _hold: () })
        }
    }

    /// Asks for the exclusive hold. It is granted only while nobody holds the
    /// wrapper; `None` tells the caller to wait until every hold was released.
    pub fn acquire_exclusive(&mut self) -> (guard: Option<WriteGuard>)
        ensures
            guard is Some <==> old(self)@.grants_exclusive(),
            guard is Some ==> final(self)@ == old(self)@.lock(),
            guard is None ==> final(self)@ == old(self)@,
    {
        if self.exclusive || self.shared > 0 {
            None
        } else {
            self.exclusive = true;
            Some(WriteGuard { _hold: () })
        }
    }

    /// Gives a shared hold back. Refused, with nothing changed, where no
    /// shared hold is out.
    pub fn release_shared(&mut self, guard: ReadGuard) -> (r: Result<(), ProtocolError>)
        ensures
            r is Ok <==> old(self)@.shared > 0,
            r is Ok ==> final(self)@ == old(self)@.unshare(),
            r matches Err(why) ==> why == ProtocolError::NotHeld && final(self)@ == old(self)@,
    {
        proof {
            use_type_invariant(&*self);
        }
        if self.shared == 0 {
            Err(ProtocolError::NotHeld)
        } else {
            self.shared = self.shared - 1;
            Ok(())
        }
    }

    /// Gives the exclusive hold back. Refused, with nothing changed, where it
    /// is not out.
    pub fn release_exclusive(&mut self, guard: WriteGuard) -> (r: Result<(), ProtocolError>)
        ensures
            r is Ok <==> old(self)@.exclusive,
            r is Ok ==> final(self)@ == old(self)@.unlock(),
            r matches Err(why) ==> why == ProtocolError::NotHeld && final(self)@ == old(self)@,
    {
        if !self.exclusive {
            Err(ProtocolError::NotHeld)
        } else {
            self.exclusive = false;
            Ok(())
        }
    }

    /// The state, as a holder of a shared hold sees it.
    pub fn state(&self, guard: &ReadGuard) -> (state: ConnectionState)
        ensures
            state == self@.state,
    {
        self.state
    }

    /// The state, as the holder of the exclusive hold sees it.
    pub fn state_mut(&self, guard: &WriteGuard) -> (state: ConnectionState)
        ensures
            state == self@.state,
    {
        self.state
    }

    /// Closes the open transaction under the exclusive hold and hands back
    /// what is left to do with it. Refused where the exclusive hold is not
    /// out.
    pub fn disconnect(&mut self, guard: &WriteGuard) -> (r: Result<Teardown, ProtocolError>)
        ensures
            r is Ok <==> old(self)@.exclusive,
            r matches Ok(teardown) ==> teardown == old(self)@.teardown() && final(self)@ == old(
                self,
            )@.with_state(ConnectionState::Disconnected),
            r matches Err(why) ==> why == ProtocolError::NotHeld && final(self)@ == old(self)@,
    {
        proof {
            use_type_invariant(&*self);
        }
        if !self.exclusive {
            return Err(ProtocolError::NotHeld);
        }
        let teardown = match self.state {
            ConnectionState::Transacting(handle) => Teardown::Rollback(handle),
            ConnectionState::Disconnected => Teardown::Nothing,
        };
        self.state = ConnectionState::Disconnected;
        Ok(teardown)
    }

    /// Puts the transaction `handle` into a disconnected wrapper under the
    /// exclusive hold. An open transaction is never replaced.
    pub fn begin(&mut self, guard: &WriteGuard, handle: TransactionHandle) -> (r: Result<
        (),
        ProtocolError,
    >)
        ensures
            r is Ok <==> old(self)@.exclusive && old(self)@.state == ConnectionState::Disconnected,
            r is Ok ==> final(self)@ == old(self)@.with_state(
                ConnectionState::Transacting(handle),
            ),
            r is Err ==> final(self)@ == old(self)@,
            r matches Err(why) ==> why == if old(self)@.exclusive {
                ProtocolError::AlreadyTransacting
            } else {
                ProtocolError::NotHeld
            },
    {
        proof {
            use_type_invariant(&*self);
        }
        if !self.exclusive {
            return Err(ProtocolError::NotHeld);
        }
        match self.state {
            ConnectionState::Transacting(_) => Err(ProtocolError::AlreadyTransacting),
            ConnectionState::Disconnected => {
                self.state = ConnectionState::Transacting(handle);
                Ok(())
            },
        }
    }

    /// Ends the wrapper: an open transaction is rolled back, never committed.
    pub fn close(self) -> (teardown: Teardown)
        ensures
            teardown == self@.teardown(),
    {
        match self.state {
            ConnectionState::Transacting(handle) => Teardown::Rollback(handle),
            ConnectionState::Disconnected => Teardown::Nothing,
        }
    }
}

/// What was changed under the exclusive hold is what the next shared hold
/// sees: take the exclusive hold of a free wrapper, set the state, release,
/// and a shared hold is granted and reads that state.
pub proof fn law_exclusive_change_is_seen_by_shared(holds: Holds, next: ConnectionState)
    requires
        holds.well_formed(),
        holds.grants_exclusive(),
    ensures
        holds.lock().with_state(next).unlock().grants_shared(),
        holds.lock().with_state(next).unlock().share().state == next,
        !holds.lock().with_state(next).grants_shared(),
{
}

/// Shared holds do not wait for each other: where one is granted, the next
/// one is granted too, up to the largest count.
pub proof fn law_shared_holds_coexist(holds: Holds)
    requires
        holds.well_formed(),
        holds.grants_shared(),
    ensures
        holds.share().well_formed(),
        holds.share().shared < u64::MAX ==> holds.share().grants_shared(),
        holds.free() ==> holds.share().grants_shared() && holds.share().share().shared == 2,
{
}

/// The exclusive hold waits for every other hold: it is refused while a
/// shared hold or the exclusive hold is out, and granted once the last of
/// them was released.
pub proof fn law_exclusive_waits_for_every_hold(holds: Holds)
    requires
        holds.well_formed(),
    ensures
        holds.grants_exclusive() <==> holds.shared == 0 && !holds.exclusive,
        holds.shared > 0 ==> !holds.grants_exclusive() && (holds.unshare().grants_exclusive()
            <==> holds.shared == 1),
        holds.exclusive ==> !holds.grants_exclusive() && !holds.grants_shared()
            && holds.unlock().grants_exclusive(),
{
}

/// The wrapper with `count` more shared holds.
pub open spec fn share_times(holds: Holds, count: nat) -> Holds
    decreases count,
{
    if count == 0 {
        holds
    } else {
        share_times(holds, (count - 1) as nat).share()
    }
}

/// The wrapper with `count` shared holds released.
pub open spec fn unshare_times(holds: Holds, count: nat) -> Holds
    decreases count,
{
    if count == 0 {
        holds
    } else {
        unshare_times(holds, (count - 1) as nat).unshare()
    }
}

/// Of `count` shared holds on a free wrapper, the exclusive hold waits for
/// all: after `released` releases it is granted exactly where `released` is
/// `count`.
pub proof fn law_exclusive_after_all_shared_released(holds: Holds, count: nat, released: nat)
    requires
        holds.well_formed(),
        holds.free(),
        released <= count,
    ensures
        unshare_times(share_times(holds, count), released).shared == count - released,
        !unshare_times(share_times(holds, count), released).exclusive,
        unshare_times(share_times(holds, count), released).grants_exclusive() <==> released
            == count,
        unshare_times(share_times(holds, count), released).state == holds.state,
    decreases released,
{
    lemma_share_times(holds, count);
    if released > 0 {
        law_exclusive_after_all_shared_released(holds, count, (released - 1) as nat);
    }
}

proof fn lemma_share_times(holds: Holds, count: nat)
    ensures
        share_times(holds, count) == (Holds { shared: holds.shared + count, ..holds }),
    decreases count,
{
    if count > 0 {
        lemma_share_times(holds, (count - 1) as nat);
    }
}

} // verus!
