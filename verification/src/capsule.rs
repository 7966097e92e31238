//! The boundary hand-off protocol: a capsule carries an exported payload
//! across a runtime boundary under a two-name convention. It starts under
//! the base name, still owing the release; a consumer that takes the payload
//! over renames it to the used name, and the capsule's own destructor
//! releases only a payload that was never taken over. The rename is what
//! keeps the release from firing twice.

use vstd::prelude::*;

verus! {

/// Name of a capsule that still owes the release of its payload.
pub const DLTENSOR_CAPSULE_NAME: &'static str = "dltensor";

/// Name of a capsule whose payload a consumer has taken over.
pub const DLTENSOR_CAPSULE_USED_NAME: &'static str = "used_dltensor";

/// Name of a versioned capsule that still owes the release of its payload.
pub const DLTENSOR_VERSIONED_CAPSULE_NAME: &'static str = "dltensor_versioned";

/// Name of a versioned capsule whose payload a consumer has taken over.
pub const DLTENSOR_VERSIONED_CAPSULE_USED_NAME: &'static str = "used_dltensor_versioned";

/// The two states of a capsule, told apart on the wire by its name: still
/// exporting under the base name, or transferred under the used name.
/// Transferred is terminal.
#[derive(Debug, Copy, Clone, PartialEq, Eq, Structural)]
pub enum CapsuleState {
    /// The capsule still holds its payload and owes the release.
    Exporting,
    /// A consumer has taken the payload over; the capsule owes nothing.
    Transferred,
}

/// What a transfer yields from a capsule in the given state: the payload if
/// the capsule was still exporting, nothing if it was already transferred.
pub open spec fn transfer_yield<P>(state: CapsuleState, payload: Option<P>) -> Option<P> {
    match state {
        CapsuleState::Exporting => payload,
        CapsuleState::Transferred => None,
    }
}

/// What the capsule's destructor yields for release: the payload if the
/// capsule was still exporting, nothing if a consumer took it over.
pub open spec fn finalize_yield<P>(state: CapsuleState, payload: Option<P>) -> Option<P> {
    match state {
        CapsuleState::Exporting => payload,
        CapsuleState::Transferred => None,
    }
}

/// One where a payload was yielded, zero where nothing was.
pub open spec fn yield_count<P>(yielded: Option<P>) -> int {
    match yielded {
        Some(_) => 1,
        None => 0,
    }
}

/// The boundary object of the hand-off protocol: a payload and the
/// two-state name.
#[derive(Debug)]
pub struct Capsule<P> {
    payload: Option<P>,
    state: CapsuleState,
}

impl<P> Capsule<P> {
    /// The capsule's state.
    pub closed spec fn spec_state(self) -> CapsuleState {
        self.state
    }

    /// The payload the capsule still holds.
    pub closed spec fn spec_payload(self) -> Option<P> {
        self.payload
    }

    /// The capsule holds its payload exactly while it is still exporting.
    pub open spec fn inv(self) -> bool {
        self.spec_payload() is Some <==> self.spec_state() is Exporting
    }

    /// Wrap a freshly exported payload; the capsule starts under the base
    /// name, owing the release.
    pub fn wrap(payload: P) -> (r: Self)
        ensures
            r.inv(),
            r.spec_state() is Exporting,
            r.spec_payload() == Some(payload),
    {
        Capsule { payload: Some(payload), state: CapsuleState::Exporting }
    }

    /// The capsule's state.
    pub fn state(&self) -> (r: CapsuleState)
        ensures
            r == self.spec_state(),
    {
        self.state
    }

    /// Consumer take-over: rename the capsule to the used name and take the
    /// payload out. A capsule already transferred yields nothing; the
    /// terminal state never yields twice.
    pub fn transfer(&mut self) -> (r: Option<P>)
        requires
            old(self).inv(),
        ensures
            final(self).inv(),
            final(self).spec_state() is Transferred,
            final(self).spec_payload() is None,
            r == transfer_yield(old(self).spec_state(), old(self).spec_payload()),
            old(self).spec_state() is Exporting ==> r is Some,
    {
        match self.state {
            CapsuleState::Exporting => {
                self.state = CapsuleState::Transferred;
                self.payload.take()
            },
            CapsuleState::Transferred => None,
        }
    }

    /// The capsule's own destructor: it yields the payload for release
    /// exactly when the name still reads as exporting, and stays silent for
    /// a capsule whose payload a consumer took over.
    pub fn finalize(self) -> (r: Option<P>)
        requires
            self.inv(),
        ensures
            r == finalize_yield(self.spec_state(), self.spec_payload()),
            self.spec_state() is Exporting ==> r is Some && Some(r->0) == self.spec_payload(),
            self.spec_state() is Transferred ==> r is None,
    {
        match self.state {
            CapsuleState::Exporting => self.payload,
            CapsuleState::Transferred => None,
        }
    }
}

/// Hand-off correctness: when a consumer transfers the payload out of an
/// exporting capsule, the transfer yields the payload, the capsule is left
/// transferred with nothing inside, and its destructor then yields nothing.
/// The payload leaves the capsule exactly once, through the transfer alone.
pub proof fn lemma_capsule_handoff<P>(c: Capsule<P>)
    requires
        c.inv(),
        c.spec_state() is Exporting,
    ensures
        transfer_yield(c.spec_state(), c.spec_payload()) == c.spec_payload(),
        transfer_yield(c.spec_state(), c.spec_payload()) is Some,
        finalize_yield(CapsuleState::Transferred, None::<P>) is None,
        yield_count(transfer_yield(c.spec_state(), c.spec_payload())) + yield_count(
            finalize_yield(CapsuleState::Transferred, None::<P>),
        ) == 1,
{
}

/// Untransferred cleanup: the destructor of a capsule that was never
/// transferred yields its payload for release, exactly once.
pub proof fn lemma_capsule_cleanup<P>(c: Capsule<P>)
    requires
        c.inv(),
        c.spec_state() is Exporting,
    ensures
        finalize_yield(c.spec_state(), c.spec_payload()) == c.spec_payload(),
        finalize_yield(c.spec_state(), c.spec_payload()) is Some,
        yield_count(finalize_yield(c.spec_state(), c.spec_payload())) == 1,
{
}

/// At most one release, whatever happens: across any one transfer and the
/// destructor of the capsule it leaves behind, the payload is yielded once
/// when the capsule was exporting and never when it was already
/// transferred.
pub proof fn lemma_release_at_most_once<P>(c: Capsule<P>)
    requires
        c.inv(),
    ensures
        yield_count(transfer_yield(c.spec_state(), c.spec_payload())) + yield_count(
            finalize_yield(CapsuleState::Transferred, None::<P>),
        ) == (if c.spec_state() is Exporting {
            1int
        } else {
            0int
        }),
        yield_count(finalize_yield(c.spec_state(), c.spec_payload())) == (if c.spec_state()
            is Exporting {
            1int
        } else {
            0int
        }),
{
}

} // verus!
