//! The guard inside a notifier: however often the host invokes the notifier,
//! the awaiting side is signalled once.
//!
//! The signal travels over a single-use channel: the notifier's first
//! invocation sends one signal and closes the channel, and the awaiting side
//! resolves when a signal is there. [`ChannelState`] and [`after_fires`] model
//! that channel, so that what the awaiting side sees can be stated and proved.

use vstd::prelude::*;

verus! {

/// What the notifier does on one invocation.
#[derive(Clone, Copy, Debug, PartialEq, Eq, Structural)]
pub enum FireAction {
    /// Send the signal, then close the channel.
    SendAndClose,
    /// Do nothing: the signal was already sent.
    Ignore,
}

/// The idempotency guard owned by a notifier.
pub struct OnceSignal {
    fired: bool,
}

impl OnceSignal {
    /// Whether the notifier has already been invoked.
    pub closed spec fn fired(&self) -> bool {
        self.fired
    }

    /// A guard for a notifier that has not been invoked yet.
    pub fn new() -> (r: OnceSignal)
        ensures
            !r.fired(),
    {
        OnceSignal { fired: false }
    }

    /// Records one invocation of the notifier and says what it must do: send
    /// and close on the first, nothing afterwards.
    pub fn fire(&mut self) -> (a: FireAction)
        ensures
            a == fire_action(old(self).fired()),
            final(self).fired(),
    {
        if self.fired {
            FireAction::Ignore
        } else {
            self.fired = true;
            FireAction::SendAndClose
        }
    }

    /// Whether the notifier has already been invoked.
    pub fn has_fired(&self) -> (r: bool)
        ensures
            r == self.fired(),
    {
        self.fired
    }
}

/// The action of an invocation, given whether one came before it.
pub open spec fn fire_action(fired: bool) -> FireAction {
    if fired {
        FireAction::Ignore
    } else {
        FireAction::SendAndClose
    }
}

/// The single-use channel between the notifier and the awaiting side.
pub struct ChannelState {
    /// Whether the sending side may still send.
    pub open: bool,
    /// How many signals wait for the awaiting side.
    pub queued: nat,
    /// How many sends were attempted on a closed channel: each would be a
    /// breach of the channel's protocol.
    pub violations: nat,
}

/// The channel as the adapter creates it.
pub open spec fn fresh_channel() -> ChannelState {
    ChannelState { open: true, queued: 0, violations: 0 }
}

/// The channel after the notifier performs `a`.
pub open spec fn deliver(c: ChannelState, a: FireAction) -> ChannelState {
    match a {
        FireAction::SendAndClose => if c.open {
            ChannelState { open: false, queued: c.queued + 1, violations: c.violations }
        } else {
            ChannelState { open: false, queued: c.queued, violations: c.violations + 1 }
        },
        FireAction::Ignore => c,
    }
}

/// The guard and the channel after `n` invocations of a fresh notifier.
pub open spec fn after_fires(n: nat) -> (bool, ChannelState)
    decreases n,
{
    if n == 0 {
        (false, fresh_channel())
    } else {
        let (fired, c) = after_fires((n - 1) as nat);
        (true, deliver(c, fire_action(fired)))
    }
}

/// Whether the awaiting side can resume: a signal waits, or the channel ended.
pub open spec fn resolves(c: ChannelState) -> bool {
    c.queued > 0 || !c.open
}

/// Invoking the notifier any number of times, at least once, leaves exactly
/// one signal for the awaiting side and no breach of the channel; the
/// awaiting side can resume from the first invocation on.
pub proof fn lemma_single_resolution(n: nat)
    requires
        n >= 1,
    ensures
        after_fires(n).0,
        after_fires(n).1.queued == 1,
        after_fires(n).1.violations == 0,
        !after_fires(n).1.open,
        resolves(after_fires(n).1),
        resolves(after_fires(1).1),
    decreases n,
{
    assert(after_fires(0) == (false, fresh_channel()));
    assert(after_fires(1) == (true, deliver(fresh_channel(), FireAction::SendAndClose)));
    if n > 1 {
        lemma_single_resolution((n - 1) as nat);
    }
}

/// Until the notifier is invoked, the awaiting side cannot resume.
pub proof fn lemma_no_premature_resolution()
    ensures
        !after_fires(0).0,
        !resolves(after_fires(0).1),
{
}

/// Invoking the notifier twice in a row, after any number of earlier
/// invocations, does what the first of the two does: the second is inert and
/// no breach of the channel comes of it.
pub proof fn lemma_idempotent_close(n: nat)
    ensures
        after_fires(n + 2).1 == after_fires(n + 1).1,
        after_fires(n + 2).1.violations == 0,
        after_fires(n + 2).1.queued == 1,
{
    lemma_single_resolution(n + 1);
    lemma_single_resolution(n + 2);
}

} // verus!
