//! Transaction history of an account: the summary, which is the node's
//! signature list as it stands, and the full history, which resolves each
//! listed signature and keeps what resolved, in the order of the list.

use crate::error::{normalize, normalized, GatewayFault, GatewayOperation, WalletError};
use crate::signature::{signature_decoding, TransactionId};
use vstd::prelude::*;

verus! {

/// The details that a run of lookups yields: the outcomes that are `Some`,
/// in the order in which they stand.
pub open spec fn resolved<T>(outcomes: Seq<Option<T>>) -> Seq<T>
    decreases outcomes.len(),
{
    if outcomes.len() == 0 {
        Seq::empty()
    } else {
        let earlier = resolved(outcomes.drop_last());
        match outcomes.last() {
            Some(detail) => earlier.push(detail),
            None => earlier,
        }
    }
}

/// How many of the outcomes are `Some`.
pub open spec fn successes<T>(outcomes: Seq<Option<T>>) -> nat
    decreases outcomes.len(),
{
    if outcomes.len() == 0 {
        0
    } else {
        successes(outcomes.drop_last()) + if outcomes.last() is Some {
            1nat
        } else {
            0nat
        }
    }
}

/// The outcomes of `count` signatures that were skipped.
pub open spec fn skips<T>(count: nat) -> Seq<Option<T>> {
    Seq::new(count, |i: int| None::<T>)
}

/// The texts of a list of strings.
pub open spec fn texts(strings: Seq<String>) -> Seq<Seq<char>> {
    Seq::new(strings.len(), |i: int| strings[i]@)
}

/// A history holds exactly as many details as lookups succeeded, which is
/// never more than were made.
pub proof fn lemma_resolved_len<T>(outcomes: Seq<Option<T>>)
    ensures
        resolved(outcomes).len() == successes(outcomes),
        successes(outcomes) <= outcomes.len(),
    decreases outcomes.len(),
{
    if outcomes.len() > 0 {
        lemma_resolved_len(outcomes.drop_last());
    }
}

/// A lookup that succeeded is in the history, at the place given by the
/// number of successes before it.
pub proof fn lemma_resolved_holds<T>(outcomes: Seq<Option<T>>, i: int)
    requires
        0 <= i < outcomes.len(),
        outcomes[i] is Some,
    ensures
        successes(outcomes.take(i)) < resolved(outcomes).len(),
        resolved(outcomes)[successes(outcomes.take(i)) as int] == outcomes[i]->Some_0,
    decreases outcomes.len(),
{
    let earlier = outcomes.drop_last();
    lemma_resolved_len(earlier);
    if i == outcomes.len() - 1 {
        assert(outcomes.take(i) =~= earlier);
    } else {
        lemma_resolved_holds(earlier, i);
        assert(earlier.take(i) =~= outcomes.take(i));
    }
}

/// The history keeps the order of the lookups: of two that succeeded, the
/// earlier one stands at the smaller place.
pub proof fn lemma_resolved_keeps_order<T>(outcomes: Seq<Option<T>>, i: int, j: int)
    requires
        0 <= i < j <= outcomes.len(),
        outcomes[i] is Some,
    ensures
        successes(outcomes.take(i)) < successes(outcomes.take(j)),
    decreases j,
{
    assert(outcomes.take(j).drop_last() =~= outcomes.take(j - 1));
    assert(outcomes.take(j).last() == outcomes[j - 1]);
    if j - 1 > i {
        lemma_resolved_keeps_order(outcomes, i, j - 1);
    }
}

/// Every detail of the history comes from a lookup that succeeded: the
/// lemma returns that lookup's index.
pub proof fn lemma_resolved_source<T>(outcomes: Seq<Option<T>>, k: int) -> (i: int)
    requires
        0 <= k < resolved(outcomes).len(),
    ensures
        0 <= i < outcomes.len(),
        outcomes[i] == Some(resolved(outcomes)[k]),
        successes(outcomes.take(i)) == k,
    decreases outcomes.len(),
{
    let earlier = outcomes.drop_last();
    lemma_resolved_len(earlier);
    if outcomes.last() is Some && k == resolved(earlier).len() {
        assert(outcomes.take(outcomes.len() - 1) =~= earlier);
        outcomes.len() - 1
    } else {
        let i = lemma_resolved_source(earlier, k);
        assert(earlier.take(i) =~= outcomes.take(i));
        i
    }
}

/// A failed lookup leaves the history as it was, and a successful one adds
/// its detail at the end.
pub proof fn lemma_resolved_push<T>(outcomes: Seq<Option<T>>, outcome: Option<T>)
    ensures
        resolved(outcomes.push(outcome)) == match outcome {
            Some(detail) => resolved(outcomes).push(detail),
            None => resolved(outcomes),
        },
{
    assert(outcomes.push(outcome).drop_last() =~= outcomes);
}

/// The summary history: the node's list as it came, empty or not, or the
/// error that its fault is reported as.
pub fn summary_history<R>(
    listing: Result<Vec<R>, GatewayFault>,
) -> (reply: Result<Vec<R>, WalletError>)
    ensures
        match listing {
            Ok(records) => reply == Ok::<Vec<R>, WalletError>(records),
            Err(fault) => reply == Err::<Vec<R>, WalletError>(
                normalized(GatewayOperation::ListSignatures, fault),
            ),
        },
{
    match listing {
        Ok(records) => Ok(records),
        Err(fault) => Err(normalize(GatewayOperation::ListSignatures, fault)),
    }
}

/// The full history of one account while it is put together. It walks the
/// listed signatures in order, asks for one lookup at a time and keeps the
/// detail of each that succeeds.
pub struct FullHistory<T> {
    signatures: Vec<String>,
    cursor: usize,
    awaiting: bool,
    details: Vec<T>,
    outcomes: Ghost<Seq<Option<T>>>,
}

impl<T> FullHistory<T> {
    /// The listed signatures, most recent first.
    pub closed spec fn signatures(&self) -> Seq<Seq<char>> {
        texts(self.signatures@)
    }

    /// What became of each signature dealt with so far, in list order:
    /// `Some` with the detail where the lookup succeeded, `None` where the
    /// signature was skipped or its lookup failed.
    pub closed spec fn outcomes(&self) -> Seq<Option<T>> {
        self.outcomes@
    }

    /// True while a lookup has been asked for and its outcome not yet given.
    pub closed spec fn awaiting(&self) -> bool {
        self.awaiting
    }

    /// The details kept so far.
    pub closed spec fn details(&self) -> Seq<T> {
        self.details@
    }

    /// The invariant: one outcome for each signature dealt with, the details
    /// are those of the successful ones, only a signature that decodes has a
    /// detail, and a lookup is awaited only for one that decodes.
    pub closed spec fn wf(&self) -> bool {
        &&& self.cursor <= self.signatures@.len()
        &&& self.outcomes@.len() == self.cursor
        &&& self.details@ == resolved(self.outcomes@)
        &&& self.awaiting ==> self.cursor < self.signatures@.len() && TransactionId::well_formed(
            self.signatures@[self.cursor as int]@,
        )
        &&& forall|i: int|
            0 <= i < self.cursor && (#[trigger] self.outcomes@[i]) is Some
                ==> TransactionId::well_formed(self.signatures@[i]@)
    }

    /// What the invariant means to a caller: no more outcomes than listed
    /// signatures, the details kept are those of the successful lookups in
    /// list order, and a detail is only ever kept for a signature that
    /// decodes.
    pub proof fn lemma_invariant(&self)
        requires
            self.wf(),
        ensures
            self.outcomes().len() <= self.signatures().len(),
            self.details() == resolved(self.outcomes()),
            self.details().len() == successes(self.outcomes()),
            forall|i: int|
                0 <= i < self.outcomes().len() && (#[trigger] self.outcomes()[i]) is Some
                    ==> TransactionId::well_formed(self.signatures()[i]),
    {
        lemma_resolved_len(self.outcomes@);
    }

    /// Starts a full history from the node's answer to the listing. A fault
    /// there fails the whole history.
    pub fn begin(
        listing: Result<Vec<String>, GatewayFault>,
    ) -> (begun: Result<FullHistory<T>, WalletError>)
        ensures
            match listing {
                Ok(signatures) => begun matches Ok(history) && history.wf()
                    && history.signatures() == texts(signatures@)
                    && history.outcomes() == Seq::<Option<T>>::empty() && !history.awaiting(),
                Err(fault) => begun matches Err(error) && error == normalized(
                    GatewayOperation::ListSignatures,
                    fault,
                ),
            },
    {
        match listing {
            Ok(signatures) => {
                let history = FullHistory {
                    signatures,
                    cursor: 0,
                    awaiting: false,
                    details: Vec::new(),
                    outcomes: Ghost(Seq::empty()),
                };
                Ok(history)
            },
            Err(fault) => Err(normalize(GatewayOperation::ListSignatures, fault)),
        }
    }

    /// True while a lookup has been asked for and its outcome not yet given.
    pub fn is_awaiting(&self) -> (awaiting: bool)
        ensures
            awaiting == self.awaiting(),
    {
        self.awaiting
    }

    /// The next lookup to make, or `None` when the list is done. Signatures
    /// that do not decode are skipped on the way, each with the outcome
    /// `None`; the one returned is the first after them that decodes.
    pub fn next_request(&mut self) -> (request: Option<TransactionId>)
        requires
            old(self).wf(),
        ensures
            final(self).wf(),
            final(self).signatures() == old(self).signatures(),
            old(self).outcomes().len() <= final(self).outcomes().len(),
            final(self).outcomes().len() <= final(self).signatures().len(),
            final(self).outcomes() == old(self).outcomes() + skips::<T>(
                (final(self).outcomes().len() - old(self).outcomes().len()) as nat,
            ),
            forall|i: int|
                old(self).outcomes().len() <= i < final(self).outcomes().len()
                    ==> !TransactionId::well_formed(#[trigger] final(self).signatures()[i]),
            final(self).awaiting() == (request is Some),
            final(self).complete() == (request is None),
            match request {
                Some(id) => final(self).outcomes().len() < final(self).signatures().len()
                    && signature_decoding(
                    final(self).signatures()[final(self).outcomes().len() as int],
                ) == Some(id@),
                None => final(self).outcomes().len() == final(self).signatures().len(),
            },
    {
        let ghost before = *self;
        self.awaiting = false;
        assert(self.outcomes@ =~= before.outcomes@ + skips::<T>(0));
        while self.cursor < self.signatures.len()
            invariant
                before == *old(self),
                self.wf(),
                !self.awaiting,
                self.signatures == before.signatures,
                before.cursor <= self.cursor <= self.signatures@.len(),
                before.outcomes@.len() == before.cursor,
                self.outcomes@ == before.outcomes@ + skips::<T>(
                    (self.cursor - before.cursor) as nat,
                ),
                forall|i: int|
                    before.cursor <= i < self.cursor ==> !TransactionId::well_formed(
                        #[trigger] texts(self.signatures@)[i],
                    ),
            decreases self.signatures@.len() - self.cursor,
        {
            let parsed = TransactionId::parse(self.signatures[self.cursor].as_str());
            match parsed {
                Ok(id) => {
                    self.awaiting = true;
                    return Some(id);
                },
                Err(_) => {
                    proof {
                        lemma_resolved_push(self.outcomes@, None);
                        assert(self.outcomes@.push(None) =~= before.outcomes@ + skips::<T>(
                            (self.cursor + 1 - before.cursor) as nat,
                        ));
                    }
                    self.outcomes = Ghost(self.outcomes@.push(None));
                    self.cursor = self.cursor + 1;
                },
            }
        }
        None
    }

    /// Takes the outcome of the lookup that was asked for last. A detail is
    /// kept at the end of those kept before; a fault of either kind drops
    /// the signature and nothing else.
    pub fn record(&mut self, outcome: Result<T, GatewayFault>)
        requires
            old(self).wf(),
            old(self).awaiting(),
        ensures
            final(self).wf(),
            !final(self).awaiting(),
            final(self).signatures() == old(self).signatures(),
            final(self).outcomes() == old(self).outcomes().push(
                match outcome {
                    Ok(detail) => Some(detail),
                    Err(_) => None,
                },
            ),
    {
        assert(self.cursor < self.signatures.len());
        let next: usize = self.cursor + 1;
        match outcome {
            Ok(detail) => {
                proof {
                    lemma_resolved_push(self.outcomes@, Some(detail));
                }
                self.outcomes = Ghost(self.outcomes@.push(Some(detail)));
                self.details.push(detail);
            },
            Err(_) => {
                proof {
                    lemma_resolved_push(self.outcomes@, None);
                }
                self.outcomes = Ghost(self.outcomes@.push(None));
            },
        }
        self.cursor = next;
        self.awaiting = false;
    }

    /// True once every listed signature has its outcome.
    pub open spec fn complete(&self) -> bool {
        !self.awaiting() && self.outcomes().len() == self.signatures().len()
    }

    /// True once every listed signature has its outcome, which is so when
    /// `next_request` has returned `None`.
    pub fn is_complete(&self) -> (complete: bool)
        requires
            self.wf(),
        ensures
            complete == self.complete(),
    {
        !self.awaiting && self.cursor == self.signatures.len()
    }

    /// Ends a complete history and hands out the details kept: those of the
    /// lookups that succeeded, in list order.
    pub fn finish(self) -> (details: Vec<T>)
        requires
            self.wf(),
            self.complete(),
        ensures
            details@ == self.details(),
            details@ == resolved(self.outcomes()),
            details@.len() == successes(self.outcomes()),
            details@.len() <= self.outcomes().len(),
    {
        proof {
            lemma_resolved_len(self.outcomes@);
        }
        self.details
    }
}

} // verus!
