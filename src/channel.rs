use vstd::prelude::*;

use crossbeam_channel::{Receiver, Sender};

verus! {

#[verifier::external_type_specification]
#[verifier::external_body]
#[verifier::reject_recursive_types(T)]
pub struct ExSender<T>(Sender<T>);

#[verifier::external_type_specification]
#[verifier::external_body]
#[verifier::reject_recursive_types(T)]
pub struct ExReceiver<T>(Receiver<T>);

/// Relies on `crossbeam_channel::unbounded`: the two ends of a new channel
/// without a bound on what it holds.
pub assume_specification<T>[ crossbeam_channel::unbounded::<T> ]() -> (Sender<T>, Receiver<T>);

/// The sending end of a channel that carries candidates' handles to a search
/// session. It is only made by [`open_channel`], so the channel behind it is
/// unbounded and a send never waits. It keeps a record of every handle offered
/// to the channel, in order, each with whether the channel accepted it.
/// Dropping it closes the channel: the reader then sees the end of the input.
#[verifier::reject_recursive_types(H)]
pub struct CandidateSender<H> {
    tx: Sender<H>,
    log: Ghost<Seq<(H, bool)>>,
}

impl<H> CandidateSender<H> {
    /// Every handle offered so far, in order, with whether it was accepted.
    pub closed spec fn log(&self) -> Seq<(H, bool)> {
        self.log@
    }
}

/// The record of handles that were all accepted, in their order.
pub open spec fn accepted<H>(handles: Seq<H>) -> Seq<(H, bool)> {
    handles.map_values(|h: H| (h, true))
}

/// The record of offering `handles` until the one at `k` was refused: those
/// before it accepted, in their order, then that one refused.
pub open spec fn refused_at<H>(handles: Seq<H>, k: int) -> Seq<(H, bool)> {
    accepted(handles.take(k)).push((handles[k], false))
}

/// A new unbounded channel for carrying handles to a search session; nothing
/// has been offered to it yet.
pub fn open_channel<H>() -> (r: (CandidateSender<H>, Receiver<H>))
    ensures
        r.0.log() == Seq::<(H, bool)>::empty(),
{
    let (tx, rx) = crossbeam_channel::unbounded();
    (CandidateSender { tx, log: Ghost(Seq::empty()) }, rx)
}

/// Relies on `crossbeam_channel::Sender::send` on an unbounded channel: the
/// message is queued without waiting, unless every receiver is gone, in which
/// case it is refused and handed back in the error, which is dropped here.
#[verifier::external_body]
fn send_one<H>(tx: &mut CandidateSender<H>, h: H) -> (r: bool)
    ensures
        final(tx).log() == old(tx).log().push((h, r)),
{
    tx.tx.send(h).is_ok()
}

/// Offers every handle to the channel, in their order, and stops at the first
/// one refused (the reading side is gone): `true` when all were accepted,
/// `false` when one was refused, the handles after it not being offered.
pub fn feed<H>(tx: &mut CandidateSender<H>, handles: Vec<H>) -> (r: bool)
    ensures
        r ==> final(tx).log() == old(tx).log() + accepted(handles@),
        !r ==> exists|k: int|
            0 <= k < handles@.len() && final(tx).log() == old(tx).log() + #[trigger] refused_at(
                handles@,
                k,
            ),
{
    let ghost start = tx.log();
    let ghost given = handles@;
    let mut all_accepted = true;
    let ghost mut refused: int = 0;
    let ghost mut n: int = 0;
    for h in it: handles
        invariant
            it.seq() == given,
            n == it.index(),
            all_accepted ==> tx.log() == start + accepted(given.take(n)),
            !all_accepted ==> 0 <= refused < given.len() && tx.log() == start + refused_at(
                given,
                refused,
            ),
    {
        if all_accepted {
            assert(h == given[n]);
            let ok = send_one(tx, h);
            assert(given.take(n + 1) =~= given.take(n).push(given[n]));
            assert(accepted(given.take(n + 1)) =~= accepted(given.take(n)).push((given[n], true)));
            if !ok {
                assert(tx.log() =~= start + refused_at(given, n));
                proof {
                    refused = n;
                }
                all_accepted = false;
            }
        }
        proof {
            n = n + 1;
        }
    }
    assert(all_accepted ==> given.take(n) =~= given);
    all_accepted
}

} // verus!
