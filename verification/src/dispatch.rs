//! The dispatch worker's decisions. The worker is the queue's single
//! consumer and the only writer of session state: for each message it
//! builds the outbound text, refreshes the channel's session, hands the
//! text to the completion collaborator, and then either commits the reply
//! or — on any completion failure — force-trims the session and drops the
//! message (at most one attempt, no retry). The completion call itself is
//! outside work the caller performs between the two halves here.

use vstd::prelude::*;
use vstd::string::StringExecFns;

use crate::queue::QueuedMessage;
use crate::session::spec_commit;
use crate::session::spec_force_trim;
use crate::session::spec_get_or_refresh;
use crate::session::SessionStore;

verus! {

/// Why a completion call failed. Every failure is handled the same way:
/// log (outside), recover the session, drop the message.
#[derive(Clone, Copy, PartialEq, Eq, Structural, Debug)]
pub enum CompletionError {
    RateLimited,
    InputTooLarge,
    Transport,
    BackendError,
}

/// The text sent on a message's behalf: author, separator, content.
pub open spec fn spec_outbound(author_name: Seq<char>, content: Seq<char>) -> Seq<char> {
    author_name + ": "@ + content
}

/// Builds the outbound text for an author and a message body.
pub fn build_outbound(author_name: &str, content: &str) -> (r: String)
    ensures
        r@ == spec_outbound(author_name@, content@),
{
    let mut s = String::from_str(author_name);
    s.append(": ");
    s.append(content);
    proof {
        assert(s@ =~= spec_outbound(author_name@, content@));
    }
    s
}

/// The first half of one worker iteration: builds the outbound text for
/// the dequeued message and (re)freshes the channel's session with it.
/// The caller then sends the text and the session history to the
/// completion collaborator and settles with `settle_dispatch`.
pub fn prepare_dispatch(store: &mut SessionStore, msg: &QueuedMessage, score: i32, now: u64) -> (outbound:
    String)
    requires
        old(store).wf(),
    ensures
        final(store).wf(),
        outbound@ == spec_outbound(msg.author_name@, msg.content@),
        final(store).model() == spec_get_or_refresh(
            old(store).model(),
            msg.channel_id,
            outbound@,
            score as int,
            now,
            old(store).ttl(),
            old(store).overflow(),
            old(store).memory(),
        ),
        final(store).model().contains_key(msg.channel_id),
        final(store).ttl() == old(store).ttl(),
        final(store).overflow() == old(store).overflow(),
        final(store).memory() == old(store).memory(),
{
    let outbound = build_outbound(msg.author_name.as_str(), msg.content.as_str());
    store.get_or_refresh(msg.channel_id, outbound.as_str(), score, now);
    outbound
}

/// The second half of one worker iteration: on a successful completion the
/// user turn and the reply are committed and the reply is handed back to
/// be sent; on any failure the session is force-trimmed as recovery and
/// nothing is sent — the message is dropped.
pub fn settle_dispatch(
    store: &mut SessionStore,
    channel_id: u64,
    outbound: &str,
    outcome: Result<String, CompletionError>,
    now: u64,
) -> (reply: Option<String>)
    requires
        old(store).wf(),
    ensures
        final(store).wf(),
        final(store).ttl() == old(store).ttl(),
        final(store).overflow() == old(store).overflow(),
        final(store).memory() == old(store).memory(),
        match outcome {
            Ok(reply_text) => {
                &&& final(store).model() == spec_commit(
                    old(store).model(),
                    channel_id,
                    outbound@,
                    reply_text@,
                    now,
                )
                &&& reply == Some(reply_text)
            },
            Err(_) => {
                &&& final(store).model() == spec_force_trim(
                    old(store).model(),
                    channel_id,
                    old(store).overflow(),
                    old(store).memory(),
                )
                &&& reply is None
            },
        },
{
    match outcome {
        Ok(reply_text) => {
            store.commit(channel_id, outbound, reply_text.as_str(), now);
            Some(reply_text)
        },
        Err(_) => {
            store.force_trim(channel_id);
            None
        },
    }
}

} // verus!
