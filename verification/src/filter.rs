//! The ingestion filter: decides, purely and without side effects, whether
//! an inbound event should be queued. The bot never answers itself; it
//! answers when addressed by name (case-insensitive), when the channel's
//! conversation is still warm (the ambient continuation window), or on a
//! low-probability ambient roll that the caller injects, so tests can pin
//! it.

use vstd::prelude::*;

use crate::session::SessionModel;
use crate::session::SessionStore;
use crate::text::contains_sub;
use crate::text::lower_of;
use crate::text::lowercase;
use crate::text::spec_contains;

verus! {

/// The channel's recency, read from a session map.
pub open spec fn spec_last_active_of(m: Map<u64, SessionModel>, ch: u64) -> Option<u64> {
    if m.contains_key(ch) {
        Some(m[ch].last_active)
    } else {
        None
    }
}

/// A last-active time is within the ambient continuation window when no
/// more than `window` seconds have passed since it (a clock that reads
/// earlier than the recorded time counts as within).
pub open spec fn spec_within_window(last_active: Option<u64>, now: u64, window: u64) -> bool {
    match last_active {
        Some(t) => now <= t || now - t <= window,
        None => false,
    }
}

/// The ingestion rule: never for the bot's own messages; otherwise when
/// the text contains the bot's display name case-insensitively, when the
/// channel was active within the window, or when the injected ambient
/// roll fires.
pub open spec fn spec_should_enqueue(
    is_self: bool,
    text: Seq<char>,
    bot_name: Seq<char>,
    last_active: Option<u64>,
    now: u64,
    window: u64,
    ambient_roll: bool,
) -> bool {
    if is_self {
        false
    } else {
        ||| spec_contains(lower_of(text), lower_of(bot_name))
        ||| spec_within_window(last_active, now, window)
        ||| ambient_roll
    }
}

/// Decides whether an inbound event should be queued. Purely advisory; the
/// ambient-probability roll is injected by the caller.
pub fn should_enqueue(
    is_self: bool,
    text: &str,
    bot_name: &str,
    last_active: Option<u64>,
    now: u64,
    window: u64,
    ambient_roll: bool,
) -> (r: bool)
    ensures
        r == spec_should_enqueue(is_self, text@, bot_name@, last_active, now, window, ambient_roll),
{
    if is_self {
        return false;
    }
    let lowered_text = lowercase(text);
    let lowered_name = lowercase(bot_name);
    let named = contains_sub(lowered_text.as_str(), lowered_name.as_str());
    let recent = match last_active {
        Some(t) => now <= t || now - t <= window,
        None => false,
    };
    named || recent || ambient_roll
}

/// `should_enqueue` evaluated against the live session store, read-only:
/// the channel's recency comes from `peek_last_active`.
pub fn should_enqueue_for(
    store: &SessionStore,
    channel_id: u64,
    is_self: bool,
    text: &str,
    bot_name: &str,
    now: u64,
    window: u64,
    ambient_roll: bool,
) -> (r: bool)
    ensures
        r == spec_should_enqueue(
            is_self,
            text@,
            bot_name@,
            spec_last_active_of(store.model(), channel_id),
            now,
            window,
            ambient_roll,
        ),
{
    let last_active = store.peek_last_active(channel_id);
    should_enqueue(is_self, text, bot_name, last_active, now, window, ambient_roll)
}

} // verus!
