//! Per-channel conversation state. One `Session` exists per channel at a
//! time, keyed by channel id in the `SessionStore`. A session is created on
//! the first qualifying message, rebuilt wholesale when it has been idle
//! longer than the TTL or when the triggering text carries the reset
//! marker, and its history is trimmed to the directive turn plus the most
//! recent remembered turns once it grows past the overflow threshold. The
//! directive turn always stands at position 0.

use std::collections::HashMap;
use vstd::prelude::*;
use vstd::string::StringExecFns;

use crate::classifier::get_pre_prompt;
use crate::classifier::spec_pre_prompt;
use crate::text::contains_sub;
use crate::text::spec_contains;

verus! {

/// Who spoke a turn.
#[derive(Clone, Copy, PartialEq, Eq, Structural, Debug)]
pub enum Role {
    System,
    User,
    Assistant,
}

/// One turn of a conversation history.
pub struct Turn {
    pub role: Role,
    pub text: String,
}

/// The mathematical content of a `Turn`.
#[verifier::ext_equal]
pub struct TurnModel {
    pub role: Role,
    pub text: Seq<char>,
}

impl Turn {
    pub open spec fn model(&self) -> TurnModel {
        TurnModel { role: self.role, text: self.text@ }
    }

    fn duplicate(&self) -> (r: Turn)
        ensures
            r.model() == self.model(),
    {
        Turn { role: self.role, text: self.text.clone() }
    }
}

pub open spec fn turns_model(h: Seq<Turn>) -> Seq<TurnModel> {
    h.map_values(|t: Turn| t.model())
}

/// The conversation state of one channel: its history and the time it was
/// last active.
pub struct Session {
    pub history: Vec<Turn>,
    pub last_active: u64,
}

/// The mathematical content of a `Session`.
#[verifier::ext_equal]
pub struct SessionModel {
    pub history: Seq<TurnModel>,
    pub last_active: u64,
}

impl Session {
    pub open spec fn model(&self) -> SessionModel {
        SessionModel { history: turns_model(self.history@), last_active: self.last_active }
    }
}

/// A session is well formed when its directive turn stands at position 0.
pub open spec fn session_wf(s: SessionModel) -> bool {
    s.history.len() >= 1 && s.history[0].role == Role::System
}

/// The in-band marker that forces the addressed channel's session to be
/// discarded and rebuilt.
pub open spec fn reset_marker() -> Seq<char> {
    "!reset!"@
}

/// A session idle longer than the TTL is expired.
pub open spec fn spec_expired(last_active: u64, now: u64, ttl: u64) -> bool {
    now > last_active && now - last_active > ttl
}

/// The overflow-trim rule: a history longer than `overflow` turns is cut
/// to the original first turn followed by the most recent `memory` turns,
/// in chronological order; a shorter history is left as it is.
pub open spec fn spec_trimmed(h: Seq<TurnModel>, overflow: nat, memory: nat) -> Seq<TurnModel> {
    if h.len() > overflow {
        seq![h[0]] + h.subrange(h.len() - memory, h.len() as int)
    } else {
        h
    }
}

/// The session a triggering text and its sentiment score build: a history
/// seeded with the derived directive, active now.
pub open spec fn spec_fresh_session(text: Seq<char>, score: int, now: u64) -> SessionModel {
    SessionModel {
        history: seq![TurnModel { role: Role::System, text: spec_pre_prompt(text, score) }],
        last_active: now,
    }
}

/// A channel's session is discarded and rebuilt when none exists, when it
/// has expired, or when the triggering text carries the reset marker.
pub open spec fn spec_needs_rebuild(
    m: Map<u64, SessionModel>,
    ch: u64,
    text: Seq<char>,
    now: u64,
    ttl: u64,
) -> bool {
    ||| !m.contains_key(ch)
    ||| spec_expired(m[ch].last_active, now, ttl)
    ||| spec_contains(text, reset_marker())
}

/// What `get_or_refresh` leaves in the store.
pub open spec fn spec_get_or_refresh(
    m: Map<u64, SessionModel>,
    ch: u64,
    text: Seq<char>,
    score: int,
    now: u64,
    ttl: u64,
    overflow: nat,
    memory: nat,
) -> Map<u64, SessionModel> {
    if spec_needs_rebuild(m, ch, text, now, ttl) {
        m.insert(ch, spec_fresh_session(text, score, now))
    } else {
        m.insert(
            ch,
            SessionModel {
                history: spec_trimmed(m[ch].history, overflow, memory),
                last_active: m[ch].last_active,
            },
        )
    }
}

/// What `commit` leaves in the store: the user turn and the reply turn
/// appended, the channel marked active now; a channel without a session is
/// left untouched.
pub open spec fn spec_commit(
    m: Map<u64, SessionModel>,
    ch: u64,
    user_text: Seq<char>,
    reply_text: Seq<char>,
    now: u64,
) -> Map<u64, SessionModel> {
    if m.contains_key(ch) {
        m.insert(
            ch,
            SessionModel {
                history: m[ch].history + seq![
                    TurnModel { role: Role::User, text: user_text },
                    TurnModel { role: Role::Assistant, text: reply_text },
                ],
                last_active: now,
            },
        )
    } else {
        m
    }
}

/// What `force_trim` leaves in the store: the overflow-trim rule applied
/// to the channel's history, its recency untouched.
pub open spec fn spec_force_trim(
    m: Map<u64, SessionModel>,
    ch: u64,
    overflow: nat,
    memory: nat,
) -> Map<u64, SessionModel> {
    if m.contains_key(ch) {
        m.insert(
            ch,
            SessionModel {
                history: spec_trimmed(m[ch].history, overflow, memory),
                last_active: m[ch].last_active,
            },
        )
    } else {
        m
    }
}

/// The shape of a trimmed overflowing history: exactly the directive turn
/// plus the `memory` most recent turns — turn 0 unchanged, then the last
/// `memory` turns in their original order.
pub proof fn lemma_trim_shape(h: Seq<TurnModel>, overflow: nat, memory: nat)
    requires
        1 <= memory <= overflow,
        h.len() > overflow,
    ensures
        spec_trimmed(h, overflow, memory).len() == memory + 1,
        spec_trimmed(h, overflow, memory)[0] == h[0],
        forall|i: int|
            0 <= i < memory ==> #[trigger] spec_trimmed(h, overflow, memory)[i + 1] == h[h.len()
                - memory + i],
{
}

/// A session idle longer than the TTL is discarded, not migrated: the next
/// access leaves the channel with a freshly built session whose history is
/// the single new directive turn.
pub proof fn lemma_ttl_expiry(
    m: Map<u64, SessionModel>,
    ch: u64,
    text: Seq<char>,
    score: int,
    now: u64,
    ttl: u64,
    overflow: nat,
    memory: nat,
)
    requires
        m.contains_key(ch),
        spec_expired(m[ch].last_active, now, ttl),
    ensures
        spec_get_or_refresh(m, ch, text, score, now, ttl, overflow, memory)[ch]
            == spec_fresh_session(text, score, now),
        spec_get_or_refresh(m, ch, text, score, now, ttl, overflow, memory)[ch].history.len() == 1,
{
}

/// Applies the overflow-trim rule to an owned history.
fn trim_history(h: Vec<Turn>, overflow: usize, memory: usize) -> (r: Vec<Turn>)
    requires
        1 <= memory <= overflow,
    ensures
        turns_model(r@) == spec_trimmed(turns_model(h@), overflow as nat, memory as nat),
{
    if h.len() > overflow {
        let ghost hm = turns_model(h@);
        let start = h.len() - memory;
        let mut r: Vec<Turn> = Vec::new();
        r.push(h[0].duplicate());
        proof {
            assert(turns_model(r@) =~~= seq![hm[0]] + hm.subrange(start as int, start as int));
        }
        let mut i: usize = start;
        while i < h.len()
            invariant
                start <= i <= h@.len(),
                start == h@.len() - memory,
                hm == turns_model(h@),
                hm.len() == h@.len(),
                turns_model(r@) == seq![hm[0]] + hm.subrange(start as int, i as int),
            decreases h@.len() - i,
        {
            let ghost r0 = r@;
            let d = h[i].duplicate();
            let ghost dm = d.model();
            r.push(d);
            i = i + 1;
            proof {
                assert(r@ == r0.push(d));
                assert(dm == hm[i - 1]);
                assert(turns_model(r@) =~~= turns_model(r0).push(dm));
                assert(turns_model(r0).push(dm) =~~= seq![hm[0]] + hm.subrange(
                    start as int,
                    i as int,
                ));
            }
        }
        r
    } else {
        h
    }
}

/// Owns every channel's session; the only writer of conversation state.
pub struct SessionStore {
    sessions: HashMap<u64, Session>,
    ttl_secs: u64,
    overflow_turns: usize,
    memory_turns: usize,
}

impl SessionStore {
    /// The sessions by channel, as mathematical values.
    pub closed spec fn model(&self) -> Map<u64, SessionModel> {
        self.sessions@.map_values(|s: Session| s.model())
    }

    /// Idle seconds after which a session is discarded.
    pub closed spec fn ttl(&self) -> u64 {
        self.ttl_secs
    }

    /// Turn count past which a history is trimmed.
    pub closed spec fn overflow(&self) -> nat {
        self.overflow_turns as nat
    }

    /// Turns retained (besides the directive) by a trim.
    pub closed spec fn memory(&self) -> nat {
        self.memory_turns as nat
    }

    /// The store's invariant: a sane trim configuration, and every session
    /// well formed (directive first).
    pub closed spec fn wf(&self) -> bool {
        &&& 1 <= self.memory_turns <= self.overflow_turns
        &&& forall|ch: u64|
            self.model().contains_key(ch) ==> session_wf(#[trigger] self.model()[ch])
    }

    /// An empty store with the given TTL (seconds), overflow threshold and
    /// retained-memory size (turns).
    pub fn with_config(ttl_secs: u64, overflow_turns: usize, memory_turns: usize) -> (r:
        SessionStore)
        requires
            1 <= memory_turns <= overflow_turns,
        ensures
            r.wf(),
            r.model() == Map::<u64, SessionModel>::empty(),
            r.ttl() == ttl_secs,
            r.overflow() == overflow_turns as nat,
            r.memory() == memory_turns as nat,
    {
        let r = SessionStore {
            sessions: HashMap::new(),
            ttl_secs,
            overflow_turns,
            memory_turns,
        };
        proof {
            assert(r.model() =~~= Map::<u64, SessionModel>::empty());
        }
        r
    }

    /// An empty store with the default configuration: a five-minute TTL,
    /// trim past 20 turns, keep the 10 most recent.
    pub fn new() -> (r: SessionStore)
        ensures
            r.wf(),
            r.model() == Map::<u64, SessionModel>::empty(),
            r.ttl() == 300,
            r.overflow() == 20,
            r.memory() == 10,
    {
        SessionStore::with_config(300, 20, 10)
    }

    /// The session for a channel, if one exists.
    pub fn get_session(&self, channel_id: u64) -> (r: Option<&Session>)
        ensures
            match r {
                Some(s) => self.model().contains_key(channel_id) && s.model() == self.model()[
                    channel_id
                ],
                None => !self.model().contains_key(channel_id),
            },
    {
        match self.sessions.get(&channel_id) {
            Some(s) => Some(s),
            None => None,
        }
    }

    /// When the channel was last active, if a session exists. Read-only;
    /// this is what the ingestion filter consults.
    pub fn peek_last_active(&self, channel_id: u64) -> (r: Option<u64>)
        ensures
            match r {
                Some(t) => self.model().contains_key(channel_id) && self.model()[
                    channel_id
                ].last_active == t,
                None => !self.model().contains_key(channel_id),
            },
    {
        match self.sessions.get(&channel_id) {
            Some(s) => Some(s.last_active),
            None => None,
        }
    }

    /// Returns the channel's session, first (re)building it as required:
    /// created with a fresh directive when absent, expired, or told to
    /// reset; otherwise kept, with the overflow-trim rule applied.
    pub fn get_or_refresh(&mut self, channel_id: u64, text: &str, score: i32, now: u64)
        requires
            old(self).wf(),
        ensures
            final(self).wf(),
            final(self).model() == spec_get_or_refresh(
                old(self).model(),
                channel_id,
                text@,
                score as int,
                now,
                old(self).ttl(),
                old(self).overflow(),
                old(self).memory(),
            ),
            final(self).model().contains_key(channel_id),
            final(self).ttl() == old(self).ttl(),
            final(self).overflow() == old(self).overflow(),
            final(self).memory() == old(self).memory(),
    {
        let needs_rebuild = match self.sessions.get(&channel_id) {
            None => true,
            Some(s) => (now > s.last_active && now - s.last_active > self.ttl_secs)
                || contains_sub(text, "!reset!"),
        };
        if needs_rebuild {
            let directive = get_pre_prompt(text, score);
            let mut h: Vec<Turn> = Vec::new();
            h.push(Turn { role: Role::System, text: directive });
            let fresh = Session { history: h, last_active: now };
            proof {
                assert(fresh.model().history =~~= spec_fresh_session(
                    text@,
                    score as int,
                    now,
                ).history);
            }
            self.sessions.insert(channel_id, fresh);
            proof {
                assert(self.model() =~~= spec_get_or_refresh(
                    old(self).model(),
                    channel_id,
                    text@,
                    score as int,
                    now,
                    old(self).ttl(),
                    old(self).overflow(),
                    old(self).memory(),
                ));
            }
        } else {
            let s = self.sessions.remove(&channel_id).unwrap();
            let kept = Session {
                history: trim_history(s.history, self.overflow_turns, self.memory_turns),
                last_active: s.last_active,
            };
            self.sessions.insert(channel_id, kept);
            proof {
                assert(self.model() =~~= spec_get_or_refresh(
                    old(self).model(),
                    channel_id,
                    text@,
                    score as int,
                    now,
                    old(self).ttl(),
                    old(self).overflow(),
                    old(self).memory(),
                ));
            }
        }
    }

    /// Appends the user turn and the assistant's reply turn to the
    /// channel's history and marks the channel active now. Returns whether
    /// a session existed to commit to.
    pub fn commit(&mut self, channel_id: u64, user_text: &str, reply_text: &str, now: u64) -> (committed:
        bool)
        requires
            old(self).wf(),
        ensures
            final(self).wf(),
            final(self).model() == spec_commit(
                old(self).model(),
                channel_id,
                user_text@,
                reply_text@,
                now,
            ),
            committed == old(self).model().contains_key(channel_id),
            final(self).ttl() == old(self).ttl(),
            final(self).overflow() == old(self).overflow(),
            final(self).memory() == old(self).memory(),
    {
        match self.sessions.remove(&channel_id) {
            Some(mut s) => {
                s.history.push(Turn { role: Role::User, text: String::from_str(user_text) });
                s.history.push(
                    Turn { role: Role::Assistant, text: String::from_str(reply_text) },
                );
                s.last_active = now;
                proof {
                    assert(s.model().history =~~= old(self).model()[channel_id].history + seq![
                        TurnModel { role: Role::User, text: user_text@ },
                        TurnModel { role: Role::Assistant, text: reply_text@ },
                    ]);
                }
                self.sessions.insert(channel_id, s);
                proof {
                    assert(self.model() =~~= spec_commit(
                        old(self).model(),
                        channel_id,
                        user_text@,
                        reply_text@,
                        now,
                    ));
                }
                true
            },
            None => {
                proof {
                    assert(self.model() =~~= old(self).model());
                }
                false
            },
        }
    }

    /// Applies the overflow-trim rule to the channel's session, as the
    /// recovery action after a failed completion. The trim is a rule on
    /// the history alone: the recency stamp is deliberately left as it
    /// is, since `last_active` is set at creation and at commit only.
    pub fn force_trim(&mut self, channel_id: u64)
        requires
            old(self).wf(),
        ensures
            final(self).wf(),
            final(self).model() == spec_force_trim(
                old(self).model(),
                channel_id,
                old(self).overflow(),
                old(self).memory(),
            ),
            final(self).ttl() == old(self).ttl(),
            final(self).overflow() == old(self).overflow(),
            final(self).memory() == old(self).memory(),
    {
        match self.sessions.remove(&channel_id) {
            Some(s) => {
                let kept = Session {
                    history: trim_history(s.history, self.overflow_turns, self.memory_turns),
                    last_active: s.last_active,
                };
                self.sessions.insert(channel_id, kept);
                proof {
                    assert(self.model() =~~= spec_force_trim(
                        old(self).model(),
                        channel_id,
                        old(self).overflow(),
                        old(self).memory(),
                    ));
                }
            },
            None => {
                proof {
                    assert(self.model() =~~= old(self).model());
                }
            },
        }
    }
}

} // verus!
