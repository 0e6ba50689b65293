//! The monitor: one object owning the in-progress roster snapshot, the
//! paced query queue, and the overdue table, with one method per event the
//! surrounding loop can observe. Each method returns the outbound action the
//! event calls for, so a caller (or a test) can see exactly what was sent.

use vstd::prelude::*;
use vstd::hash_map::StringHashMap;
use crate::elapsed_secs;
use crate::elapsed_since;
use crate::numerals::secs_to_time;
use crate::numerals::time_text;
use crate::overdue::OverdueRecord;
use crate::overdue::detects;
use crate::overdue::escalates;
use crate::overdue::names_of;
use crate::overdue::pruned;
use crate::overdue::remove_destaffed;
use crate::overdue::table_after_sample;
use crate::text::ends_with;
use crate::text::extract_token;
use crate::text::first_token;
use crate::text::str_ends_with;

verus! {

/// An outbound request to the chat transport.
#[derive(Debug)]
pub enum Action {
    /// Ask the network for the current staff roster.
    RequestRoster,
    /// Ask the network how long `nick` has been idle.
    QueryIdleTime { nick: String },
    /// Privately ask `nick` for a liveness check.
    SendPrivateMessage { nick: String, text: String },
    /// Publicly alert `channel` about an unresponsive person.
    SendChannelMessage { channel: String, text: String },
}

/// The trailing-summary suffix that marks the roster count line.
pub open spec fn summary_suffix() -> Seq<char> {
    "staff members"@
}

/// A roster line is the trailing summary, not a person, when it ends with
/// the summary suffix.
pub open spec fn is_summary_line(line: Seq<char>) -> bool {
    ends_with(line, summary_suffix())
}

/// The private liveness-check message.
pub open spec fn ping_text() -> Seq<char> {
    "You're overdue, are you still alive?"@
}

/// The public escalation message naming the person, their idle duration,
/// and how long they have been left to reply.
pub open spec fn escalation_text(nick: Seq<char>, idle_secs: u64, waited_secs: u64) -> Seq<char> {
    nick + " has been idle more than "@ + time_text(idle_secs)
        + " and didn't reply to me for "@ + time_text(waited_secs) + ". They might not be around."@
}

/// Builds the escalation message.
fn escalation_message(nick: &str, idle_secs: u64, waited_secs: u64) -> (s: String)
    ensures
        s@ == escalation_text(nick@, idle_secs, waited_secs),
{
    let mut s = String::from_str(nick);
    s.append(" has been idle more than ");
    let idle_txt = secs_to_time(&idle_secs);
    s.append(idle_txt.as_str());
    s.append(" and didn't reply to me for ");
    let waited_txt = secs_to_time(&waited_secs);
    s.append(waited_txt.as_str());
    s.append(". They might not be around.");
    proof {
        assert(s@ =~= escalation_text(nick@, idle_secs, waited_secs));
    }
    s
}

/// The monitor state: fixed configuration plus the three pieces of mutable
/// state the event loop feeds.
pub struct Monitor {
    /// Seconds of idleness beyond which a person counts as overdue.
    pub idle_threshold: u64,
    /// Seconds an overdue person gets to reply before the public alert.
    pub reply_deadline_secs: u64,
    /// Destination of the public escalation message.
    pub alert_channel: String,
    /// Names accumulated from the roster poll currently in progress.
    pub on_call: Vec<String>,
    /// FIFO queue of names awaiting an idle-time query, drained one per tick.
    pub to_whois: Vec<String>,
    /// The overdue table, at most one record per person.
    pub overdue: StringHashMap<OverdueRecord>,
}

impl Monitor {
    /// A fresh monitor with empty state.
    pub fn new(idle_threshold: u64, reply_deadline_secs: u64, alert_channel: String) -> (m:
        Monitor)
        ensures
            m.idle_threshold == idle_threshold,
            m.reply_deadline_secs == reply_deadline_secs,
            m.alert_channel == alert_channel,
            m.on_call@ == Seq::<String>::empty(),
            m.to_whois@ == Seq::<String>::empty(),
            m.overdue@ == Map::<Seq<char>, OverdueRecord>::empty(),
    {
        Monitor {
            idle_threshold,
            reply_deadline_secs,
            alert_channel,
            on_call: Vec::new(),
            to_whois: Vec::new(),
            overdue: StringHashMap::new(),
        }
    }

    /// The watchdog fired: ask for a fresh roster. Holds no state.
    pub fn watchdog_tick(&self) -> (a: Action)
        ensures
            a is RequestRoster,
    {
        Action::RequestRoster
    }

    /// One roster line arrived. The trailing summary line is ignored; from
    /// any other line the first whitespace-delimited token is appended to
    /// the in-progress snapshot, and a line with no token is dropped.
    pub fn on_roster_line(&mut self, line: &str)
        ensures
            final(self).idle_threshold == old(self).idle_threshold,
            final(self).reply_deadline_secs == old(self).reply_deadline_secs,
            final(self).alert_channel == old(self).alert_channel,
            final(self).to_whois == old(self).to_whois,
            final(self).overdue == old(self).overdue,
            is_summary_line(line@) || first_token(line@).len() == 0 ==> final(self).on_call
                == old(self).on_call,
            !is_summary_line(line@) && first_token(line@).len() > 0 ==> names_of(
                final(self).on_call@,
            ) == names_of(old(self).on_call@).push(first_token(line@)),
    {
        if str_ends_with(line, "staff members") {
            return;
        }
        match extract_token(line) {
            Some(nick) => {
                let ghost before = self.on_call@;
                self.on_call.push(nick);
                proof {
                    assert(names_of(self.on_call@) =~= names_of(before).push(first_token(line@)));
                }
            },
            None => {},
        }
    }

    /// The end-of-roster event arrived: prune the overdue table down to the
    /// people on the completed snapshot, append the snapshot in order to the
    /// tail of the query queue, and discard the snapshot.
    pub fn on_end_of_roster(&mut self)
        ensures
            final(self).idle_threshold == old(self).idle_threshold,
            final(self).reply_deadline_secs == old(self).reply_deadline_secs,
            final(self).alert_channel == old(self).alert_channel,
            final(self).overdue@ == pruned(old(self).overdue@, names_of(old(self).on_call@)),
            final(self).to_whois@ == old(self).to_whois@ + old(self).on_call@,
            final(self).on_call@ == Seq::<String>::empty(),
    {
        let kept = remove_destaffed(&self.overdue, &self.on_call);
        self.overdue = kept;
        self.to_whois.append(&mut self.on_call);
    }

    /// A pacing tick: if anyone awaits an idle-time query, dequeue exactly
    /// the head of the queue and ask for their idle time; otherwise nothing.
    pub fn whois_tick(&mut self) -> (r: Option<Action>)
        ensures
            final(self).idle_threshold == old(self).idle_threshold,
            final(self).reply_deadline_secs == old(self).reply_deadline_secs,
            final(self).alert_channel == old(self).alert_channel,
            final(self).on_call == old(self).on_call,
            final(self).overdue == old(self).overdue,
            old(self).to_whois@.len() == 0 ==> final(self).to_whois == old(self).to_whois && r
                is None,
            old(self).to_whois@.len() > 0 ==> final(self).to_whois@
                == old(self).to_whois@.drop_first() && (r matches Some(
                Action::QueryIdleTime { nick },
            ) && nick == old(self).to_whois@[0]),
    {
        if self.to_whois.len() > 0 {
            let ghost before = self.to_whois@;
            let nick = self.to_whois.remove(0);
            proof {
                assert(self.to_whois@ =~= before.drop_first());
            }
            Some(Action::QueryIdleTime { nick })
        } else {
            None
        }
    }

    /// An idle-time sample `(nick, idle_secs)` arrived at time `now`. The
    /// overdue table moves to [`table_after_sample`]; a detection emits the
    /// private liveness ping, an escalation emits the public alert, and any
    /// other sample emits nothing.
    pub fn on_idle_sample(&mut self, nick: &str, idle_secs: u64, now: u64) -> (r: Option<Action>)
        ensures
            final(self).idle_threshold == old(self).idle_threshold,
            final(self).reply_deadline_secs == old(self).reply_deadline_secs,
            final(self).alert_channel == old(self).alert_channel,
            final(self).on_call == old(self).on_call,
            final(self).to_whois == old(self).to_whois,
            final(self).overdue@ == table_after_sample(
                old(self).overdue@,
                old(self).idle_threshold,
                old(self).reply_deadline_secs,
                nick@,
                idle_secs,
                now,
            ),
            detects(old(self).overdue@, old(self).idle_threshold, nick@, idle_secs) ==> (r matches
                Some(Action::SendPrivateMessage { nick: target, text }) && target@ == nick@
                && text@ == ping_text()),
            escalates(
                old(self).overdue@,
                old(self).reply_deadline_secs,
                nick@,
                idle_secs,
                now,
            ) ==> (r matches Some(Action::SendChannelMessage { channel, text }) && channel@
                == old(self).alert_channel@ && text@ == escalation_text(
                nick@,
                idle_secs,
                elapsed_secs(now, old(self).overdue@[nick@].detected_at),
            )),
            !detects(old(self).overdue@, old(self).idle_threshold, nick@, idle_secs) && !escalates(
                old(self).overdue@,
                old(self).reply_deadline_secs,
                nick@,
                idle_secs,
                now,
            ) ==> r is None,
    {
        let existing: Option<OverdueRecord> = match self.overdue.get(nick) {
            Some(r) => Some(*r),
            None => None,
        };
        match existing {
            None => {
                if idle_secs > self.idle_threshold {
                    self.overdue.insert(
                        String::from_str(nick),
                        OverdueRecord {
                            baseline_idle_secs: idle_secs,
                            detected_at: now,
                            escalated: false,
                        },
                    );
                    let text = String::from_str("You're overdue, are you still alive?");
                    Some(Action::SendPrivateMessage { nick: String::from_str(nick), text })
                } else {
                    None
                }
            },
            Some(rec) => {
                if idle_secs <= rec.baseline_idle_secs {
                    self.overdue.remove(nick);
                    None
                } else {
                    let waited = elapsed_since(now, rec.detected_at);
                    if waited > self.reply_deadline_secs && !rec.escalated {
                        self.overdue.insert(
                            String::from_str(nick),
                            OverdueRecord {
                                baseline_idle_secs: rec.baseline_idle_secs,
                                detected_at: rec.detected_at,
                                escalated: true,
                            },
                        );
                        let text = escalation_message(nick, idle_secs, waited);
                        Some(
                            Action::SendChannelMessage {
                                channel: self.alert_channel.clone(),
                                text,
                            },
                        )
                    } else {
                        None
                    }
                }
            },
        }
    }

    /// The number of people currently tracked as overdue.
    pub fn overdue_len(&self) -> (n: usize)
        ensures
            n == self.overdue@.len(),
    {
        self.overdue.len()
    }

    /// The overdue record for `nick`, if one exists.
    pub fn overdue_record(&self, nick: &str) -> (r: Option<OverdueRecord>)
        ensures
            match r {
                Some(rec) => self.overdue@.contains_key(nick@) && rec == self.overdue@[nick@],
                None => !self.overdue@.contains_key(nick@),
            },
    {
        match self.overdue.get(nick) {
            Some(rec) => Some(*rec),
            None => None,
        }
    }

    /// How many idle-time queries are still queued.
    pub fn queue_len(&self) -> (n: usize)
        ensures
            n == self.to_whois@.len(),
    {
        self.to_whois.len()
    }
}

} // verus!
