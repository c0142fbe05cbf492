//! Event records: the closed set of event kinds, the open payload mapping,
//! and the decoding of plain record parts into an `EventData`.

use vstd::prelude::*;
use vstd::string::{StrSliceExecFns, StringExecFns};
use crate::text::str_eq;

verus! {

/// The closed set of activity event kinds. A kind string outside this set
/// is a decode failure for the whole record.
#[derive(Clone, Copy, Debug, PartialEq, Eq, Structural)]
pub enum EventType {
    WatchEvent,
    SponsorshipEvent,
    ReleaseEvent,
    PushEvent,
    PullRequestReviewThreadEvent,
    PullRequestReviewCommentEvent,
    PullRequestReviewEvent,
    PullRequestEvent,
    PublicEvent,
    MemberEvent,
    IssuesEvent,
    IssueCommentEvent,
    GollumEvent,
    ForkEvent,
    DeleteEvent,
    CreateEvent,
    CommitCommentEvent,
}

/// One payload value, holding as a plain value exactly what the renderer
/// reads: an integer, a string, or anything else (which every typed lookup
/// treats as absent).
#[derive(Debug)]
pub enum PayloadValue {
    Int(i64),
    Text(String),
    Other,
}

/// One key-value pair of a payload object.
#[derive(Debug)]
pub struct PayloadEntry {
    pub key: String,
    pub value: PayloadValue,
}

/// The open payload mapping of an event record: lookups of specific keys
/// fall back to a default when the key is absent or its value has the
/// wrong type.
#[derive(Debug)]
pub struct Payload {
    pub entries: Vec<PayloadEntry>,
}

/// The value under the first entry whose key is `k`, if any.
pub open spec fn lookup(entries: Seq<PayloadEntry>, k: Seq<char>) -> Option<PayloadValue>
    decreases entries.len(),
{
    if entries.len() == 0 {
        None
    } else if entries[0].key@ == k {
        Some(entries[0].value)
    } else {
        lookup(entries.drop_first(), k)
    }
}

/// The string under key `k`, or `d` when the key is absent or not a string.
pub open spec fn spec_str_or(p: Payload, k: Seq<char>, d: Seq<char>) -> Seq<char> {
    match lookup(p.entries@, k) {
        Some(PayloadValue::Text(s)) => s@,
        _ => d,
    }
}

/// The integer under key `k`, or `d` when the key is absent or not an integer.
pub open spec fn spec_int_or(p: Payload, k: Seq<char>, d: i64) -> i64 {
    match lookup(p.entries@, k) {
        Some(PayloadValue::Int(n)) => n,
        _ => d,
    }
}

proof fn lemma_lookup_step(entries: Seq<PayloadEntry>, k: Seq<char>, i: int)
    requires
        0 <= i < entries.len(),
        entries[i].key@ != k,
    ensures
        lookup(entries.skip(i), k) == lookup(entries.skip(i + 1), k),
{
    assert(entries.skip(i).len() > 0);
    assert(entries.skip(i)[0] == entries[i]);
    assert(entries.skip(i).drop_first() =~= entries.skip(i + 1));
}

impl Payload {
    /// The string under `key`, or `default` when `key` is absent or its
    /// value is not a string.
    pub fn str_or(&self, key: &str, default: &str) -> (r: String)
        ensures
            r@ == spec_str_or(*self, key@, default@),
    {
        let n = self.entries.len();
        let mut i: usize = 0;
        proof {
            assert(self.entries@.skip(0) =~= self.entries@);
        }
        while i < n
            invariant
                i <= n,
                n == self.entries@.len(),
                lookup(self.entries@, key@) == lookup(self.entries@.skip(i as int), key@),
            decreases n - i,
        {
            let entry = &self.entries[i];
            if str_eq(entry.key.as_str(), key) {
                proof {
                    assert(self.entries@.skip(i as int)[0] == self.entries@[i as int]);
                }
                match &entry.value {
                    PayloadValue::Text(s) => {
                        return s.clone();
                    },
                    _ => {
                        return String::from_str(default);
                    },
                }
            }
            proof {
                lemma_lookup_step(self.entries@, key@, i as int);
            }
            i = i + 1;
        }
        proof {
            assert(self.entries@.skip(n as int) =~= Seq::<PayloadEntry>::empty());
        }
        String::from_str(default)
    }

    /// The integer under `key`, or `default` when `key` is absent or its
    /// value is not an integer.
    pub fn int_or(&self, key: &str, default: i64) -> (r: i64)
        ensures
            r == spec_int_or(*self, key@, default),
    {
        let n = self.entries.len();
        let mut i: usize = 0;
        proof {
            assert(self.entries@.skip(0) =~= self.entries@);
        }
        while i < n
            invariant
                i <= n,
                n == self.entries@.len(),
                lookup(self.entries@, key@) == lookup(self.entries@.skip(i as int), key@),
            decreases n - i,
        {
            let entry = &self.entries[i];
            if str_eq(entry.key.as_str(), key) {
                proof {
                    assert(self.entries@.skip(i as int)[0] == self.entries@[i as int]);
                }
                match &entry.value {
                    PayloadValue::Int(v) => {
                        return *v;
                    },
                    _ => {
                        return default;
                    },
                }
            }
            proof {
                lemma_lookup_step(self.entries@, key@, i as int);
            }
            i = i + 1;
        }
        proof {
            assert(self.entries@.skip(n as int) =~= Seq::<PayloadEntry>::empty());
        }
        default
    }
}

/// The event kind named by `n`, if `n` is in the closed enumeration.
pub open spec fn spec_kind_of(n: Seq<char>) -> Option<EventType> {
    if n == "WatchEvent"@ {
        Some(EventType::WatchEvent)
    } else if n == "SponsorshipEvent"@ {
        Some(EventType::SponsorshipEvent)
    } else if n == "ReleaseEvent"@ {
        Some(EventType::ReleaseEvent)
    } else if n == "PushEvent"@ {
        Some(EventType::PushEvent)
    } else if n == "PullRequestReviewThreadEvent"@ {
        Some(EventType::PullRequestReviewThreadEvent)
    } else if n == "PullRequestReviewCommentEvent"@ {
        Some(EventType::PullRequestReviewCommentEvent)
    } else if n == "PullRequestReviewEvent"@ {
        Some(EventType::PullRequestReviewEvent)
    } else if n == "PullRequestEvent"@ {
        Some(EventType::PullRequestEvent)
    } else if n == "PublicEvent"@ {
        Some(EventType::PublicEvent)
    } else if n == "MemberEvent"@ {
        Some(EventType::MemberEvent)
    } else if n == "IssuesEvent"@ {
        Some(EventType::IssuesEvent)
    } else if n == "IssueCommentEvent"@ {
        Some(EventType::IssueCommentEvent)
    } else if n == "GollumEvent"@ {
        Some(EventType::GollumEvent)
    } else if n == "ForkEvent"@ {
        Some(EventType::ForkEvent)
    } else if n == "DeleteEvent"@ {
        Some(EventType::DeleteEvent)
    } else if n == "CreateEvent"@ {
        Some(EventType::CreateEvent)
    } else if n == "CommitCommentEvent"@ {
        Some(EventType::CommitCommentEvent)
    } else {
        None
    }
}

/// Decides which kind a received kind string names, rejecting any string
/// outside the closed enumeration.
pub fn kind_of_name(n: &str) -> (r: Option<EventType>)
    ensures
        r == spec_kind_of(n@),
{
    if str_eq(n, "WatchEvent") {
        Some(EventType::WatchEvent)
    } else if str_eq(n, "SponsorshipEvent") {
        Some(EventType::SponsorshipEvent)
    } else if str_eq(n, "ReleaseEvent") {
        Some(EventType::ReleaseEvent)
    } else if str_eq(n, "PushEvent") {
        Some(EventType::PushEvent)
    } else if str_eq(n, "PullRequestReviewThreadEvent") {
        Some(EventType::PullRequestReviewThreadEvent)
    } else if str_eq(n, "PullRequestReviewCommentEvent") {
        Some(EventType::PullRequestReviewCommentEvent)
    } else if str_eq(n, "PullRequestReviewEvent") {
        Some(EventType::PullRequestReviewEvent)
    } else if str_eq(n, "PullRequestEvent") {
        Some(EventType::PullRequestEvent)
    } else if str_eq(n, "PublicEvent") {
        Some(EventType::PublicEvent)
    } else if str_eq(n, "MemberEvent") {
        Some(EventType::MemberEvent)
    } else if str_eq(n, "IssuesEvent") {
        Some(EventType::IssuesEvent)
    } else if str_eq(n, "IssueCommentEvent") {
        Some(EventType::IssueCommentEvent)
    } else if str_eq(n, "GollumEvent") {
        Some(EventType::GollumEvent)
    } else if str_eq(n, "ForkEvent") {
        Some(EventType::ForkEvent)
    } else if str_eq(n, "DeleteEvent") {
        Some(EventType::DeleteEvent)
    } else if str_eq(n, "CreateEvent") {
        Some(EventType::CreateEvent)
    } else if str_eq(n, "CommitCommentEvent") {
        Some(EventType::CommitCommentEvent)
    } else {
        None
    }
}

/// One activity event record: its kind, the repository it concerns, and
/// the open payload mapping.
#[derive(Debug)]
pub struct EventData {
    pub kind: EventType,
    pub repository_name: String,
    pub payload: Payload,
}

/// The failure message for a kind string outside the closed enumeration.
pub open spec fn spec_unknown_kind_msg(n: Seq<char>) -> Seq<char> {
    "unknown event kind `"@ + n + "`"@
}

impl EventData {
    /// Builds a record from its plain decoded parts. Succeeds exactly when
    /// the kind string is in the closed enumeration.
    pub fn from_parts(kind_name: &str, repository_name: String, payload: Payload) -> (r: Result<
        EventData,
        String,
    >)
        ensures
            spec_kind_of(kind_name@) is Some ==> (r matches Ok(e) && e.kind == spec_kind_of(
                kind_name@,
            ).unwrap() && e.repository_name == repository_name && e.payload == payload),
            spec_kind_of(kind_name@) is None ==> (r matches Err(m) && m@ == spec_unknown_kind_msg(
                kind_name@,
            )),
    {
        match kind_of_name(kind_name) {
            Some(kind) => Ok(EventData { kind, repository_name, payload }),
            None => {
                let mut msg = String::from_str("unknown event kind `");
                msg.append(kind_name);
                msg.append("`");
                proof {
                    assert(msg@ =~= spec_unknown_kind_msg(kind_name@));
                }
                Err(msg)
            },
        }
    }
}

} // verus!
