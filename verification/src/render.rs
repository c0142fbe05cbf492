//! Rendering: the total mapping from one event record to one line of text.

use vstd::prelude::*;
use vstd::string::{StrSliceExecFns, StringExecFns};
use crate::models::{EventData, EventType, spec_int_or, spec_str_or};
use crate::text::{append_i64, dec_int, str_eq};

verus! {

/// The text of a push event: commit count (defaulting to one), pluralized
/// exactly when the count is not one.
pub open spec fn push_text(e: EventData) -> Seq<char> {
    let n = spec_int_or(e.payload, "size"@, 1);
    "pushed "@ + dec_int(n as int) + (if n == 1 {
        " commit to "@
    } else {
        " commits to "@
    }) + e.repository_name@
}

/// The text of a create event: a reference type of "repository" names the
/// repository itself; any other (or absent) reference type was created in it.
pub open spec fn create_text(e: EventData) -> Seq<char> {
    let rt = spec_str_or(e.payload, "ref_type"@, "branch"@);
    if rt == "repository"@ {
        "created the repository "@ + e.repository_name@
    } else {
        "created a new "@ + rt + " in "@ + e.repository_name@
    }
}

/// The descriptive text of one event record, by its kind. Payload lookups
/// fall back to the kind-specific default verb when the key is absent or
/// not of the expected type.
pub open spec fn event_text(e: EventData) -> Seq<char> {
    match e.kind {
        EventType::WatchEvent => "starred "@ + e.repository_name@,
        EventType::SponsorshipEvent => "sponsored "@ + e.repository_name@,
        EventType::ReleaseEvent => spec_str_or(e.payload, "action"@, "published"@)
            + " a release in "@ + e.repository_name@,
        EventType::PushEvent => push_text(e),
        EventType::PullRequestReviewThreadEvent => "marked a pull request as "@ + spec_str_or(
            e.payload,
            "action"@,
            "resolved"@,
        ) + " in "@ + e.repository_name@,
        EventType::PullRequestReviewCommentEvent => spec_str_or(e.payload, "action"@, "created"@)
            + " a pull request comment in "@ + e.repository_name@,
        EventType::PullRequestReviewEvent => spec_str_or(e.payload, "action"@, "created"@)
            + " a pull request review in "@ + e.repository_name@,
        EventType::PullRequestEvent => spec_str_or(e.payload, "action"@, "opened"@)
            + " a pull request in "@ + e.repository_name@,
        EventType::PublicEvent => "made "@ + e.repository_name@ + " a public repository"@,
        EventType::MemberEvent => spec_str_or(e.payload, "action"@, "added"@)
            + " a member as a collaborator of "@ + e.repository_name@,
        EventType::IssuesEvent => spec_str_or(e.payload, "action"@, "opened"@) + " an issue in "@
            + e.repository_name@,
        EventType::IssueCommentEvent => spec_str_or(e.payload, "action"@, "created"@)
            + " an issue comment in "@ + e.repository_name@,
        EventType::GollumEvent => "updated wiki pages of "@ + e.repository_name@,
        EventType::ForkEvent => "forked "@ + e.repository_name@,
        EventType::DeleteEvent => "deleted a "@ + spec_str_or(e.payload, "ref_type"@, "branch"@)
            + " in "@ + e.repository_name@,
        EventType::CreateEvent => create_text(e),
        EventType::CommitCommentEvent => spec_str_or(e.payload, "action"@, "created"@)
            + " a commit comment in "@ + e.repository_name@,
    }
}

/// The full rendered line of one event record.
pub open spec fn rendered_line(e: EventData) -> Seq<char> {
    "- "@ + event_text(e)
}

/// Rendering is total: every record, whatever its payload holds, renders
/// to a non-empty line beginning with "- ".
pub proof fn lemma_render_total(e: EventData)
    ensures
        rendered_line(e).len() >= 2,
        rendered_line(e)[0] == '-',
        rendered_line(e)[1] == ' ',
{
    reveal_strlit("- ");
    assert(rendered_line(e)[0] == "- "@[0]);
    assert(rendered_line(e)[1] == "- "@[1]);
}

impl EventData {
    /// Renders this record as its one-line description.
    pub fn render(&self) -> (r: String)
        ensures
            r@ == rendered_line(*self),
    {
        let mut s = String::from_str("- ");
        match self.kind {
            EventType::WatchEvent => {
                s.append("starred ");
                s.append(self.repository_name.as_str());
                proof {
                    assert(s@ =~= rendered_line(*self));
                }
            },
            EventType::SponsorshipEvent => {
                s.append("sponsored ");
                s.append(self.repository_name.as_str());
                proof {
                    assert(s@ =~= rendered_line(*self));
                }
            },
            EventType::ReleaseEvent => {
                let action = self.payload.str_or("action", "published");
                s.append(action.as_str());
                s.append(" a release in ");
                s.append(self.repository_name.as_str());
                proof {
                    assert(s@ =~= rendered_line(*self));
                }
            },
            EventType::PushEvent => {
                let n = self.payload.int_or("size", 1);
                s.append("pushed ");
                append_i64(&mut s, n);
                if n == 1 {
                    s.append(" commit to ");
                } else {
                    s.append(" commits to ");
                }
                s.append(self.repository_name.as_str());
                proof {
                    assert(s@ =~= rendered_line(*self));
                }
            },
            EventType::PullRequestReviewThreadEvent => {
                let action = self.payload.str_or("action", "resolved");
                s.append("marked a pull request as ");
                s.append(action.as_str());
                s.append(" in ");
                s.append(self.repository_name.as_str());
                proof {
                    assert(s@ =~= rendered_line(*self));
                }
            },
            EventType::PullRequestReviewCommentEvent => {
                let action = self.payload.str_or("action", "created");
                s.append(action.as_str());
                s.append(" a pull request comment in ");
                s.append(self.repository_name.as_str());
                proof {
                    assert(s@ =~= rendered_line(*self));
                }
            },
            EventType::PullRequestReviewEvent => {
                let action = self.payload.str_or("action", "created");
                s.append(action.as_str());
                s.append(" a pull request review in ");
                s.append(self.repository_name.as_str());
                proof {
                    assert(s@ =~= rendered_line(*self));
                }
            },
            EventType::PullRequestEvent => {
                let action = self.payload.str_or("action", "opened");
                s.append(action.as_str());
                s.append(" a pull request in ");
                s.append(self.repository_name.as_str());
                proof {
                    assert(s@ =~= rendered_line(*self));
                }
            },
            EventType::PublicEvent => {
                s.append("made ");
                s.append(self.repository_name.as_str());
                s.append(" a public repository");
                proof {
                    assert(s@ =~= rendered_line(*self));
                }
            },
            EventType::MemberEvent => {
                let action = self.payload.str_or("action", "added");
                s.append(action.as_str());
                s.append(" a member as a collaborator of ");
                s.append(self.repository_name.as_str());
                proof {
                    assert(s@ =~= rendered_line(*self));
                }
            },
            EventType::IssuesEvent => {
                let action = self.payload.str_or("action", "opened");
                s.append(action.as_str());
                s.append(" an issue in ");
                s.append(self.repository_name.as_str());
                proof {
                    assert(s@ =~= rendered_line(*self));
                }
            },
            EventType::IssueCommentEvent => {
                let action = self.payload.str_or("action", "created");
                s.append(action.as_str());
                s.append(" an issue comment in ");
                s.append(self.repository_name.as_str());
                proof {
                    assert(s@ =~= rendered_line(*self));
                }
            },
            EventType::GollumEvent => {
                s.append("updated wiki pages of ");
                s.append(self.repository_name.as_str());
                proof {
                    assert(s@ =~= rendered_line(*self));
                }
            },
            EventType::ForkEvent => {
                s.append("forked ");
                s.append(self.repository_name.as_str());
                proof {
                    assert(s@ =~= rendered_line(*self));
                }
            },
            EventType::DeleteEvent => {
                let ref_object = self.payload.str_or("ref_type", "branch");
                s.append("deleted a ");
                s.append(ref_object.as_str());
                s.append(" in ");
                s.append(self.repository_name.as_str());
                proof {
                    assert(s@ =~= rendered_line(*self));
                }
            },
            EventType::CreateEvent => {
                let ref_object = self.payload.str_or("ref_type", "branch");
                if str_eq(ref_object.as_str(), "repository") {
                    s.append("created the repository ");
                    s.append(self.repository_name.as_str());
                } else {
                    s.append("created a new ");
                    s.append(ref_object.as_str());
                    s.append(" in ");
                    s.append(self.repository_name.as_str());
                }
                proof {
                    assert(s@ =~= rendered_line(*self));
                }
            },
            EventType::CommitCommentEvent => {
                let action = self.payload.str_or("action", "created");
                s.append(action.as_str());
                s.append(" a commit comment in ");
                s.append(self.repository_name.as_str());
                proof {
                    assert(s@ =~= rendered_line(*self));
                }
            },
        }
        s
    }
}

/// Renders every record, one line per record, in input order.
pub fn render_all(events: &Vec<EventData>) -> (r: Vec<String>)
    ensures
        r@.len() == events@.len(),
        forall|i: int| 0 <= i < events@.len() ==> r@[i]@ == rendered_line(events@[i]),
{
    let mut out: Vec<String> = Vec::new();
    let mut i: usize = 0;
    while i < events.len()
        invariant
            i <= events@.len(),
            out@.len() == i,
            forall|j: int| 0 <= j < i ==> out@[j]@ == rendered_line(events@[j]),
        decreases events@.len() - i,
    {
        let line = events[i].render();
        out.push(line);
        i = i + 1;
    }
    out
}

/// The lines to print for a decoded run: one rendered line per event in
/// input order, or the fixed notice when there are no events at all.
pub fn report_lines(events: &Vec<EventData>) -> (r: Vec<String>)
    ensures
        events@.len() == 0 ==> r@.len() == 1 && r@[0]@ == "No events listed for this user."@,
        events@.len() > 0 ==> r@.len() == events@.len() && (forall|i: int|
            0 <= i < events@.len() ==> r@[i]@ == rendered_line(events@[i])),
{
    if events.len() == 0 {
        let mut out: Vec<String> = Vec::new();
        out.push(String::from_str("No events listed for this user."));
        out
    } else {
        render_all(events)
    }
}

} // verus!
