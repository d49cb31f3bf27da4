//! One journal entry: its text and the moment it was created.

use crate::text::{pad_text, padded, signed_decimal_string};
use vstd::prelude::*;
use vstd::string::*;

verus! {

/// A task: free text and its creation time in whole seconds since the Unix epoch (UTC).
pub struct Task {
    pub text: String,
    pub created_at: i64,
}

/// Relies on chrono::Utc::now and DateTime::timestamp: the current moment in whole
/// seconds since the Unix epoch. Nothing is promised of the value.
#[verifier::external_body]
fn now_epoch_seconds() -> (r: i64) {
    chrono::Utc::now().timestamp()
}

/// Relies on chrono's DateTime::from_timestamp, its conversion to the Local time zone
/// and its "%F %H:%M" formatting: the moment `secs` as local `YYYY-MM-DD HH:MM`, or
/// `None` where chrono cannot represent the moment. The machine's time zone decides the
/// text, so nothing is promised of it.
#[verifier::external_body]
fn local_time_label(secs: i64) -> (r: Option<String>) {
    match chrono::DateTime::from_timestamp(secs, 0) {
        Some(t) => Some(t.with_timezone(&chrono::Local).format("%F %H:%M").to_string()),
        None => None,
    }
}

/// A task as displayed: its text padded to the field width, then the time label in brackets.
pub open spec fn rendered(text: Seq<char>, label: Seq<char>) -> Seq<char> {
    padded(text) + seq![' ', '['] + label + seq![']']
}

impl Task {
    /// A task with the given text, created now.
    pub fn new(text: String) -> (r: Task)
        ensures
            r.text == text,
    {
        let created_at = now_epoch_seconds();
        Task { text, created_at }
    }

    /// The task as displayed, with `label` standing for its creation time.
    pub fn render_with_label(&self, label: &str) -> (r: String)
        ensures
            r@ == rendered(self.text@, label@),
    {
        let p = pad_text(self.text.as_str());
        proof {
            reveal_strlit(" [");
            reveal_strlit("]");
        }
        let r = p.concat(" [").concat(label).concat("]");
        assert(r@ =~= rendered(self.text@, label@));
        r
    }

    /// The creation time in local time, as `YYYY-MM-DD HH:MM`. A moment that the
    /// calendar cannot show is labelled with its seconds.
    pub(crate) fn time_label(&self) -> (r: String) {
        match local_time_label(self.created_at) {
            Some(l) => l,
            None => signed_decimal_string(self.created_at),
        }
    }

    /// The task as displayed, with its creation time in local time.
    pub fn render(&self) -> (r: String)
        ensures
            exists|label: Seq<char>| r@ == rendered(self.text@, label),
    {
        let label = self.time_label();
        let r = self.render_with_label(label.as_str());
        assert(r@ == rendered(self.text@, label@));
        r
    }
}

} // verus!
