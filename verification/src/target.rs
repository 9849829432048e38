//! The record kept for each monitored endpoint.

use vstd::prelude::*;
use crate::date::Date;

verus! {

/// Mathematical model of a monitored endpoint's record.
pub struct TargetModel {
    pub id: int,
    pub url: Seq<char>,
    pub webhook: Seq<char>,
    pub last_checked: Option<Date>,
    pub status: Option<bool>,
}

/// A monitored endpoint: where to probe, where to send failure alerts,
/// and the outcome of the most recent probe. `id` is assigned by the
/// result store at creation; `url` and `webhook` never change after it.
/// `last_checked` and `status` are absent until the first probe and are
/// always updated together.
pub struct Target {
    pub id: i32,
    pub url: String,
    pub webhook: String,
    pub last_checked: Option<Date>,
    pub status: Option<bool>,
}

impl View for Target {
    type V = TargetModel;

    open spec fn view(&self) -> TargetModel {
        TargetModel {
            id: self.id as int,
            url: self.url@,
            webhook: self.webhook@,
            last_checked: self.last_checked,
            status: self.status,
        }
    }
}

impl Target {
    /// An exact copy of the record.
    pub fn duplicate(&self) -> (t: Target)
        ensures
            t@ == self@,
    {
        Target {
            id: self.id,
            url: self.url.clone(),
            webhook: self.webhook.clone(),
            last_checked: self.last_checked,
            status: self.status,
        }
    }
}

} // verus!
