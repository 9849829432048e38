//! One cycle of a monitor loop.
//!
//! A monitor loop owns a single target and alternates forever between
//! its two phases: `Probing` (probe, record, maybe notify) and
//! `Waiting` (sleep for the configured interval). `cycle_step` is the
//! decision of one `Probing` phase: given the probe outcome and the
//! current date, it says exactly what must be written to the result
//! store and whether (and with what payload) the webhook must be
//! notified. The caller performs the write — it must succeed before the
//! loop goes on — sends the notification best-effort, and sleeps.

use vstd::prelude::*;
use crate::date::Date;
use crate::notify::{notification_payload, notification_payload_spec};
use crate::probe::{classify_probe, classifies_healthy};

verus! {

/// The two phases of a monitor loop. There is no terminal phase: a loop
/// ends only with the process.
#[derive(Clone, Copy, PartialEq, Eq, Structural, Debug)]
pub enum LoopPhase {
    Probing,
    Waiting,
}

/// The phase a loop enters after the given one: the two alternate.
pub open spec fn next_phase_spec(phase: LoopPhase) -> LoopPhase {
    match phase {
        LoopPhase::Probing => LoopPhase::Waiting,
        LoopPhase::Waiting => LoopPhase::Probing,
    }
}

/// Advance a loop to its next phase.
pub fn next_phase(phase: LoopPhase) -> (next: LoopPhase)
    ensures
        next == next_phase_spec(phase),
{
    match phase {
        LoopPhase::Probing => LoopPhase::Waiting,
        LoopPhase::Waiting => LoopPhase::Probing,
    }
}

/// The write one cycle makes to the result store: the check fields of
/// the target with this id, set together.
#[derive(Clone, Copy, PartialEq, Eq, Structural, Debug)]
pub struct CheckUpdate {
    pub id: i32,
    pub date: Date,
    pub healthy: bool,
}

/// Model of everything one cycle decides.
pub struct CycleModel {
    pub update: CheckUpdate,
    pub notification: Option<Seq<char>>,
}

/// Everything one cycle decides: the store write, and the notification
/// payload to deliver, present exactly when the probe failed.
pub struct CycleOutcome {
    pub update: CheckUpdate,
    pub notification: Option<String>,
}

impl View for CycleOutcome {
    type V = CycleModel;

    open spec fn view(&self) -> CycleModel {
        CycleModel {
            update: self.update,
            notification: match self.notification {
                Some(p) => Some(p@),
                None => None,
            },
        }
    }
}

/// What a cycle decides, as a function of the target's id and address,
/// the probe outcome and the current date.
pub open spec fn cycle_spec(
    id: int,
    url: Seq<char>,
    response_code: Option<u16>,
    today: Date,
) -> CycleModel {
    let healthy = classifies_healthy(response_code);
    CycleModel {
        update: CheckUpdate { id: id as i32, date: today, healthy },
        notification: if healthy {
            None
        } else {
            Some(notification_payload_spec(url))
        },
    }
}

/// Decide one `Probing` phase of the monitor loop that owns target
/// `id`/`url`: record today's date together with the probe's boolean
/// outcome, and notify — once, with a payload naming the address —
/// exactly when the probe failed.
pub fn cycle_step(id: i32, url: &str, response_code: Option<u16>, today: Date) -> (out:
    CycleOutcome)
    ensures
        out@ == cycle_spec(id as int, url@, response_code, today),
        out.update.id == id,
        out.update.date == today,
        out.update.healthy == classifies_healthy(response_code),
        out.notification is Some <==> !classifies_healthy(response_code),
{
    let healthy = classify_probe(response_code);
    let notification = if healthy {
        None
    } else {
        Some(notification_payload(url))
    };
    CycleOutcome { update: CheckUpdate { id, date: today, healthy }, notification }
}

/// The decisions of a whole run of cycles: one entry per cycle, each
/// from that cycle's probe outcome and date.
pub open spec fn cycles_spec(
    id: int,
    url: Seq<char>,
    response_codes: Seq<Option<u16>>,
    dates: Seq<Date>,
) -> Seq<CycleModel> {
    Seq::new(response_codes.len(), |i: int| cycle_spec(id, url, response_codes[i], dates[i]))
}

/// Repeated cycles on an always-healthy target are uneventful: a run of
/// `n` cycles decides exactly `n` store writes, every one recording
/// `healthy`, and no notification at all.
pub proof fn lemma_healthy_run_is_quiet(
    id: int,
    url: Seq<char>,
    response_codes: Seq<Option<u16>>,
    dates: Seq<Date>,
)
    requires
        dates.len() == response_codes.len(),
        forall|i: int|
            0 <= i < response_codes.len() ==> classifies_healthy(#[trigger] response_codes[i]),
    ensures
        cycles_spec(id, url, response_codes, dates).len() == response_codes.len(),
        forall|i: int|
            0 <= i < response_codes.len() ==> #[trigger] cycles_spec(
                id,
                url,
                response_codes,
                dates,
            )[i].update.healthy,
        forall|i: int|
            0 <= i < response_codes.len() ==> #[trigger] cycles_spec(
                id,
                url,
                response_codes,
                dates,
            )[i].notification is None,
{
}

} // verus!
