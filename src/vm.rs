use vstd::prelude::*;

use crate::errors::{reply_status, FacadeError};
use crate::json::{bool_json, bool_literal, decimal, frame_array, json_array, json_quoted, number_json, quote_json, texts_of};

verus! {

/// What the backend answered about one enumerated domain. Each field is the
/// result of its own query; `None` means that query failed.
pub struct DomainReport {
    pub id: Option<u32>,
    pub name: Option<String>,
    pub active: Option<bool>,
}

/// The transfer record of one virtual machine.
pub struct VmItem {
    pub id: u32,
    pub name: String,
    pub active: bool,
}

/// The id reported, or 0 where the id query failed.
pub open spec fn reported_id(r: DomainReport) -> u32 {
    match r.id {
        Some(i) => i,
        None => 0,
    }
}

/// The name reported, or "no-name" where the name query failed.
pub open spec fn reported_name(r: DomainReport) -> Seq<char> {
    match r.name {
        Some(n) => n@,
        None => "no-name"@,
    }
}

/// The liveness reported, or `false` where the liveness query failed.
pub open spec fn reported_active(r: DomainReport) -> bool {
    match r.active {
        Some(a) => a,
        None => false,
    }
}

/// `item` is the record of the domain described by `r`, each failed query
/// degraded to its default.
pub open spec fn item_of_report(item: VmItem, r: DomainReport) -> bool {
    &&& item.id == reported_id(r)
    &&& item.name@ == reported_name(r)
    &&& item.active == reported_active(r)
}

/// The JSON object of one record, fields in declaration order.
pub open spec fn vm_json(id: u32, name: Seq<char>, active: bool) -> Seq<char> {
    "{\"id\":"@ + decimal(id as nat) + ",\"name\":"@ + json_quoted(name) + ",\"active\":"@
        + bool_literal(active) + "}"@
}

/// The JSON objects of the records of the reported domains, in order.
pub open spec fn reports_json(reports: Seq<DomainReport>) -> Seq<Seq<char>> {
    reports.map_values(
        |r: DomainReport| vm_json(reported_id(r), reported_name(r), reported_active(r)),
    )
}

impl VmItem {
    pub fn new(id: u32, name: String, active: bool) -> (r: VmItem)
        ensures
            r.id == id,
            r.name@ == name@,
            r.active == active,
    {
        VmItem { id, name, active }
    }

    /// The record of one reported domain: a failed query degrades to id 0,
    /// name "no-name" or inactive, and never drops the domain.
    pub fn from_report(report: &DomainReport) -> (r: VmItem)
        ensures
            item_of_report(r, *report),
    {
        let id: u32 = match report.id {
            Some(i) => i,
            None => 0,
        };
        let name = match &report.name {
            Some(n) => n.clone(),
            None => String::from_str("no-name"),
        };
        let active = match report.active {
            Some(a) => a,
            None => false,
        };
        VmItem::new(id, name, active)
    }

    /// The records of a combined active and inactive enumeration, one per
    /// domain and in enumeration order; `None` where the enumeration failed.
    pub fn get_all(listing: &Option<Vec<DomainReport>>) -> (r: Option<Vec<VmItem>>)
        ensures
            listing.is_none() <==> r.is_none(),
            listing.is_some() ==> r->0.len() == listing->0.len() && forall|i: int|
                0 <= i < r->0.len() ==> #[trigger] item_of_report(r->0[i], listing->0[i]),
    {
        match listing {
            None => None,
            Some(reports) => {
                let mut items: Vec<VmItem> = Vec::new();
                let mut i: usize = 0;
                while i < reports.len()
                    invariant
                        i <= reports.len(),
                        items.len() == i,
                        forall|j: int| 0 <= j < i ==> #[trigger] item_of_report(items[j], reports[j]),
                    decreases reports.len() - i,
                {
                    items.push(VmItem::from_report(&reports[i]));
                    i = i + 1;
                }
                Some(items)
            },
        }
    }

    /// The JSON object of this record.
    pub fn to_json(&self) -> (r: String)
        ensures
            r@ == vm_json(self.id, self.name@, self.active),
    {
        let mut out = String::from_str("{\"id\":");
        let id_text = number_json(self.id as u64);
        out.append(id_text.as_str());
        out.append(",\"name\":");
        let name_text = quote_json(self.name.as_str());
        out.append(name_text.as_str());
        out.append(",\"active\":");
        let active_text = bool_json(self.active);
        out.append(active_text.as_str());
        out.append("}");
        out
    }
}

/// The JSON text of a VM listing: an array of the records in enumeration
/// order, or the empty text where the enumeration failed.
pub open spec fn listing_json(listing: Option<Vec<DomainReport>>) -> Seq<char> {
    match listing {
        Some(reports) => json_array(reports_json(reports@)),
        None => Seq::empty(),
    }
}

/// A lifecycle transition that a caller asks of a virtual machine.
#[derive(Clone, Copy, Debug, PartialEq, Eq, Structural)]
pub enum VmAction {
    Start,
    Suspend,
    Resume,
    Delete,
}

/// The backend call that carries out an action.
#[derive(Clone, Copy, Debug, PartialEq, Eq, Structural)]
pub enum BackendCall {
    /// Power the domain on.
    Create,
    Suspend,
    Resume,
    /// Stop the domain at once.
    Destroy,
}

/// How the one transition call of an action ended.
#[derive(Clone, Copy, Debug, PartialEq, Eq, Structural)]
pub enum TransitionOutcome {
    /// The backend carried out the transition.
    Done,
    /// The backend refused it because the domain is already in the state
    /// asked for (its "operation invalid" condition).
    AlreadyInState,
    /// Any other failure of the call.
    Failed,
}

pub open spec fn call_for(a: VmAction) -> BackendCall {
    match a {
        VmAction::Start => BackendCall::Create,
        VmAction::Suspend => BackendCall::Suspend,
        VmAction::Resume => BackendCall::Resume,
        VmAction::Delete => BackendCall::Destroy,
    }
}

/// The reply to an action. `attempt` is `None` where the lookup of the
/// domain by name failed, else the outcome of the transition call.
pub open spec fn settled(attempt: Option<TransitionOutcome>) -> Result<(), FacadeError> {
    match attempt {
        None => Err(FacadeError::LookupFailure),
        Some(TransitionOutcome::Failed) => Err(FacadeError::TransitionFailure),
        Some(_) => Ok(()),
    }
}

impl VmAction {
    /// The one backend call that this action attempts.
    pub fn backend_call(&self) -> (r: BackendCall)
        ensures
            r == call_for(*self),
    {
        match self {
            VmAction::Start => BackendCall::Create,
            VmAction::Suspend => BackendCall::Suspend,
            VmAction::Resume => BackendCall::Resume,
            VmAction::Delete => BackendCall::Destroy,
        }
    }
}

impl TransitionOutcome {
    /// The outcome of a transition call: whether it succeeded, and whether
    /// its failure was the backend's "operation invalid" condition.
    pub fn of_call(succeeded: bool, operation_invalid: bool) -> (r: TransitionOutcome)
        ensures
            succeeded ==> r == TransitionOutcome::Done,
            !succeeded && operation_invalid ==> r == TransitionOutcome::AlreadyInState,
            !succeeded && !operation_invalid ==> r == TransitionOutcome::Failed,
    {
        if succeeded {
            TransitionOutcome::Done
        } else if operation_invalid {
            TransitionOutcome::AlreadyInState
        } else {
            TransitionOutcome::Failed
        }
    }
}

/// The virtual machine endpoints: listing, and the four lifecycle actions.
pub struct VirtualMachine;

impl VirtualMachine {
    /// The JSON listing of all domains, degraded per record, or the empty
    /// text where the enumeration itself failed.
    pub fn all(listing: &Option<Vec<DomainReport>>) -> (r: String)
        ensures
            r@ == listing_json(*listing),
    {
        match VmItem::get_all(listing) {
            None => String::new(),
            Some(items) => {
                let ghost reports = listing->0@;
                let mut texts: Vec<String> = Vec::new();
                let mut i: usize = 0;
                while i < items.len()
                    invariant
                        i <= items.len(),
                        items.len() == reports.len(),
                        listing.is_some() && reports == listing->0@,
                        forall|j: int| 0 <= j < items.len() ==> #[trigger] item_of_report(items[j], reports[j]),
                        texts.len() == i,
                        forall|j: int| 0 <= j < i ==> #[trigger] texts[j]@ == reports_json(reports)[j],
                    decreases items.len() - i,
                {
                    assert(item_of_report(items[i as int], reports[i as int]));
                    texts.push(items[i].to_json());
                    i = i + 1;
                }
                let r = frame_array(&texts);
                assert(texts_of(texts@) =~= reports_json(reports));
                r
            },
        }
    }

    /// The reply to an action, from the lookup and the transition call.
    pub fn settle(attempt: Option<TransitionOutcome>) -> (r: Result<(), FacadeError>)
        ensures
            r == settled(attempt),
    {
        match attempt {
            None => Err(FacadeError::LookupFailure),
            Some(TransitionOutcome::Failed) => Err(FacadeError::TransitionFailure),
            Some(_) => Ok(()),
        }
    }

    /// Suspend: success also where the domain was already suspended.
    pub fn suspend(attempt: Option<TransitionOutcome>) -> (r: Result<(), FacadeError>)
        ensures
            r == settled(attempt),
    {
        VirtualMachine::settle(attempt)
    }

    /// Power on: success also where the domain was already running.
    pub fn start(attempt: Option<TransitionOutcome>) -> (r: Result<(), FacadeError>)
        ensures
            r == settled(attempt),
    {
        VirtualMachine::settle(attempt)
    }

    /// Resume: success also where the domain was already running.
    pub fn resume(attempt: Option<TransitionOutcome>) -> (r: Result<(), FacadeError>)
        ensures
            r == settled(attempt),
    {
        VirtualMachine::settle(attempt)
    }

    /// Destroy: success also where the domain was already stopped; an
    /// unknown name is a lookup failure.
    pub fn delete(attempt: Option<TransitionOutcome>) -> (r: Result<(), FacadeError>)
        ensures
            r == settled(attempt),
            attempt.is_none() ==> r == Err::<(), FacadeError>(FacadeError::LookupFailure),
    {
        VirtualMachine::settle(attempt)
    }
}

/// A listing keeps every enumerated domain: one record per domain, in
/// enumeration order, so records with id 0 neither collide nor vanish.
pub proof fn listing_keeps_every_domain(reports: Seq<DomainReport>)
    ensures
        reports_json(reports).len() == reports.len(),
        forall|i: int|
            0 <= i < reports.len() ==> #[trigger] reports_json(reports)[i] == vm_json(
                reported_id(reports[i]),
                reported_name(reports[i]),
                reported_active(reports[i]),
            ),
{
}

/// A domain whose every query failed is listed as id 0, "no-name",
/// inactive, rather than left out.
pub proof fn failed_queries_degrade(r: DomainReport)
    requires
        r.id.is_none(),
        r.name.is_none(),
        r.active.is_none(),
    ensures
        reported_id(r) == 0,
        reported_name(r) == "no-name"@,
        reported_active(r) == false,
{
}

/// Suspending twice succeeds both times where the backend carried out the
/// first call, or objected only that the domain was already suspended.
pub proof fn repeated_suspend_succeeds(first: TransitionOutcome, second: TransitionOutcome)
    requires
        first != TransitionOutcome::Failed,
        second != TransitionOutcome::Failed,
    ensures
        settled(Some(first)) == Ok::<(), FacadeError>(()),
        settled(Some(second)) == Ok::<(), FacadeError>(()),
        reply_status(settled(Some(first))) == 200,
        reply_status(settled(Some(second))) == 200,
{
}

/// Deleting a VM whose name the backend does not know is a not-found reply.
pub proof fn unknown_vm_delete_is_not_found()
    ensures
        settled(None) == Err::<(), FacadeError>(FacadeError::LookupFailure),
        reply_status(settled(None)) == 404,
{
}

} // verus!
