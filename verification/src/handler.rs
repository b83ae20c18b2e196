use crate::domain::subscriber_email::email_error_tail;
use crate::domain::subscriber_email::email_ok;
use crate::domain::subscriber_email::SubscriberEmail;
use crate::domain::subscriber_name::name_error_tail;
use crate::domain::subscriber_name::name_valid;
use crate::domain::subscriber_name::SubscriberName;
use vstd::prelude::*;

verus! {

/// The tagged result of handling one submission. It preserves the fault
/// boundary the design depends on: `BadRequest` and `RejectedInput` are
/// client-attributable, `PersistenceFailure` is server-attributable.
#[derive(Debug)]
pub enum Outcome {
    /// The submission was valid and the store recorded it.
    Accepted,
    /// The raw body could not be decoded into a name and an email: a key was
    /// absent or the encoding malformed. Detected before any domain
    /// construction is attempted.
    BadRequest,
    /// The name or the email failed validation; carries the validation
    /// message.
    RejectedInput(String),
    /// The store failed to record an otherwise-valid request; carries the
    /// store's reason.
    PersistenceFailure(String),
}

/// A submission whose fields both passed validation: it cannot exist with an
/// invalid name or email, and it exclusively owns both values.
#[derive(Debug)]
pub struct SubscriptionRequest {
    pub name: SubscriberName,
    pub email: SubscriberEmail,
}

/// What the handler decided about a submission before the persistence step:
/// either an already-settled rejection, or a validated request that is ready
/// for `Store.insert`.
#[derive(Debug)]
pub enum Disposition {
    /// The submission is rejected without touching the store.
    Reject(Outcome),
    /// Both fields validated; the caller performs the one side-effecting
    /// step, `Store.insert`, and settles the outcome with
    /// `settle_persistence`.
    Persist(SubscriptionRequest),
}

/// The response status class each outcome maps to at the boundary.
pub open spec fn status_of(o: Outcome) -> u16 {
    match o {
        Outcome::Accepted => 200,
        Outcome::BadRequest => 422,
        Outcome::RejectedInput(_) => 422,
        Outcome::PersistenceFailure(_) => 500,
    }
}

/// Decodes and validates one submission. Each field is `None` where its key
/// was absent from the raw body; an absent key is a decode failure, rejected
/// before any domain construction. Name and email are then validated in
/// turn, either failure rejecting the whole submission; only a submission
/// with both fields valid reaches the store.
pub fn prepare_submission(name: Option<String>, email: Option<String>) -> (d: Disposition)
    ensures
        name is None || email is None ==> d == Disposition::Reject(Outcome::BadRequest),
        name is Some && email is Some && !name_valid(name->0@) ==> (d matches Disposition::Reject(
            o,
        ) && o matches Outcome::RejectedInput(m) && m@ == name->0@ + name_error_tail()),
        name is Some && email is Some && name_valid(name->0@) && !email_ok(email->0@) ==> (
        d matches Disposition::Reject(o) && o matches Outcome::RejectedInput(m) && m@ == email->0@
            + email_error_tail()),
        name is Some && email is Some && name_valid(name->0@) && email_ok(email->0@) ==> (
        d matches Disposition::Persist(req) && req.name@ == name->0@ && req.email@ == email->0@),
{
    let (raw_name, raw_email) = match (name, email) {
        (Some(n), Some(e)) => (n, e),
        _ => {
            return Disposition::Reject(Outcome::BadRequest);
        },
    };
    let valid_name = match SubscriberName::parse(raw_name) {
        Ok(n) => n,
        Err(message) => {
            return Disposition::Reject(Outcome::RejectedInput(message));
        },
    };
    let valid_email = match SubscriberEmail::parse(raw_email) {
        Ok(e) => e,
        Err(message) => {
            return Disposition::Reject(Outcome::RejectedInput(message));
        },
    };
    Disposition::Persist(SubscriptionRequest { name: valid_name, email: valid_email })
}

/// Settles the outcome of the persistence step from what `Store.insert`
/// reported: success is `Accepted`, and a store failure is a server-side
/// `PersistenceFailure` carrying the store's reason, never a validation
/// rejection.
pub fn settle_persistence(store_result: Result<(), String>) -> (o: Outcome)
    ensures
        store_result is Ok ==> o == Outcome::Accepted,
        store_result matches Err(reason) ==> (o matches Outcome::PersistenceFailure(m) && m@
            == reason@),
{
    match store_result {
        Ok(()) => Outcome::Accepted,
        Err(reason) => Outcome::PersistenceFailure(reason),
    }
}

/// Maps an outcome to the response status the boundary returns.
pub fn status_code(outcome: &Outcome) -> (code: u16)
    ensures
        code == status_of(*outcome),
{
    match outcome {
        Outcome::Accepted => 200,
        Outcome::BadRequest => 422,
        Outcome::RejectedInput(_) => 422,
        Outcome::PersistenceFailure(_) => 500,
    }
}

/// The client/server fault boundary is a hard invariant of the status
/// mapping: 200 exactly for acceptance, 422 exactly for the
/// client-attributable outcomes, 500 exactly for the server-attributable
/// one, so no two fault classes are ever collapsed.
pub proof fn lemma_fault_boundary(o: Outcome)
    ensures
        status_of(o) == 200 <==> o is Accepted,
        status_of(o) == 422 <==> (o is BadRequest || o is RejectedInput),
        status_of(o) == 500 <==> o is PersistenceFailure,
{
}

} // verus!
