//! The life of a verification: a relying party requests it, the wallet's
//! consent starts the credential check, and the check's verdict settles the
//! session and decides whether the relying party is notified.
//!
//! The credential check itself is done elsewhere. `begin_resolve` says what
//! to ask of it, and `complete_resolve` takes its verdict.

use crate::session::{pending_session, Fault, FaultView, Outcome, SessionView, Status};
use crate::store::{after_settling, assigned, can_settle, refusal, SessionStore};
use crate::ident::{id_of_token, is_token};
use crate::webhook::{
    build_delivery, delivery_for, lemma_result_words_differ, result_word, DeliveryView,
    WebhookDelivery,
};
use vstd::prelude::*;
use vstd::string::*;

verus! {

/// What the relying party is told when its request is accepted.
#[derive(Debug)]
pub struct VerificationReceipt {
    pub verification_id: String,
    pub status: String,
    pub wallet_url: String,
}

/// Mathematical value of a receipt.
pub struct ReceiptView {
    pub verification_id: Seq<char>,
    pub status: Seq<char>,
    pub wallet_url: Seq<char>,
}

impl View for VerificationReceipt {
    type V = ReceiptView;

    open spec fn view(&self) -> ReceiptView {
        ReceiptView {
            verification_id: self.verification_id@,
            status: self.status@,
            wallet_url: self.wallet_url@,
        }
    }
}

/// What to ask of the credential check for one consent decision.
#[derive(Debug)]
pub struct CredentialRequest {
    pub session_id: String,
    pub consent: bool,
    pub min_age: u32,
    pub issuer: String,
}

/// Mathematical value of a credential request.
pub struct CredentialRequestView {
    pub session_id: Seq<char>,
    pub consent: bool,
    pub min_age: u32,
    pub issuer: Seq<char>,
}

impl View for CredentialRequest {
    type V = CredentialRequestView;

    open spec fn view(&self) -> CredentialRequestView {
        CredentialRequestView {
            session_id: self.session_id@,
            consent: self.consent,
            min_age: self.min_age,
            issuer: self.issuer@,
        }
    }
}

/// The issuer whose signature a presentation must carry.
pub open spec fn trusted_issuer() -> Seq<char> {
    "https://pylonid.eu/pid-issuer"@
}

/// The address at which the wallet opens the session `id`.
pub open spec fn wallet_url_of(id: Seq<char>) -> Seq<char> {
    "http://localhost:8000/scan/"@ + id
}

/// The receipt for a session just created.
pub open spec fn receipt_of(id: Seq<char>) -> ReceiptView {
    ReceiptView { verification_id: id, status: "pending"@, wallet_url: wallet_url_of(id) }
}

/// What settles a session, given the verdict of the credential check.
pub open spec fn outcome_of(verdict: Result<bool, String>) -> Outcome {
    match verdict {
        Ok(answer) => Outcome::Decided(answer),
        Err(_) => Outcome::Errored,
    }
}

/// What the caller is told when `verdict` arrives for `id` in the store `m`.
/// A refusal by the store comes first. Otherwise an answer yields the
/// delivery to make, and a breakdown yields the failure with its reason and
/// no delivery.
pub open spec fn reply_to(
    m: Map<Seq<char>, SessionView>,
    id: Seq<char>,
    verdict: Result<bool, String>,
) -> Result<DeliveryView, FaultView> {
    if !can_settle(m, id) {
        Err(refusal(m, id))
    } else {
        match verdict {
            Ok(answer) => Ok(delivery_for(m[id], answer)),
            Err(reason) => Err(FaultView::CollaboratorFailure(reason@)),
        }
    }
}

/// The HTTP status that reports a fault.
pub open spec fn status_of_fault(fault: FaultView) -> u16 {
    match fault {
        FaultView::NotFound => 404,
        FaultView::AlreadyResolved => 409,
        FaultView::CollaboratorFailure(_) => 500,
    }
}

/// The sentence that reports a fault to the caller: a fixed one for a refusal
/// by the store, the collaborator's own reason for a breakdown.
pub open spec fn message_of(fault: FaultView) -> Seq<char> {
    match fault {
        FaultView::NotFound => "Verification not found"@,
        FaultView::AlreadyResolved => "Verification already resolved"@,
        FaultView::CollaboratorFailure(reason) => reason,
    }
}

/// Builds the wallet address of a session.
pub fn wallet_url(id: &str) -> (url: String)
    ensures
        url@ == wallet_url_of(id@),
{
    let mut url = String::from_str("http://localhost:8000/scan/");
    url.append(id);
    url
}

/// Builds the receipt for a session just created.
pub fn receipt_for(id: String) -> (receipt: VerificationReceipt)
    ensures
        receipt@ == receipt_of(id@),
{
    let wallet_url = wallet_url(id.as_str());
    VerificationReceipt { verification_id: id, status: String::from_str("pending"), wallet_url }
}

/// Accepts a relying party's request: files a new pending session and
/// answers with its identifier and wallet address. Never fails.
pub fn request_verification(store: &mut SessionStore, min_age: u32, callback_url: &str) -> (receipt:
    VerificationReceipt)
    requires
        old(store).wf(),
    ensures
        final(store).wf(),
        !old(store)@.dom().contains(receipt.verification_id@),
        final(store)@ == old(store)@.insert(
            receipt.verification_id@,
            pending_session(receipt.verification_id@, min_age, callback_url@),
        ),
        receipt@ == receipt_of(receipt.verification_id@),
        exists|token: Seq<char>| #[trigger]
            is_token(token) && assigned(
                old(store)@.dom(),
                id_of_token(token),
                receipt.verification_id@,
            ),
{
    let id = store.create(min_age, callback_url);
    receipt_for(id)
}

/// First half of a resolution: looks the session up and says what to ask of
/// the credential check. Reads only. An unknown identifier is the one
/// reason to refuse here; whether the session can still be settled is for
/// `complete_resolve` to say.
pub fn begin_resolve(store: &SessionStore, id: &str, consent: bool) -> (ask: Result<
    CredentialRequest,
    Fault,
>)
    requires
        store.wf(),
    ensures
        match ask {
            Ok(request) => store@.dom().contains(id@) && request@ == (CredentialRequestView {
                session_id: id@,
                consent,
                min_age: store@[id@].min_age,
                issuer: trusted_issuer(),
            }),
            Err(fault) => !store@.dom().contains(id@) && fault@ == FaultView::NotFound,
        },
{
    match store.get(id) {
        Ok(session) => Ok(
            CredentialRequest {
                session_id: String::from_str(id),
                consent,
                min_age: session.min_age,
                issuer: String::from_str("https://pylonid.eu/pid-issuer"),
            },
        ),
        Err(_) => Err(Fault::NotFound),
    }
}

/// Second half of a resolution: settles the session with the verdict of the
/// credential check and says what to do next.
///
/// A pending session becomes `Completed` on an answer and `Failed` on a
/// breakdown. Only an answer yields a delivery, and then exactly one. An
/// unknown or already settled session is refused and the store stays as it
/// was.
pub fn complete_resolve(store: &mut SessionStore, id: &str, verdict: Result<bool, String>) -> (reply:
    Result<WebhookDelivery, Fault>)
    requires
        old(store).wf(),
    ensures
        final(store).wf(),
        final(store)@ == after_settling(old(store)@, id@, outcome_of(verdict)),
        match reply {
            Ok(delivery) => reply_to(old(store)@, id@, verdict) == Ok::<DeliveryView, FaultView>(
                delivery@,
            ),
            Err(fault) => reply_to(old(store)@, id@, verdict) == Err::<DeliveryView, FaultView>(
                fault@,
            ),
        },
{
    proof {
        store.lemma_entries();
    }
    match verdict {
        Ok(answer) => {
            match store.mark_resolved(id, Outcome::Decided(answer)) {
                Ok(session) => Ok(
                    build_delivery(session.callback_url.as_str(), id, session.min_age, answer),
                ),
                Err(fault) => Err(fault),
            }
        },
        Err(reason) => {
            match store.mark_resolved(id, Outcome::Errored) {
                Ok(_) => Err(Fault::CollaboratorFailure(reason)),
                Err(fault) => Err(fault),
            }
        },
    }
}

/// The HTTP status that reports a fault.
pub fn fault_status(fault: &Fault) -> (code: u16)
    ensures
        code == status_of_fault(fault@),
{
    match fault {
        Fault::NotFound => 404,
        Fault::AlreadyResolved => 409,
        Fault::CollaboratorFailure(_) => 500,
    }
}

/// The sentence that reports a fault to the caller.
pub fn fault_message(fault: &Fault) -> (message: String)
    ensures
        message@ == message_of(fault@),
{
    match fault {
        Fault::NotFound => String::from_str("Verification not found"),
        Fault::AlreadyResolved => String::from_str("Verification already resolved"),
        Fault::CollaboratorFailure(reason) => reason.clone(),
    }
}

/// The HTTP status that answers a resolution: 200 where the session was
/// settled with an answer, else the status of the fault.
pub fn reply_status(reply: &Result<WebhookDelivery, Fault>) -> (code: u16)
    ensures
        code == match reply {
            Ok(_) => 200u16,
            Err(fault) => status_of_fault(fault@),
        },
{
    match reply {
        Ok(_) => 200,
        Err(fault) => fault_status(fault),
    }
}

/// A session just created is found under its identifier, pending, with the
/// threshold and the callback address it was created with, and every other
/// session is as it was. So an identifier once handed out stays taken, and
/// no later creation returns it again.
pub proof fn law_created_session_is_pending(
    before: Map<Seq<char>, SessionView>,
    id: Seq<char>,
    min_age: u32,
    callback_url: Seq<char>,
)
    requires
        !before.dom().contains(id),
    ensures
        ({
            let after = before.insert(id, pending_session(id, min_age, callback_url));
            &&& after.dom().contains(id)
            &&& after[id].id == id
            &&& after[id].status == Status::Pending
            &&& after[id].min_age == min_age
            &&& after[id].callback_url == callback_url
            &&& forall|other: Seq<char>| #[trigger]
                before.dom().contains(other) ==> after.dom().contains(other) && after[other]
                    == before[other]
        }),
{
}

/// Resolving an unknown identifier is answered with `NotFound`, whatever the
/// verdict, and leaves the store as it was.
pub proof fn law_unknown_id_changes_nothing(
    m: Map<Seq<char>, SessionView>,
    id: Seq<char>,
    verdict: Result<bool, String>,
)
    requires
        !m.dom().contains(id),
    ensures
        reply_to(m, id, verdict) == Err::<DeliveryView, FaultView>(FaultView::NotFound),
        after_settling(m, id, outcome_of(verdict)) == m,
{
}

/// An answer for a pending session completes it and yields one delivery, to
/// the session's callback address, that reports the answer in its result
/// word: `verified` for yes, `not_verified` for no.
pub proof fn law_answer_completes(m: Map<Seq<char>, SessionView>, id: Seq<char>, answer: bool)
    requires
        can_settle(m, id),
    ensures
        ({
            let verdict = Ok::<bool, String>(answer);
            let after = after_settling(m, id, outcome_of(verdict));
            &&& after[id].status == Status::Completed
            &&& after[id].verified == Some(answer)
            &&& reply_to(m, id, verdict) == Ok::<DeliveryView, FaultView>(
                delivery_for(m[id], answer),
            )
            &&& delivery_for(m[id], answer).callback_url == m[id].callback_url
            &&& delivery_for(m[id], answer).payload.result == result_word(answer)
            &&& delivery_for(m[id], answer).payload.attribute_value == answer
        }),
        result_word(true) == "verified"@,
        result_word(false) == "not_verified"@,
        result_word(true) != result_word(false),
{
    lemma_result_words_differ();
}

/// A breakdown of the credential check fails a pending session and yields no
/// delivery: the caller gets the failure with its reason. The session's
/// state then differs from the one an answer of "no" leads to.
pub proof fn law_breakdown_fails(m: Map<Seq<char>, SessionView>, id: Seq<char>, reason: String)
    requires
        can_settle(m, id),
    ensures
        ({
            let verdict = Err::<bool, String>(reason);
            let after = after_settling(m, id, outcome_of(verdict));
            let declined = after_settling(m, id, outcome_of(Ok::<bool, String>(false)));
            &&& after[id].status == Status::Failed
            &&& after[id].verified.is_none()
            &&& reply_to(m, id, verdict) == Err::<DeliveryView, FaultView>(
                FaultView::CollaboratorFailure(reason@),
            )
            &&& declined[id].status == Status::Completed
            &&& after[id] != declined[id]
        }),
{
}

/// Once an identifier has been resolved, with whatever verdict, resolving it
/// again is answered with `AlreadyResolved`, yields no delivery and leaves
/// the store as it was.
pub proof fn law_second_resolution_is_refused(
    m: Map<Seq<char>, SessionView>,
    id: Seq<char>,
    first: Result<bool, String>,
    second: Result<bool, String>,
)
    requires
        m.dom().contains(id),
    ensures
        ({
            let once = after_settling(m, id, outcome_of(first));
            &&& reply_to(once, id, second) == Err::<DeliveryView, FaultView>(
                FaultView::AlreadyResolved,
            )
            &&& after_settling(once, id, outcome_of(second)) == once
        }),
{
}

/// Settling never adds or removes a session, never changes an identifier,
/// a threshold or a callback address, and never touches a session that is
/// not pending. The one session it may change is the one named, and that
/// one only from `Pending` to a terminal state.
pub proof fn law_settling_keeps_sessions(
    m: Map<Seq<char>, SessionView>,
    id: Seq<char>,
    outcome: Outcome,
    other: Seq<char>,
)
    requires
        m.dom().contains(other),
    ensures
        ({
            let after = after_settling(m, id, outcome);
            &&& after.dom() == m.dom()
            &&& after[other].id == m[other].id
            &&& after[other].min_age == m[other].min_age
            &&& after[other].callback_url == m[other].callback_url
            &&& m[other].status != Status::Pending ==> after[other] == m[other]
            &&& other != id ==> after[other] == m[other]
            &&& after[other] != m[other] ==> m[other].status == Status::Pending
                && after[other].status != Status::Pending
        }),
{
    let after = after_settling(m, id, outcome);
    assert(after.dom() =~= m.dom());
}

/// One resolution as it reaches the store: the identifier and the verdict.
pub struct Resolution {
    pub id: Seq<char>,
    pub verdict: Result<bool, String>,
}

/// The store after the resolutions `calls`, made one after the other.
pub open spec fn store_after(m: Map<Seq<char>, SessionView>, calls: Seq<Resolution>) -> Map<
    Seq<char>,
    SessionView,
>
    decreases calls.len(),
{
    if calls.len() == 0 {
        m
    } else {
        store_after(
            after_settling(m, calls[0].id, outcome_of(calls[0].verdict)),
            calls.drop_first(),
        )
    }
}

/// How many of the resolutions `calls`, made one after the other on the
/// store `m`, yield a delivery for the session `id`.
pub open spec fn deliveries_to(
    m: Map<Seq<char>, SessionView>,
    calls: Seq<Resolution>,
    id: Seq<char>,
) -> nat
    decreases calls.len(),
{
    if calls.len() == 0 {
        0
    } else {
        let here: nat = if calls[0].id == id && reply_to(m, id, calls[0].verdict).is_ok() {
            1
        } else {
            0
        };
        here + deliveries_to(
            after_settling(m, calls[0].id, outcome_of(calls[0].verdict)),
            calls.drop_first(),
            id,
        )
    }
}

/// A session that cannot be settled, because it is unknown or has been
/// settled before, gets no delivery from any run of resolutions.
pub proof fn law_settled_session_gets_no_delivery(
    m: Map<Seq<char>, SessionView>,
    calls: Seq<Resolution>,
    id: Seq<char>,
)
    requires
        !can_settle(m, id),
    ensures
        deliveries_to(m, calls, id) == 0,
    decreases calls.len(),
{
    if calls.len() > 0 {
        let next = after_settling(m, calls[0].id, outcome_of(calls[0].verdict));
        assert(next.dom() =~= m.dom());
        law_settled_session_gets_no_delivery(next, calls.drop_first(), id);
    }
}

/// However many resolutions are made, in whatever order and with whatever
/// verdicts, a session gets at most one delivery.
pub proof fn law_at_most_one_delivery(
    m: Map<Seq<char>, SessionView>,
    calls: Seq<Resolution>,
    id: Seq<char>,
)
    ensures
        deliveries_to(m, calls, id) <= 1,
    decreases calls.len(),
{
    if calls.len() > 0 {
        let next = after_settling(m, calls[0].id, outcome_of(calls[0].verdict));
        if calls[0].id == id || !can_settle(m, id) {
            assert(next.dom() =~= m.dom());
            law_settled_session_gets_no_delivery(next, calls.drop_first(), id);
        } else {
            law_at_most_one_delivery(next, calls.drop_first(), id);
        }
    }
}

/// No run of resolutions adds or removes a session, changes an identifier,
/// a threshold or a callback address, or moves a session out of a terminal
/// state.
pub proof fn law_resolutions_keep_sessions(
    m: Map<Seq<char>, SessionView>,
    calls: Seq<Resolution>,
    id: Seq<char>,
)
    requires
        m.dom().contains(id),
    ensures
        store_after(m, calls).dom() == m.dom(),
        store_after(m, calls)[id].id == m[id].id,
        store_after(m, calls)[id].min_age == m[id].min_age,
        store_after(m, calls)[id].callback_url == m[id].callback_url,
        m[id].status != Status::Pending ==> store_after(m, calls)[id] == m[id],
    decreases calls.len(),
{
    if calls.len() > 0 {
        let next = after_settling(m, calls[0].id, outcome_of(calls[0].verdict));
        law_settling_keeps_sessions(m, calls[0].id, outcome_of(calls[0].verdict), id);
        law_resolutions_keep_sessions(next, calls.drop_first(), id);
    }
}

} // verus!
