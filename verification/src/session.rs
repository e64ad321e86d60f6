//! A verification session and the outcomes that settle it.

use vstd::prelude::*;

verus! {

/// Where a session stands. `Pending` is the only state that can be left.
#[derive(Clone, Copy, Debug, PartialEq, Eq, Structural)]
pub enum Status {
    Pending,
    Completed,
    Failed,
}

/// What settles a session: the credential check gave an answer, or it broke
/// down.
#[derive(Clone, Copy, Debug, PartialEq, Eq, Structural)]
pub enum Outcome {
    /// The check ran; the flag says whether the subject meets the threshold.
    Decided(bool),
    /// The check could not be carried out.
    Errored,
}

/// One request of a relying party to verify a subject's age.
#[derive(Debug)]
pub struct VerificationSession {
    pub id: String,
    pub min_age: u32,
    pub callback_url: String,
    pub status: Status,
    /// The answer of the credential check, once the session is completed.
    pub verified: Option<bool>,
}

/// Mathematical value of a session.
pub struct SessionView {
    pub id: Seq<char>,
    pub min_age: u32,
    pub callback_url: Seq<char>,
    pub status: Status,
    pub verified: Option<bool>,
}

impl View for VerificationSession {
    type V = SessionView;

    open spec fn view(&self) -> SessionView {
        SessionView {
            id: self.id@,
            min_age: self.min_age,
            callback_url: self.callback_url@,
            status: self.status,
            verified: self.verified,
        }
    }
}

/// Why an operation on a session was refused.
#[derive(Debug)]
pub enum Fault {
    /// No session has the given identifier.
    NotFound,
    /// The session has left `Pending` before.
    AlreadyResolved,
    /// The credential check broke down, for the reason given.
    CollaboratorFailure(String),
}

/// Mathematical value of a fault.
pub enum FaultView {
    NotFound,
    AlreadyResolved,
    CollaboratorFailure(Seq<char>),
}

impl View for Fault {
    type V = FaultView;

    open spec fn view(&self) -> FaultView {
        match self {
            Fault::NotFound => FaultView::NotFound,
            Fault::AlreadyResolved => FaultView::AlreadyResolved,
            Fault::CollaboratorFailure(reason) => FaultView::CollaboratorFailure(reason@),
        }
    }
}

/// A session as it is when created.
pub open spec fn pending_session(id: Seq<char>, min_age: u32, callback_url: Seq<char>) -> SessionView {
    SessionView { id, min_age, callback_url, status: Status::Pending, verified: None }
}

/// The session `s` after `outcome` has settled it: identifier, threshold and
/// callback stay, the status becomes terminal.
pub open spec fn settled(s: SessionView, outcome: Outcome) -> SessionView {
    match outcome {
        Outcome::Decided(answer) => SessionView {
            status: Status::Completed,
            verified: Some(answer),
            ..s
        },
        Outcome::Errored => SessionView { status: Status::Failed, verified: None, ..s },
    }
}

/// A session carries an answer exactly when it is completed.
pub open spec fn coherent(s: SessionView) -> bool {
    (s.status == Status::Completed) == s.verified.is_some()
}

impl VerificationSession {
    /// A copy of this session.
    pub fn duplicate(&self) -> (copy: VerificationSession)
        ensures
            copy@ == self@,
    {
        VerificationSession {
            id: self.id.clone(),
            min_age: self.min_age,
            callback_url: self.callback_url.clone(),
            status: self.status,
            verified: self.verified,
        }
    }

    /// This session settled by `outcome`.
    pub fn settle(&self, outcome: Outcome) -> (next: VerificationSession)
        ensures
            next@ == settled(self@, outcome),
    {
        match outcome {
            Outcome::Decided(answer) => VerificationSession {
                id: self.id.clone(),
                min_age: self.min_age,
                callback_url: self.callback_url.clone(),
                status: Status::Completed,
                verified: Some(answer),
            },
            Outcome::Errored => VerificationSession {
                id: self.id.clone(),
                min_age: self.min_age,
                callback_url: self.callback_url.clone(),
                status: Status::Failed,
                verified: None,
            },
        }
    }
}

} // verus!
