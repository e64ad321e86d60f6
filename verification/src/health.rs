//! The liveness report of the service.

use vstd::prelude::*;
use vstd::string::*;

verus! {

/// What the service says of itself when asked whether it is up.
#[derive(Debug)]
pub struct HealthStatus {
    pub status: String,
    pub service: String,
    pub version: String,
}

/// Mathematical value of a liveness report.
pub struct HealthView {
    pub status: Seq<char>,
    pub service: Seq<char>,
    pub version: Seq<char>,
}

impl View for HealthStatus {
    type V = HealthView;

    open spec fn view(&self) -> HealthView {
        HealthView { status: self.status@, service: self.service@, version: self.version@ }
    }
}

/// The one report there is.
pub open spec fn fixed_health() -> HealthView {
    HealthView { status: "ok"@, service: "pylon-emulator"@, version: "0.1.0"@ }
}

/// The liveness report. It takes no store and no request, so it is the same
/// whatever sessions exist.
pub fn health() -> (report: HealthStatus)
    ensures
        report@ == fixed_health(),
{
    HealthStatus {
        status: String::from_str("ok"),
        service: String::from_str("pylon-emulator"),
        version: String::from_str("0.1.0"),
    }
}

} // verus!
