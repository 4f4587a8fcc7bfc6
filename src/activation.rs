use vstd::prelude::*;

use crate::error::{Failure, ShotError};

verus! {

/// How binding the rendezvous address went.
pub enum BindOutcome {
    /// The address is ours: this process is the primary instance.
    Bound,
    /// Another process holds the address.
    AddrInUse,
    /// Binding failed for another reason.
    Failed { cause: String },
}

/// What a starting process does after trying to bind.
pub enum Arbitration {
    /// Serve the rendezvous address and open the window.
    Serve,
    /// Connect to the primary instance once, close the connection and exit
    /// successfully, opening no window.
    NotifyAndExit,
    /// Stop with this startup error.
    Abort(ShotError),
}

pub open spec fn bind_failure(cause: Seq<char>) -> Failure {
    Failure::Acquisition { context: "creating activation socket"@, cause }
}

/// Decides from the bind outcome whether this process serves, hands over to
/// the running instance, or fails to start.
pub fn arbitrate(bind: BindOutcome) -> (r: Arbitration)
    ensures
        match bind {
            BindOutcome::Bound => r is Serve,
            BindOutcome::AddrInUse => r is NotifyAndExit,
            BindOutcome::Failed { cause } => r matches Arbitration::Abort(e) && e@ == bind_failure(
                cause@,
            ),
        },
{
    match bind {
        BindOutcome::Bound => Arbitration::Serve,
        BindOutcome::AddrInUse => Arbitration::NotifyAndExit,
        BindOutcome::Failed { cause } => Arbitration::Abort(
            ShotError::Acquisition { context: String::from_str("creating activation socket"), cause },
        ),
    }
}

/// The failure of a secondary instance that could not reach the primary one.
pub fn notify_failure(cause: String) -> (e: ShotError)
    ensures
        e@ == (Failure::Acquisition { context: "opening activation socket"@, cause: cause@ }),
{
    ShotError::Acquisition { context: String::from_str("opening activation socket"), cause }
}

/// The abstract socket name shared by the instances of one login session.
pub fn rendezvous_name(session_id: &str) -> (r: String)
    ensures
        r@ == "shots-"@ + session_id@,
{
    let mut r = String::from_str("shots-");
    r.append(session_id);
    r
}

} // verus!
