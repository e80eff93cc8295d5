use vstd::prelude::*;

use crate::messages::back_up_message;
use crate::messages::back_up_message_of;
use crate::messages::status_key;
use crate::messages::status_key_of;
use crate::messages::status_message;
use crate::messages::status_message_of;
use crate::messages::transport_error_message;
use crate::messages::transport_error_message_of;
use crate::store::DIM;

verus! {

/// A named HTTP endpoint to be periodically probed. `name` doubles as
/// the display name and as the source of the status-store key.
#[derive(Debug)]
pub struct Target {
    pub url: String,
    pub name: String,
}

/// What one probe of a target yielded, as plain values: either the
/// status code of an HTTP response, or the error text of a transport
/// failure (connection refused, DNS failure, ...) that produced no
/// response at all.
#[derive(Debug)]
pub enum ProbeOutcome {
    Response { status: u16 },
    TransportError { error: String },
}

/// Whether an HTTP status code counts as success (2xx).
pub open spec fn is_success(status: u16) -> bool {
    200 <= status < 300
}

/// The health state assumed for a target before its probe is handled:
/// the stored value, or `true` (healthy) where nothing was ever stored.
pub open spec fn prior_of(m: Map<Seq<char>, bool>, key: Seq<char>) -> bool {
    if m.contains_key(key) {
        m[key]
    } else {
        true
    }
}

/// A target that was never checked has no stored entry, and its assumed
/// prior state is healthy: unknown targets count as up until a probe
/// proves otherwise.
pub proof fn lemma_unchecked_target_assumed_up(m: Map<Seq<char>, bool>, key: Seq<char>)
    requires
        !m.contains_key(key),
    ensures
        prior_of(m, key),
{
}

/// Reads the health state currently assumed for the target called
/// `name`, applying the default for targets never checked before.
pub fn prior_status(db: &DIM<bool>, name: &str) -> (status: bool)
    ensures
        status == prior_of(db@, status_key_of(name@)),
{
    let key = status_key(name);
    match db.get(key.as_str()) {
        Some(v) => *v,
        None => true,
    }
}

/// Handles the outcome of one probe of `target`: updates the stored
/// health state and returns the notification message this outcome calls
/// for, if any.
///
/// - A success (2xx) response records `true`; a "back up" message is
///   returned exactly when the prior state was recorded as unhealthy.
/// - A non-success response records `false` and always returns the
///   status message, transition or not.
/// - A transport failure leaves the store untouched ("can't tell" is
///   not "confirmed down") and returns the failure message.
pub fn check_target(db: &mut DIM<bool>, target: &Target, outcome: &ProbeOutcome) -> (msg: Option<
    String,
>)
    ensures
        match *outcome {
            ProbeOutcome::Response { status } => {
                if is_success(status) {
                    &&& final(db)@ == old(db)@.insert(status_key_of(target.name@), true)
                    &&& (msg is Some <==> !prior_of(old(db)@, status_key_of(target.name@)))
                    &&& (msg matches Some(m) ==> m@ == back_up_message_of(target.name@))
                } else {
                    &&& final(db)@ == old(db)@.insert(status_key_of(target.name@), false)
                    &&& msg is Some
                    &&& (msg matches Some(m) ==> m@ == status_message_of(target.name@, status))
                }
            },
            ProbeOutcome::TransportError { error } => {
                &&& final(db)@ == old(db)@
                &&& msg is Some
                &&& (msg matches Some(m) ==> m@ == transport_error_message_of(
                    target.name@,
                    error@,
                ))
            },
        },
{
    let key = status_key(target.name.as_str());
    let current_status = match db.get(key.as_str()) {
        Some(v) => *v,
        None => true,
    };
    match outcome {
        ProbeOutcome::Response { status } => {
            if 200 <= *status && *status < 300 {
                let msg = if !current_status {
                    Some(back_up_message(target.name.as_str()))
                } else {
                    None
                };
                db.set(key, true);
                msg
            } else {
                let msg = status_message(target.name.as_str(), *status);
                db.set(key, false);
                Some(msg)
            }
        },
        ProbeOutcome::TransportError { error } => {
            Some(transport_error_message(target.name.as_str(), error.as_str()))
        },
    }
}

} // verus!
