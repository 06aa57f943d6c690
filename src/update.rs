use vstd::prelude::*;

verus! {

/// What the external update capability reported for one check.
#[derive(Clone, Debug)]
pub enum UpdateOutcome {
    /// A release is offered; its version string.
    Available(String),
    UpToDate,
    /// The check itself failed; the transport's reason.
    Failed(String),
}

/// The version to announce to the user, if any: an offered release whose
/// version differs from the running build's.
pub open spec fn notice_of(current: Seq<char>, o: UpdateOutcome) -> Option<String> {
    match o {
        UpdateOutcome::Available(v) => if v@ != current {
            Some(v)
        } else {
            None
        },
        _ => None,
    }
}

pub open spec fn failure_message(reason: Seq<char>) -> Seq<char> {
    "Update check failed: "@ + reason
}

/// Relies on std's `format!` with two `{}` placeholders and two `&str`
/// arguments: the result is the first string followed by the second.
#[verifier::external_body]
fn join(a: &str, b: &str) -> (r: String)
    ensures
        r@ == a@ + b@,
{
    format!("{}{}", a, b)
}

/// Decides whether a finished update check surfaces a notification.
pub fn update_notice(current: &String, outcome: UpdateOutcome) -> (r: Option<String>)
    ensures
        r == notice_of(current@, outcome),
{
    match outcome {
        UpdateOutcome::Available(v) => {
            if v == *current {
                None
            } else {
                Some(v)
            }
        },
        _ => None,
    }
}

/// The answer given to the UI layer for a finished update check: success
/// whether or not a release is offered, and the failure reason otherwise.
pub fn update_check_result(outcome: &UpdateOutcome) -> (r: Result<(), String>)
    ensures
        match *outcome {
            UpdateOutcome::Failed(reason) => r is Err && r->Err_0@ == failure_message(reason@),
            _ => r == Ok::<(), String>(()),
        },
{
    match outcome {
        UpdateOutcome::Failed(reason) => Err(join("Update check failed: ", reason.as_str())),
        _ => Ok(()),
    }
}

} // verus!
