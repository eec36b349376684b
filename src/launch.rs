//! The outcome of handing a URL to the operating system's default handler.

use vstd::prelude::*;
use vstd::string::StringExecFns;

verus! {

/// Said of a URL when the operating system gave no description of its failure.
pub const NO_DESCRIPTION_PREFIX: &'static str = "could not open ";

/// The operating system could not open a URL; the message says why.
pub struct ExternalLaunchError {
    message: String,
}

impl View for ExternalLaunchError {
    type V = Seq<char>;

    closed spec fn view(&self) -> Seq<char> {
        self.message@
    }
}

/// The message of a failed launch of `url`: the operating system's own
/// description, or a sentence naming the URL where that description is empty.
pub open spec fn launch_message(url: Seq<char>, description: Seq<char>) -> Seq<char> {
    if description.len() > 0 {
        description
    } else {
        NO_DESCRIPTION_PREFIX@ + url
    }
}

impl ExternalLaunchError {
    #[verifier::type_invariant]
    spec fn message_not_empty(&self) -> bool {
        self.message@.len() > 0
    }

    /// The error for a failed launch of `url` that the operating system
    /// described as `description`.
    pub fn new(url: &str, description: &str) -> (r: ExternalLaunchError)
        ensures
            r@ == launch_message(url@, description@),
    {
        if description.unicode_len() > 0 {
            ExternalLaunchError { message: String::from_str(description) }
        } else {
            proof {
                reveal_strlit("could not open ");
            }
            ExternalLaunchError { message: String::from_str(NO_DESCRIPTION_PREFIX).concat(url) }
        }
    }

    /// The human-readable description, never empty.
    pub fn message(&self) -> (r: String)
        ensures
            r@ == self@,
            r@.len() > 0,
    {
        proof {
            use_type_invariant(self);
        }
        self.message.clone()
    }
}

/// Every launch message is non-empty, whatever the operating system said.
pub proof fn lemma_launch_message_not_empty(url: Seq<char>, description: Seq<char>)
    ensures
        launch_message(url, description).len() > 0,
{
    reveal_strlit("could not open ");
}

/// Turns what the operating system's launch call reported for `url` into
/// the operation's result. Succeeds exactly when the launch did; a failure
/// always carries a non-empty message.
pub fn launch_outcome(url: &str, launched: Result<(), String>) -> (r: Result<(), ExternalLaunchError>)
    ensures
        r is Ok <==> launched is Ok,
        launched is Err ==> r is Err && r->Err_0@ == launch_message(url@, launched->Err_0@),
        r is Err ==> r->Err_0@.len() > 0,
{
    match launched {
        Ok(()) => Ok(()),
        Err(description) => {
            let e = ExternalLaunchError::new(url, description.as_str());
            proof {
                lemma_launch_message_not_empty(url@, description@);
            }
            Err(e)
        },
    }
}

/// Repeated opens of the same URL with the same report from the operating
/// system agree: both succeed, or both fail with the same message.
pub proof fn lemma_launch_outcome_repeatable(
    url: Seq<char>,
    launched: Result<(), Seq<char>>,
    first: Result<(), ExternalLaunchError>,
    second: Result<(), ExternalLaunchError>,
)
    requires
        first is Ok <==> launched is Ok,
        second is Ok <==> launched is Ok,
        launched is Err ==> first is Err && first->Err_0@ == launch_message(url, launched->Err_0),
        launched is Err ==> second is Err && second->Err_0@ == launch_message(url, launched->Err_0),
    ensures
        first is Ok <==> second is Ok,
        first is Err ==> first->Err_0@ == second->Err_0@,
{
}

} // verus!
