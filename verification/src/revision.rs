//! The claim that a request makes on the revision it is based on.

use vstd::prelude::*;
use vstd::string::StringExecFns;

use crate::model::{HttpError, HttpErrorView};
use crate::text::same_text;

verus! {

/// What a request is told whose claim on a file's revision is out of date.
pub open spec fn stale_claim_message(current: Seq<char>, claimed: Seq<char>) -> Seq<char> {
    "File has been modified since claimed revision. Current: "@ + current + ", Claimed: "@ + claimed
        + ". Your changes would overwrite another change without that being from a merge"@
}

/// Whether a file whose last change is `current` may be changed by a request that claims
/// `claimed`: a claim must match, but there need not be one.
pub open spec fn claim_holds<E>(current: Seq<char>, claimed: Option<Seq<char>>) -> Result<
    (),
    HttpErrorView<E>,
> {
    match claimed {
        Some(claimed) if claimed != current => Err(
            HttpErrorView::BasicError(stale_claim_message(current, claimed)),
        ),
        _ => Ok(()),
    }
}

/// Holds a request's claim against the last change of the file.
pub fn check_claim<E>(current: &str, claimed: &Option<String>) -> (verdict: Result<
    (),
    HttpError<E>,
>)
    ensures
        verdict is Ok <==> claim_holds::<E>(current@, claimed.deep_view()) is Ok,
        verdict matches Err(error) ==> Err::<(), HttpErrorView<E>>(error.deep_view())
            == claim_holds::<E>(current@, claimed.deep_view()),
{
    match claimed {
        Some(claimed) => {
            if same_text(current, claimed.as_str()) {
                return Ok(());
            }
            let mut message = "File has been modified since claimed revision. Current: ".to_owned();
            message.append(current);
            message.append(", Claimed: ");
            message.append(claimed.as_str());
            message.append(
                ". Your changes would overwrite another change without that being from a merge",
            );
            Err(HttpError::BasicError(message))
        },
        None => Ok(()),
    }
}

} // verus!
