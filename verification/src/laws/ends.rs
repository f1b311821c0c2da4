//! Where each conversation ends.

use vstd::prelude::*;

use crate::auth::{auth_expects, auth_step, AuthEventView, AuthState};
use crate::delete::{delete_expects, delete_step, DeleteEventView, DeleteStateView};
use crate::get::{get_expects, get_step, GetEventView, GetStateView};
use crate::import::{import_expects, import_step, ImportEventView, ImportStateView};
use crate::init::{init_expects, init_step, InitEventView, InitStateView};
use crate::initial_put::{
    initial_put_expects, initial_put_step, InitialPutEventView, InitialPutStateView,
};
use crate::multipart::{
    multipart_expects, multipart_step, MultipartEventView, MultipartStateView,
};
use crate::mv::{mv_expects, mv_step, MoveEventView, MoveStateView};
use crate::put::{put_expects, put_step, PutEventView, PutStateView};
use crate::raw_payload::{raw_expects, raw_step, RawEventView, RawStateView};
use crate::staging::{
    staging_expects, staging_step, StagingEvent, StagingPhase, StagingStateView,
};

verus! {

/// An upload is over exactly when it was answered or handed over to the first upload.
pub proof fn law_put_is_over_when_answered<E>(state: PutStateView, event: PutEventView<E>)
    requires
        put_expects(state, event),
    ensures
        ({
            let step = put_step(state, event);
            step.0 == PutStateView::Done <==> step.1 is Answer || step.1 is HandleInitialPut
        }),
{
}

/// A removal is over exactly when it was answered.
pub proof fn law_delete_is_over_when_answered<E>(state: DeleteStateView, event: DeleteEventView<E>)
    requires
        delete_expects(state, event),
    ensures
        ({
            let step = delete_step(state, event);
            step.0 == DeleteStateView::Done <==> step.1 is Answer
        }),
{
}

/// A move is over exactly when it was answered.
pub proof fn law_mv_is_over_when_answered<E>(state: MoveStateView, event: MoveEventView<E>)
    requires
        mv_expects(state, event),
    ensures
        ({
            let step = mv_step(state, event);
            step.0 == MoveStateView::Done <==> step.1 is Answer
        }),
{
}

/// A download is over exactly when it was answered.
pub proof fn law_get_is_over_when_answered<E>(state: GetStateView, event: GetEventView<E>)
    requires
        get_expects(state, event),
    ensures
        ({
            let step = get_step(state, event);
            step.0 == GetStateView::Done <==> step.1 is Answer
        }),
{
}

/// An import is over exactly when it was answered.
pub proof fn law_import_is_over_when_answered<E>(state: ImportStateView, event: ImportEventView<E>)
    requires
        import_expects(state, event),
    ensures
        ({
            let step = import_step(state, event);
            step.0 == ImportStateView::Done <==> step.1 is Answer
        }),
{
}

/// The first upload is over exactly when it was answered.
pub proof fn law_initial_put_is_over_when_answered<E>(
    state: InitialPutStateView,
    event: InitialPutEventView<E>,
)
    requires
        initial_put_expects(state, event),
    ensures
        ({
            let step = initial_put_step(state, event);
            step.0 == InitialPutStateView::Done <==> step.1 is Answer
        }),
{
}

/// The making of a repository is over exactly when it finished.
pub proof fn law_init_is_over_when_finished<E>(state: InitStateView, event: InitEventView<E>)
    requires
        init_expects(state, event),
    ensures
        ({
            let step = init_step(state, event);
            step.0 == InitStateView::Done <==> step.1 is Finish
        }),
{
}

/// The search for the user is over exactly when it finished.
pub proof fn law_auth_is_over_when_finished<E>(state: AuthState, event: AuthEventView<E>)
    requires
        auth_expects(state, event),
    ensures
        ({
            let step = auth_step(state, event);
            step.0 == AuthState::Done <==> step.1 is Finish
        }),
{
}

/// The reading of a form is over exactly when it finished.
pub proof fn law_form_is_over_when_finished<E>(
    state: MultipartStateView,
    event: MultipartEventView<E>,
    filename: Seq<char>,
)
    requires
        multipart_expects(state, event),
    ensures
        ({
            let step = multipart_step(state, event, filename);
            step.0 == MultipartStateView::Done <==> step.1 is Finish
        }),
{
}

/// The reading of a raw payload is over exactly when it finished.
pub proof fn law_raw_payload_is_over_when_finished<E>(
    state: RawStateView,
    event: RawEventView,
    text: Seq<char>,
)
    requires
        raw_expects(state, event),
    ensures
        ({
            let step = raw_step::<E>(state, event, text);
            step.0 == RawStateView::Done <==> step.1 is Finish
        }),
{
}

/// The staging of files is over exactly when it finished.
pub proof fn law_staging_is_over_when_finished<E>(state: StagingStateView, event: StagingEvent<E>)
    requires
        staging_expects(state, event),
    ensures
        ({
            let step = staging_step(state, event);
            step.0.phase == StagingPhase::Done <==> step.1 is Finish
        }),
{
}

} // verus!
