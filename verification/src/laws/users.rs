//! Authentication, and the `init` command.

use vstd::prelude::*;

use crate::auth::{auth_result, auth_step, AuthActionView, AuthEventView, AuthState, ClaimLookupView};
use crate::init::{
    init_actions, init_command, init_run, ArgSpecView, InitActionView, InitArgsView, InitWorld,
    RemoteHostView, INIT,
};
use crate::model::UserView;
use crate::text::header_text;

verus! {

/// The bearer token is what stands behind `Bearer ` in the header, it is looked up as it is,
/// and the user is the one that it is claimed by; a token that is not claimed is no error.
pub proof fn law_bearer_token_is_looked_up<E>(
    claims: spec_fn(Seq<char>) -> Result<ClaimLookupView, E>,
    value: Seq<u8>,
    token: Seq<char>,
)
    requires
        header_text(value) == Some("Bearer "@ + token),
    ensures
        auth_step::<E>(AuthState::Start, AuthEventView::Received(Some(value))) == (
            AuthState::AwaitClaim,
            AuthActionView::<E>::LookUpClaim { token },
        ),
        claims(token) matches Err(error) ==> auth_result(claims, Some(value))
            == AuthActionView::<E>::Finish(Err(error)),
        claims(token) matches Ok(ClaimLookupView::Claimed { name, email }) ==> auth_result(
            claims,
            Some(value),
        ) == AuthActionView::<E>::Finish(Ok(Some(UserView { name, email }))),
        claims(token) is Ok && !(claims(token)->Ok_0 is Claimed) ==> auth_result(
            claims,
            Some(value),
        ) == AuthActionView::<E>::Finish(Ok(None)),
{
    let text = "Bearer "@ + token;
    assert(text.subrange(0, "Bearer "@.len() as int) == "Bearer "@);
    assert(text.skip("Bearer "@.len() as int) == token);
}

/// Without a header that can be read and begins with `Bearer ` nothing is looked up, and there
/// is no user.
pub proof fn law_no_bearer_token_is_no_user<E>(
    claims: spec_fn(Seq<char>) -> Result<ClaimLookupView, E>,
    header: Option<Seq<u8>>,
)
    requires
        header matches Some(value) ==> (header_text(value) matches Some(text)
            ==> !"Bearer "@.is_prefix_of(text)),
    ensures
        auth_step::<E>(AuthState::Start, AuthEventView::Received(header)) == (
            AuthState::Done,
            AuthActionView::<E>::Finish(Ok(None)),
        ),
        auth_result(claims, header) == AuthActionView::<E>::Finish(Ok(None)),
{
}

/// The command is called `init` and takes a directory by its place and a version by its flag.
pub proof fn law_init_is_called_with_path_and_version()
    ensures
        ({
            let command = init_command();
            &&& INIT@ == "init"@
            &&& command.name == "init"@
            &&& command.about == "Initializes a local repository"@
            &&& command.args == seq![
                ArgSpecView {
                    id: "PATH"@,
                    short: None,
                    long: None,
                    help:
                        "The directory to establish the repo in. Defaults to the current directory."@,
                },
                ArgSpecView {
                    id: "oxen-version"@,
                    short: Some('v'),
                    long: Some("oxen-version"@),
                    help:
                        "The oxen version to use, if you want to test older CLI versions (default: latest)"@,
                },
            ]
        }),
{
}

/// A call of the command that nothing stands against: the version that was asked for is
/// resolved, the configured remote is checked, and a repository of that version is made in the
/// given directory, the current one where none is given, and announced.
pub proof fn law_init_in_full<E>(
    world: InitWorld<E>,
    args: InitArgsView,
    version: Seq<char>,
    remote: RemoteHostView,
    path: Seq<char>,
    directory: Seq<char>,
)
    requires
        (world.version)(args.version) == Ok::<Seq<char>, E>(version),
        world.host == Ok::<RemoteHostView, E>(remote),
        (world.remote)(remote.scheme, remote.host) is Ok,
        args.path == Some(path) || (args.path is None && path == "."@),
        (world.directory)(path) == Ok::<Seq<char>, E>(directory),
        (world.initialized)(directory, version) is Ok,
    ensures
        ({
            let run = init_run(world, args);
            &&& run.len() == 7
            &&& run[0] == (InitActionView::<E>::ResolveVersion { requested: args.version })
            &&& run[1] == InitActionView::<E>::ResolveHost
            &&& run[2] == (InitActionView::<E>::CheckRemote {
                scheme: remote.scheme,
                host: remote.host,
            })
            &&& run[3] == (InitActionView::<E>::Canonicalize { path })
            &&& run[4] == (InitActionView::<E>::InitRepository { directory, version })
            &&& run[5] matches InitActionView::Announce { opening, directory: shown, closing } && {
                &&& opening == "🐂 repository initialized at: "@
                &&& shown == directory
                &&& closing
                    == "
    📖 If this is your first time using Oxen, check out the CLI docs at:
            https://docs.oxen.ai/getting-started/cli

    💬 For more support, or to chat with the Oxen team, join our Discord:
            https://discord.gg/s3tBEn7Ptg
"@
            }
            &&& run[6] == InitActionView::<E>::Finish(Ok(()))
        }),
{
    reveal_with_fuel(init_actions, 7);
}

/// Whatever fails first ends the command with that error, and nothing is asked for after it.
pub proof fn law_init_ends_with_the_first_error<E>(world: InitWorld<E>, args: InitArgsView, i: int)
    requires
        0 <= i < init_run(world, args).len(),
    ensures
        ({
            let run = init_run(world, args);
            let failed = |error: E|
                run.len() == i + 2 && run[i + 1] == InitActionView::<E>::Finish(Err(error));
            &&& run[i] matches InitActionView::ResolveVersion { requested } ==> ((world.version)(
                requested,
            ) matches Err(error) ==> failed(error))
            &&& run[i] is ResolveHost ==> (world.host matches Err(error) ==> failed(error))
            &&& run[i] matches InitActionView::CheckRemote { scheme, host } ==> ((world.remote)(
                scheme,
                host,
            ) matches Err(error) ==> failed(error))
            &&& run[i] matches InitActionView::Canonicalize { path } ==> ((world.directory)(
                path,
            ) matches Err(error) ==> failed(error))
            &&& run[i] matches InitActionView::InitRepository { directory, version } ==> ((
            world.initialized)(directory, version) matches Err(error) ==> failed(error))
            &&& run[i] is Finish ==> i == run.len() - 1
            &&& run.last() is Finish
        }),
{
    reveal_with_fuel(init_actions, 7);
}

} // verus!
