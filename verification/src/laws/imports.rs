//! Imports.

use vstd::prelude::*;

use crate::import::{
    import_actions, import_auth, import_run, import_url, is_allowed_domain, ImportActionView,
    ImportOrderView, ImportRequest, ImportWorld,
};
use crate::json::Json;
use crate::model::{
    CommitResponseView, HttpErrorView, NewCommitBodyView, NodeInfoView, OxenErrorView,
    ParsedResourceView, ResourceStatus,
};
use crate::outside::url_parts;
use crate::text::header_text;

verus! {

/// A domain is allowed where it ends with one of three names, whatever stands in front.
pub proof fn law_allowed_domains_by_their_ends(domain: Seq<char>, front: Seq<char>)
    ensures
        is_allowed_domain(front + "huggingface.co"@),
        is_allowed_domain(front + "kaggle.com"@),
        is_allowed_domain(front + "oxen.ai"@),
        is_allowed_domain(domain) ==> {
            ||| "huggingface.co"@.is_suffix_of(domain)
            ||| "kaggle.com"@.is_suffix_of(domain)
            ||| "oxen.ai"@.is_suffix_of(domain)
        },
{
    let one = front + "huggingface.co"@;
    assert(one.subrange(front.len() as int, one.len() as int) == "huggingface.co"@);
    let two = front + "kaggle.com"@;
    assert(two.subrange(front.len() as int, two.len() as int) == "kaggle.com"@);
    let three = front + "oxen.ai"@;
    assert(three.subrange(front.len() as int, three.len() as int) == "oxen.ai"@);
}

/// The URL of an import is the string under `download_url`, the authorization the string under
/// `Authorization` of what is under `headers`; where there is no such string it is empty.
pub proof fn law_body_of_an_import_is_read_by_its_keys(body: Json)
    ensures
        match body.at("download_url"@) {
            Some(Json::Text(url)) => import_url(body) == url@,
            _ => import_url(body).len() == 0,
        },
        match body.at("headers"@) {
            Some(headers) => match headers.at("Authorization"@) {
                Some(Json::Text(auth)) => import_auth(body) == auth@,
                _ => import_auth(body).len() == 0,
            },
            None => import_auth(body).len() == 0,
        },
{
}

/// The handler sees of a request its headers, byte for byte, and what its body says.
pub proof fn law_import_request_is_seen_as_it_is(request: ImportRequest)
    ensures
        ({
            let order = request.deep_view();
            &&& order.download_url == import_url(request.body)
            &&& order.auth == import_auth(request.body)
            &&& request.author is Some == order.author is Some
            &&& request.author matches Some(value) ==> order.author == Some(value@)
            &&& request.email is Some == order.email is Some
            &&& request.email matches Some(value) ==> order.email == Some(value@)
            &&& request.message is Some == order.message is Some
            &&& request.message matches Some(value) ==> order.message == Some(value@)
        }),
{
}

/// An import fetches the URL that the request names, with the authorization that it names,
/// into the path of its resource, and commits to the branch of its resource. The commit has
/// what the headers say, each for itself.
pub proof fn law_import_stays_on_its_request<E>(
    world: ImportWorld<E>,
    order: ImportOrderView,
    resource: ParsedResourceView,
    i: int,
)
    requires
        world.resource == Ok::<ParsedResourceView, E>(resource),
        0 <= i < import_run(world, order).len(),
    ensures
        import_run(world, order)[i] matches ImportActionView::LookUpNode { commit, path }
            ==> resource.commit == Some(commit) && path == resource.path,
        import_run(world, order)[i] matches ImportActionView::CreateWorkspace { commit }
            ==> resource.commit == Some(commit),
        import_run(world, order)[i] matches ImportActionView::Download { url, auth, directory, .. }
            ==> url == order.download_url && auth == order.auth && directory == resource.path,
        import_run(world, order)[i] matches ImportActionView::Commit { body, branch } ==> {
            &&& resource.branch == Some(branch)
            &&& order.author matches Some(value) ==> header_text(value) == Some(body.author)
            &&& order.author is None ==> body.author.len() == 0
            &&& order.email matches Some(value) ==> header_text(value) == Some(body.email)
            &&& order.email is None ==> body.email.len() == 0
            &&& order.message matches Some(value) ==> header_text(value) == Some(body.message)
            &&& order.message is None ==> body.message == "Import files to "@ + resource.path
        },
{
    reveal_with_fuel(import_actions, 6);
}

/// A file is called by the last segment of its URL's path on every domain but
/// `huggingface.co` itself; there it is called by the last two, with an underscore between
/// them. It is fetched from an allowed domain only.
pub proof fn law_import_names_the_file_by_its_url<E>(
    world: ImportWorld<E>,
    order: ImportOrderView,
    i: int,
)
    requires
        0 <= i < import_run(world, order).len(),
        import_run(world, order)[i] is Download,
    ensures
        ({
            let filename = import_run(world, order)[i]->filename;
            &&& url_parts(order.download_url) matches Some((Some(domain), Some(segments)))
            &&& "huggingface.co"@.is_suffix_of(domain) || "kaggle.com"@.is_suffix_of(domain)
                || "oxen.ai"@.is_suffix_of(domain)
            &&& domain != "huggingface.co"@ ==> segments.len() >= 1 && filename == segments.last()
            &&& domain == "huggingface.co"@ ==> segments.len() >= 2 && filename == segments[
                segments.len() - 2] + "_"@ + segments[segments.len() - 1]
        }),
{
    reveal_with_fuel(import_actions, 6);
}

/// Whether an import is to this branch and commit, and to a path without a file.
pub open spec fn import_finds<E>(
    world: ImportWorld<E>,
    resource: ParsedResourceView,
    branch: Seq<char>,
    commit: Seq<char>,
) -> bool {
    &&& world.resource == Ok::<ParsedResourceView, E>(resource)
    &&& resource.branch == Some(branch)
    &&& resource.commit == Some(commit)
    &&& match (world.node)(commit, resource.path) {
        Ok(Some(node)) => !node.is_file,
        Ok(None) => true,
        Err(_) => false,
    }
}

/// An import that nothing stands against, from its first action to its answer.
pub proof fn law_import_in_full<E>(
    world: ImportWorld<E>,
    order: ImportOrderView,
    resource: ParsedResourceView,
    branch: Seq<char>,
    commit: Seq<char>,
    domain: Seq<char>,
    segments: Seq<Seq<char>>,
    body: NewCommitBodyView,
    made: Seq<char>,
)
    requires
        import_finds(world, resource, branch, commit),
        url_parts(order.download_url) == Some((Some(domain), Some(segments))),
        "huggingface.co"@.is_suffix_of(domain) || "kaggle.com"@.is_suffix_of(domain)
            || "oxen.ai"@.is_suffix_of(domain),
        segments.len() >= 1,
        domain == "huggingface.co"@ ==> segments.len() >= 2,
        match order.author {
            Some(value) => header_text(value) == Some(body.author),
            None => body.author == Seq::<char>::empty(),
        },
        match order.email {
            Some(value) => header_text(value) == Some(body.email),
            None => body.email == Seq::<char>::empty(),
        },
        match order.message {
            Some(value) => header_text(value) == Some(body.message),
            None => body.message == "Import files to "@ + resource.path,
        },
        (world.workspace)(commit) is Ok,
        forall|url, auth, directory, filename|
            (#[trigger] (world.downloaded)(url, auth, directory, filename)) is Ok,
        forall|body, name| #[trigger]
            (world.committed)(body, name) == Ok::<Seq<char>, E>(made),
    ensures
        import_run(world, order) == seq![
            ImportActionView::<E>::ResolveResource,
            ImportActionView::LookUpNode { commit, path: resource.path },
            ImportActionView::CreateWorkspace { commit },
            ImportActionView::Download {
                url: order.download_url,
                auth: order.auth,
                directory: resource.path,
                filename: if domain == "huggingface.co"@ {
                    segments[segments.len() - 2] + "_"@ + segments.last()
                } else {
                    segments.last()
                },
            },
            ImportActionView::Commit { body, branch },
            ImportActionView::Answer(
                Ok(CommitResponseView { status: ResourceStatus::Created, commit: made }),
            ),
        ],
{
    reveal_with_fuel(import_actions, 6);
}

/// What an import is answered with when its resource stands against it.
pub proof fn law_import_refusals_of_the_resource<E>(world: ImportWorld<E>, order: ImportOrderView)
    ensures
        ({
            let run = import_run(world, order);
            &&& run.len() >= 2
            &&& run[0] == ImportActionView::<E>::ResolveResource
            &&& match world.resource {
                Err(error) => run.len() == 2 && run[1] == ImportActionView::<E>::Answer(
                    Err(HttpErrorView::Outside(error)),
                ),
                Ok(resource) => {
                    &&& resource.branch is None ==> run.len() == 2 && run[1] == ImportActionView::<
                        E,
                    >::Answer(
                        Err(
                            HttpErrorView::InternalOxenError(
                                OxenErrorView::LocalBranchNotFound(resource.version),
                            ),
                        ),
                    )
                    &&& resource.branch is Some && resource.commit is None ==> run.len() == 2
                        && run[1] == ImportActionView::<E>::Answer(Err(HttpErrorView::NotFound))
                    &&& resource.branch matches Some(_) ==> (resource.commit matches Some(commit)
                        ==> run.len() >= 3 && match (world.node)(commit, resource.path) {
                        Err(error) => run.len() == 3 && run[2] == ImportActionView::<E>::Answer(
                            Err(HttpErrorView::Outside(error)),
                        ),
                        Ok(Some(node)) => {
                            &&& node.is_file ==> run.len() == 3 && run[2] == ImportActionView::<
                                E,
                            >::Answer(
                                Err(
                                    HttpErrorView::BasicError(
                                        "Target path must be a directory: "@ + resource.path,
                                    ),
                                ),
                            )
                            &&& !node.is_file ==> run.len() >= 4
                        },
                        Ok(None) => run.len() >= 4,
                    })
                },
            }
        }),
{
    reveal_with_fuel(import_actions, 4);
}

/// What an import is answered with when its URL stands against it.
pub proof fn law_import_refusals_of_the_url<E>(
    world: ImportWorld<E>,
    order: ImportOrderView,
    resource: ParsedResourceView,
    branch: Seq<char>,
    commit: Seq<char>,
)
    requires
        import_finds(world, resource, branch, commit),
    ensures
        ({
            let run = import_run(world, order);
            let refused = |error: HttpErrorView<E>|
                run.len() == 4 && run[3] == ImportActionView::<E>::Answer(Err(error));
            match (world.workspace)(commit) {
                Err(error) => refused(HttpErrorView::Outside(error)),
                Ok(_) => match url_parts(order.download_url) {
                    None => refused(HttpErrorView::BadRequest("Invalid URL"@)),
                    Some((None, _)) => refused(HttpErrorView::BadRequest("Invalid URL domain"@)),
                    Some((Some(domain), segments)) => if !("huggingface.co"@.is_suffix_of(domain)
                        || "kaggle.com"@.is_suffix_of(domain) || "oxen.ai"@.is_suffix_of(domain)) {
                        refused(HttpErrorView::BadRequest("URL domain not allowed"@))
                    } else if segments is None || segments->0.len() == 0 || (domain
                        == "huggingface.co"@ && segments->0.len() == 1) {
                        refused(HttpErrorView::BadRequest("Invalid filename in URL"@))
                    } else {
                        run.len() >= 4 && run[3] is Download
                    },
                },
            }
        }),
{
    reveal_with_fuel(import_actions, 5);
}

/// What an import is answered with when the fetching or the commit fails or is made: the error
/// as it came, or the commit.
pub proof fn law_import_failures_of_the_changes<E>(
    world: ImportWorld<E>,
    order: ImportOrderView,
    i: int,
)
    requires
        0 <= i < import_run(world, order).len(),
    ensures
        ({
            let run = import_run(world, order);
            let failed = |error: E|
                run.len() == i + 2 && run[i + 1] == ImportActionView::<E>::Answer(
                    Err(HttpErrorView::Outside(error)),
                );
            &&& run[i] matches ImportActionView::Download { url, auth, directory, filename } ==> ((
            world.downloaded)(url, auth, directory, filename) matches Err(error) ==> failed(error))
            &&& run[i] matches ImportActionView::Commit { body, branch } ==> run.len() == i + 2
                && match (world.committed)(body, branch) {
                Err(error) => failed(error),
                Ok(made) => run[i + 1] == ImportActionView::<E>::Answer(
                    Ok(CommitResponseView { status: ResourceStatus::Created, commit: made }),
                ),
            }
            &&& run[i] is Answer ==> i == run.len() - 1
        }),
{
    reveal_with_fuel(import_actions, 6);
}

} // verus!
