//! Answers to the per-addon requests.
//!
//! Every request is checked against the in-memory index first: an unknown
//! identifier is answered "not found" without touching the archive cache or
//! the disk.
use vstd::prelude::*;
use crate::cache::{ArchiveCache, FetchAction, ActionView, fetch_action, fetch_next};
use crate::index::{AddonIndex, id_views};
use crate::negotiate::{
    Transfer, compression_preference, header_view, negotiate, preference_of, transfer,
};

verus! {

pub const STATUS_OK: u16 = 200;
pub const STATUS_NOT_FOUND: u16 = 404;
pub const STATUS_BUILD_FAILED: u16 = 500;
pub const STATUS_BAD_REQUEST: u16 = 400;

/// A status and a text body.
pub struct Response {
    pub status: u16,
    pub body: String,
}

/// The answer to an existence query for `id`: its status and body.
pub open spec fn existence_of(known: Set<Seq<char>>, id: Seq<char>) -> (u16, Seq<char>) {
    if known.contains(id) {
        (STATUS_OK, id + " exists!"@)
    } else {
        (STATUS_NOT_FOUND, Seq::empty())
    }
}

/// Answers `GET /addons/{id}`: found, with a body confirming the addon, when
/// the index knows `id`; not found with an empty body otherwise.
pub fn existence(index: &AddonIndex, id: &str) -> (r: Response)
    ensures
        (r.status, r.body@) == existence_of(index@, id@),
{
    if index.contains(id) {
        let body = String::from_str(id).concat(" exists!");
        Response { status: STATUS_OK, body }
    } else {
        Response { status: STATUS_NOT_FOUND, body: String::new() }
    }
}

/// Where the archive of `id` is kept in the cache directory.
pub open spec fn archive_path_of(cache_dir: Seq<char>, id: Seq<char>) -> Seq<char> {
    cache_dir + "/"@ + id + ".zip"@
}

/// The file of the cache directory that holds the archive of `id`.
pub fn archive_path(cache_dir: &str, id: &str) -> (r: String)
    ensures
        r@ == archive_path_of(cache_dir@, id@),
{
    String::from_str(cache_dir).concat("/").concat(id).concat(".zip")
}

/// What the handler of an archive request does next.
pub enum ArchiveStep {
    /// The identifier is unknown.
    NotFound,
    /// Package the addon into this file, then report the outcome to the cache.
    Build(String),
    /// Wait for the build in flight.
    Wait,
    /// Send the archive at this path.
    Serve(String),
}

/// Answers `GET /addons/{id}/archive` by request `who`. An unknown `id` is not
/// found and leaves the cache untouched; a known one goes to the cache, and a
/// build that it starts writes to the key's file in `cache_dir`.
pub fn request_archive(
    index: &AddonIndex,
    cache: &mut ArchiveCache,
    cache_dir: &str,
    id: &str,
    who: u64,
) -> (r: ArchiveStep)
    requires
        old(cache).wf(),
    ensures
        final(cache).wf(),
        !index@.contains(id@) ==> r is NotFound && final(cache)@ == old(cache)@,
        index@.contains(id@) ==> {
            &&& final(cache)@ == fetch_next(old(cache)@, id@, who)
            &&& match fetch_action(old(cache)@, id@) {
                ActionView::StartBuild => r is Build && r->Build_0@ == archive_path_of(
                    cache_dir@,
                    id@,
                ),
                ActionView::Wait => r is Wait,
                ActionView::Serve(p) => r is Serve && r->Serve_0@ == p,
            }
        },
{
    if !index.contains(id) {
        return ArchiveStep::NotFound;
    }
    match cache.begin_fetch(id, who) {
        FetchAction::StartBuild => ArchiveStep::Build(archive_path(cache_dir, id)),
        FetchAction::Wait => ArchiveStep::Wait,
        FetchAction::Serve(p) => ArchiveStep::Serve(p),
    }
}

/// The status owed to the waiters of a build that ended with `outcome`.
pub fn outcome_status(outcome: &Option<String>) -> (r: u16)
    ensures
        r == (if outcome is Some {
            STATUS_OK
        } else {
            STATUS_BUILD_FAILED
        }),
{
    match outcome {
        Some(_) => STATUS_OK,
        None => STATUS_BUILD_FAILED,
    }
}

/// A request whose path matched one of the addon routes.
pub enum Request {
    /// `GET /addons/{id}`
    Existence(String),
    /// `GET /addons/{id}/archive`
    Archive(String),
}

/// What the server does with a request.
pub enum ServeStep {
    /// The compression header holds neither `true` nor `false`.
    BadHeader,
    /// Send this response, in the transfer that was negotiated for it.
    Respond(Transfer<Response>),
    /// Package the addon into `path`, report to the cache, then answer.
    Build { path: String, compress: bool },
    /// Wait for the build in flight, then answer.
    Wait { compress: bool },
    /// Send the archive at `path`.
    SendArchive { path: String, compress: bool },
}

/// The identifier that a request names.
pub open spec fn request_id(request: &Request) -> Seq<char> {
    match request {
        Request::Existence(id) => id@,
        Request::Archive(id) => id@,
    }
}

/// Handles one request by requester `who`. The identifier is checked against
/// the index first: an unknown one is answered "not found", uncompressed,
/// whatever the compression header holds, and the cache is not touched. For a
/// known one the header is read next; each answer carries the single
/// negotiated decision, which holds only when the client asked for
/// compression and the transport accepts it.
pub fn serve(
    index: &AddonIndex,
    cache: &mut ArchiveCache,
    cache_dir: &str,
    request: &Request,
    compression: Option<&str>,
    transport_accepts: bool,
    who: u64,
) -> (r: ServeStep)
    requires
        old(cache).wf(),
    ensures
        final(cache).wf(),
        !index@.contains(request_id(request)) ==> {
            &&& final(cache)@ == old(cache)@
            &&& r is Respond
            &&& r->Respond_0.payload().status == STATUS_NOT_FOUND
            &&& r->Respond_0.payload().body@ == Seq::<char>::empty()
            &&& !r->Respond_0.is_compressed()
        },
        index@.contains(request_id(request)) && preference_of(header_view(compression)) is None ==> r is BadHeader
            && final(cache)@ == old(cache)@,
        index@.contains(request_id(request)) ==> (preference_of(header_view(compression)) matches Some(
            wants,
        ) ==> {
            let compress = wants && transport_accepts;
            match request {
                Request::Existence(id) => {
                    &&& final(cache)@ == old(cache)@
                    &&& r is Respond
                    &&& (r->Respond_0.payload().status, r->Respond_0.payload().body@)
                        == existence_of(index@, id@)
                    &&& r->Respond_0.is_compressed() == compress
                },
                Request::Archive(id) => {
                    &&& final(cache)@ == fetch_next(old(cache)@, id@, who)
                    &&& match fetch_action(old(cache)@, id@) {
                        ActionView::StartBuild => r == ServeStep::Build {
                            path: r->Build_path,
                            compress,
                        } && r->Build_path@ == archive_path_of(cache_dir@, id@),
                        ActionView::Wait => r == ServeStep::Wait { compress },
                        ActionView::Serve(p) => r == ServeStep::SendArchive {
                            path: r->SendArchive_path,
                            compress,
                        } && r->SendArchive_path@ == p,
                    }
                },
            }
        }),
{
    let id = match request {
        Request::Existence(id) => id,
        Request::Archive(id) => id,
    };
    if !index.contains(id.as_str()) {
        let resp = Response { status: STATUS_NOT_FOUND, body: String::new() };
        return ServeStep::Respond(transfer(negotiate(resp, false), transport_accepts));
    }
    let wants = match compression_preference(compression) {
        Some(w) => w,
        None => return ServeStep::BadHeader,
    };
    let compress = wants && transport_accepts;
    match request {
        Request::Existence(id) => {
            let resp = existence(index, id.as_str());
            ServeStep::Respond(transfer(negotiate(resp, wants), transport_accepts))
        },
        Request::Archive(id) => match request_archive(index, cache, cache_dir, id.as_str(), who) {
            ArchiveStep::NotFound => {
                let resp = Response { status: STATUS_NOT_FOUND, body: String::new() };
                ServeStep::Respond(transfer(negotiate(resp, wants), transport_accepts))
            },
            ArchiveStep::Build(path) => ServeStep::Build { path, compress },
            ArchiveStep::Wait => ServeStep::Wait { compress },
            ArchiveStep::Serve(path) => ServeStep::SendArchive { path, compress },
        },
    }
}

/// For an index built from a listing's identifiers, an existence query is
/// confirmed, with the identifier in its body, exactly for the identifiers
/// that the listing declares; every other one, the empty identifier
/// included, is not found.
pub proof fn lemma_existence_follows_listing(ids: Seq<String>, id: Seq<char>)
    ensures
        existence_of(id_views(ids).to_set(), id).0 == STATUS_OK <==> id_views(ids).contains(id),
        existence_of(id_views(ids).to_set(), id).0 == STATUS_NOT_FOUND <==> !id_views(ids).contains(id),
        id_views(ids).contains(id) ==> existence_of(id_views(ids).to_set(), id).1 == id + " exists!"@,
{
}

} // verus!
