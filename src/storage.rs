//! Storage endpoints: where a path or URI points, and the decisions of one
//! storage session (open in place, download once into a spool, write into a
//! spool, upload the spool whole).
//!
//! The session decides; the caller performs each step it is handed (opening
//! files, the download, the upload) and reports the outcome back.
use vstd::prelude::*;
use crate::text::same_text;

verus! {

/// The object-store services a remote location can name.
#[derive(Clone, Copy, Debug, PartialEq, Eq, Structural)]
pub enum Backend {
    /// Amazon-S3-compatible, scheme `s3`.
    S3,
    /// Google-Cloud-Storage-compatible, scheme `gs`.
    Gcs,
    /// Azure-Blob-compatible, scheme `azure`.
    Azure,
}

/// Where one side of a conversion lives.
#[derive(Clone, Debug, PartialEq)]
pub enum Location {
    /// A file of the local filesystem.
    Local { path: String },
    /// An object of a remote store: its container (bucket) and key.
    Remote { backend: Backend, container: String, key: String },
}

/// The mathematical value of a [`Location`].
pub enum LocationView {
    Local { path: Seq<char> },
    Remote { backend: Backend, container: Seq<char>, key: Seq<char> },
}

impl View for Location {
    type V = LocationView;

    open spec fn view(&self) -> LocationView {
        match self {
            Location::Local { path } => LocationView::Local { path: path@ },
            Location::Remote { backend, container, key } => LocationView::Remote {
                backend: *backend,
                container: container@,
                key: key@,
            },
        }
    }
}

/// Why a path or URI names no usable location.
#[derive(Clone, Copy, Debug, PartialEq, Eq, Structural)]
pub enum StorageError {
    /// A URI whose scheme is none of `s3`, `gs`, `azure`, `file`.
    UnsupportedScheme,
    /// A remote URI without a container (host) part.
    MissingContainer,
}

/// The parts of a URI that locating reads: scheme, host and path.
#[derive(Clone, Debug, PartialEq)]
pub struct UrlParts {
    pub scheme: String,
    pub host: Option<String>,
    pub path: String,
}

/// Scheme, host and path of a parsed URI, as values.
pub open spec fn url_parts_view(p: Option<UrlParts>) -> Option<(Seq<char>, Option<Seq<char>>, Seq<char>)> {
    match p {
        Some(u) => Some(
            (
                u.scheme@,
                match u.host {
                    Some(h) => Some(h@),
                    None => None,
                },
                u.path@,
            ),
        ),
        None => None,
    }
}

/// What the URL parser makes of a text: scheme, host and path of the URL it
/// denotes, or `None` where the text is no absolute URL.
pub uninterp spec fn parsed_url(s: Seq<char>) -> Option<(Seq<char>, Option<Seq<char>>, Seq<char>)>;

/// Relies on `url::Url::parse` and, on its result, `Url::scheme`,
/// `Url::host_str` and `Url::path`: what they give depends on the text alone.
#[verifier::external_body]
fn split_url(s: &str) -> (r: Option<UrlParts>)
    ensures
        url_parts_view(r) == parsed_url(s@),
{
    match url::Url::parse(s) {
        Ok(u) => Some(
            UrlParts {
                scheme: u.scheme().to_string(),
                host: u.host_str().map(String::from),
                path: u.path().to_string(),
            },
        ),
        Err(_) => None,
    }
}

/// The text without its leading slashes.
pub open spec fn strip_slashes(p: Seq<char>) -> Seq<char>
    decreases p.len(),
{
    if p.len() > 0 && p[0] == '/' {
        strip_slashes(p.drop_first())
    } else {
        p
    }
}

/// The remote service a scheme names.
pub open spec fn backend_of(scheme: Seq<char>) -> Option<Backend> {
    if scheme == "s3"@ {
        Some(Backend::S3)
    } else if scheme == "gs"@ {
        Some(Backend::Gcs)
    } else if scheme == "azure"@ {
        Some(Backend::Azure)
    } else {
        None
    }
}

/// The location that `input` names, given what the URL parser made of it: a
/// text that is no URL is a local path as written; `file` URIs are local
/// paths; `s3`, `gs` and `azure` URIs are remote, with the host as container
/// and the path without its leading slashes as key; other schemes are refused.
pub open spec fn locate(
    input: Seq<char>,
    parsed: Option<(Seq<char>, Option<Seq<char>>, Seq<char>)>,
) -> Result<LocationView, StorageError> {
    match parsed {
        None => Ok(LocationView::Local { path: input }),
        Some((scheme, host, path)) => match backend_of(scheme) {
            Some(backend) => match host {
                Some(container) => Ok(
                    LocationView::Remote { backend, container, key: strip_slashes(path) },
                ),
                None => Err(StorageError::MissingContainer),
            },
            None => if scheme == "file"@ {
                Ok(LocationView::Local { path })
            } else {
                Err(StorageError::UnsupportedScheme)
            },
        },
    }
}

/// A location result, as values.
pub open spec fn located_view(r: Result<Location, StorageError>) -> Result<LocationView, StorageError> {
    match r {
        Ok(l) => Ok(l@),
        Err(e) => Err(e),
    }
}

/// `p` without its leading slashes.
pub fn trim_leading_slashes(p: &str) -> (r: String)
    ensures
        r@ == strip_slashes(p@),
{
    let n = p.unicode_len();
    let mut k: usize = 0;
    assert(p@.subrange(0, n as int) =~= p@);
    while k < n && p.get_char(k) == '/'
        invariant
            n == p@.len(),
            k <= n,
            strip_slashes(p@) == strip_slashes(p@.subrange(k as int, n as int)),
        decreases n - k,
    {
        assert(p@.subrange(k as int, n as int).drop_first() =~= p@.subrange(k + 1, n as int));
        k = k + 1;
    }
    p.substring_char(k, n).to_owned()
}

/// The remote service a scheme names.
pub fn backend_for(scheme: &str) -> (r: Option<Backend>)
    ensures
        r == backend_of(scheme@),
{
    if same_text(scheme, "s3") {
        Some(Backend::S3)
    } else if same_text(scheme, "gs") {
        Some(Backend::Gcs)
    } else if same_text(scheme, "azure") {
        Some(Backend::Azure)
    } else {
        None
    }
}

/// The location that `input` names, given what the URL parser made of it.
pub fn locate_parsed(input: &str, parsed: Option<UrlParts>) -> (r: Result<Location, StorageError>)
    ensures
        located_view(r) == locate(input@, url_parts_view(parsed)),
{
    match parsed {
        None => Ok(Location::Local { path: input.to_owned() }),
        Some(u) => match backend_for(u.scheme.as_str()) {
            Some(backend) => match u.host {
                Some(container) => Ok(
                    Location::Remote {
                        backend,
                        container,
                        key: trim_leading_slashes(u.path.as_str()),
                    },
                ),
                None => Err(StorageError::MissingContainer),
            },
            None => if same_text(u.scheme.as_str(), "file") {
                Ok(Location::Local { path: u.path })
            } else {
                Err(StorageError::UnsupportedScheme)
            },
        },
    }
}

/// The location that a path or URI names. Nothing is contacted.
pub fn resolve(input: &str) -> (r: Result<Location, StorageError>)
    ensures
        located_view(r) == locate(input@, parsed_url(input@)),
{
    let parsed = split_url(input);
    locate_parsed(input, parsed)
}

/// What to do to hand out a readable handle.
#[derive(Clone, Copy, Debug, PartialEq, Eq, Structural)]
pub enum ReadStep {
    /// Open the local file in place.
    OpenLocal,
    /// Download the whole object into a new spool, then open it.
    Download,
    /// Open the spool that an earlier download filled.
    OpenSpool,
}

/// What to do to hand out a writable handle.
#[derive(Clone, Copy, Debug, PartialEq, Eq, Structural)]
pub enum WriteStep {
    /// Create (truncate) the local file in place.
    CreateLocal,
    /// Create the upload spool and write there.
    CreateSpool,
    /// Write again into the upload spool made earlier.
    ReopenSpool,
}

/// What finishing a write takes.
#[derive(Clone, Copy, Debug, PartialEq, Eq, Structural)]
pub enum FinishStep {
    /// Nothing: a local target, or no writable handle was handed out.
    Nothing,
    /// One put of the whole upload spool to the remote object.
    Upload,
}

/// The state of one storage endpoint over its lifetime: whether it is remote,
/// whether its download spool holds the whole object, and whether an upload
/// spool exists. A local endpoint never spools.
#[derive(Clone, Copy, Debug, PartialEq, Eq, Structural)]
pub struct Session {
    pub remote: bool,
    pub downloaded: bool,
    pub upload_spooled: bool,
}

/// One request made of a session. A read carries the outcome of the download
/// it may have caused.
pub enum Request {
    Read { download_ok: bool },
    Write,
    Finish,
}

impl Session {
    /// A session is local or remote for good; a local one never spools.
    pub open spec fn wf(self) -> bool {
        !self.remote ==> !self.downloaded && !self.upload_spooled
    }

    /// The session of a fresh endpoint.
    pub open spec fn initial(remote: bool) -> Session {
        Session { remote, downloaded: false, upload_spooled: false }
    }

    pub open spec fn read_step_of(self) -> ReadStep {
        if !self.remote {
            ReadStep::OpenLocal
        } else if self.downloaded {
            ReadStep::OpenSpool
        } else {
            ReadStep::Download
        }
    }

    pub open spec fn write_step_of(self) -> WriteStep {
        if !self.remote {
            WriteStep::CreateLocal
        } else if self.upload_spooled {
            WriteStep::ReopenSpool
        } else {
            WriteStep::CreateSpool
        }
    }

    pub open spec fn finish_step_of(self) -> FinishStep {
        if self.remote && self.upload_spooled {
            FinishStep::Upload
        } else {
            FinishStep::Nothing
        }
    }

    /// After a download: the spool counts only if every chunk arrived.
    pub open spec fn after_download(self, ok: bool) -> Session {
        Session { downloaded: self.downloaded || (self.remote && ok), ..self }
    }

    /// After a writable handle was handed out.
    pub open spec fn after_write(self) -> Session {
        Session { upload_spooled: self.upload_spooled || self.remote, ..self }
    }

    /// The session after one request.
    pub open spec fn apply(self, q: Request) -> Session {
        match q {
            Request::Read { download_ok } => if self.read_step_of() == ReadStep::Download {
                self.after_download(download_ok)
            } else {
                self
            },
            Request::Write => self.after_write(),
            Request::Finish => self,
        }
    }

    /// The session after a run of requests, in order.
    pub open spec fn run(self, qs: Seq<Request>) -> Session
        decreases qs.len(),
    {
        if qs.len() == 0 {
            self
        } else {
            self.run(qs.drop_last()).apply(qs.last())
        }
    }

    /// How many downloads a run of requests performs.
    pub open spec fn downloads(self, qs: Seq<Request>) -> nat
        decreases qs.len(),
    {
        if qs.len() == 0 {
            0
        } else {
            let before = self.run(qs.drop_last());
            let here: nat = match qs.last() {
                Request::Read { .. } => if before.read_step_of() == ReadStep::Download {
                    1
                } else {
                    0
                },
                _ => 0,
            };
            self.downloads(qs.drop_last()) + here
        }
    }

    /// The session of a fresh endpoint at `location`.
    pub fn new(location: &Location) -> (r: Session)
        ensures
            r == Session::initial(location is Remote),
            r.wf(),
    {
        let remote = match location {
            Location::Local { .. } => false,
            Location::Remote { .. } => true,
        };
        Session { remote, downloaded: false, upload_spooled: false }
    }

    /// What acquiring a readable handle takes now.
    pub fn read_step(&self) -> (r: ReadStep)
        ensures
            r == self.read_step_of(),
    {
        if !self.remote {
            ReadStep::OpenLocal
        } else if self.downloaded {
            ReadStep::OpenSpool
        } else {
            ReadStep::Download
        }
    }

    /// Records how a download ended; a failed one leaves nothing to reopen.
    pub fn record_download(&mut self, ok: bool)
        requires
            old(self).wf(),
        ensures
            *final(self) == old(self).after_download(ok),
            final(self).wf(),
    {
        self.downloaded = self.downloaded || (self.remote && ok);
    }

    /// What acquiring a writable handle takes now, and records it.
    pub fn write_step(&mut self) -> (r: WriteStep)
        requires
            old(self).wf(),
        ensures
            r == old(self).write_step_of(),
            *final(self) == old(self).after_write(),
            final(self).wf(),
    {
        let r = if !self.remote {
            WriteStep::CreateLocal
        } else if self.upload_spooled {
            WriteStep::ReopenSpool
        } else {
            WriteStep::CreateSpool
        };
        self.upload_spooled = self.upload_spooled || self.remote;
        r
    }

    /// What finishing a write takes now; finishing changes nothing.
    pub fn finish_step(&self) -> (r: FinishStep)
        ensures
            r == self.finish_step_of(),
    {
        if self.remote && self.upload_spooled {
            FinishStep::Upload
        } else {
            FinishStep::Nothing
        }
    }
}

/// Reads whose downloads all succeed.
pub open spec fn good_reads(n: nat) -> Seq<Request> {
    Seq::new(n, |i: int| Request::Read { download_ok: true })
}

/// However many times a remote endpoint whose object is not yet spooled is
/// read, and provided the download succeeds, exactly one download happens;
/// every later read reopens the spool.
pub proof fn lemma_single_download(s: Session, n: nat)
    requires
        s.remote,
        !s.downloaded,
        n >= 1,
    ensures
        s.downloads(good_reads(n)) == 1,
        s.run(good_reads(n)).read_step_of() == ReadStep::OpenSpool,
    decreases n,
{
    let qs = good_reads(n);
    assert(qs.drop_last() =~= good_reads((n - 1) as nat));
    assert(qs.last() == Request::Read { download_ok: true });
    if n == 1 {
        assert(good_reads(0) =~= Seq::<Request>::empty());
        assert(s.run(qs.drop_last()) == s);
        assert(s.downloads(qs.drop_last()) == 0);
    } else {
        lemma_single_download(s, (n - 1) as nat);
    }
}

/// A local endpoint is read and written in place: no download, no spool, and
/// nothing to upload, whatever is asked of it.
pub proof fn lemma_local_in_place(qs: Seq<Request>)
    ensures
        Session::initial(false).run(qs) == Session::initial(false),
        Session::initial(false).downloads(qs) == 0,
        Session::initial(false).run(qs).read_step_of() == ReadStep::OpenLocal,
        Session::initial(false).run(qs).write_step_of() == WriteStep::CreateLocal,
        Session::initial(false).run(qs).finish_step_of() == FinishStep::Nothing,
    decreases qs.len(),
{
    if qs.len() > 0 {
        lemma_local_in_place(qs.drop_last());
    }
}

/// Until a writable handle is asked for, finishing a write does nothing.
pub proof fn lemma_finish_without_write(remote: bool, qs: Seq<Request>)
    requires
        forall|i: int| 0 <= i < qs.len() ==> !(#[trigger] qs[i] is Write),
    ensures
        !Session::initial(remote).run(qs).upload_spooled,
        Session::initial(remote).run(qs).finish_step_of() == FinishStep::Nothing,
    decreases qs.len(),
{
    if qs.len() > 0 {
        lemma_finish_without_write(remote, qs.drop_last());
        assert(!(qs[qs.len() - 1] is Write));
    }
}

/// Once a remote endpoint has handed out a writable handle, every finish
/// uploads, finishing leaves the session as it was, so a second finish uploads
/// the same spool again, and later writes go to that spool rather than a new
/// one.
pub proof fn lemma_finish_repeats(qs: Seq<Request>)
    requires
        exists|i: int| 0 <= i < qs.len() && #[trigger] qs[i] is Write,
    ensures
        Session::initial(true).run(qs).finish_step_of() == FinishStep::Upload,
        Session::initial(true).run(qs).apply(Request::Finish) == Session::initial(true).run(qs),
        Session::initial(true).run(qs.push(Request::Finish)).finish_step_of() == FinishStep::Upload,
        Session::initial(true).run(qs).write_step_of() == WriteStep::ReopenSpool,
    decreases qs.len(),
{
    lemma_upload_spool_kept(qs);
    assert(qs.push(Request::Finish).drop_last() =~= qs);
}

proof fn lemma_upload_spool_kept(qs: Seq<Request>)
    requires
        exists|i: int| 0 <= i < qs.len() && #[trigger] qs[i] is Write,
    ensures
        Session::initial(true).run(qs).upload_spooled,
        Session::initial(true).run(qs).remote,
    decreases qs.len(),
{
    let i = choose|i: int| 0 <= i < qs.len() && #[trigger] qs[i] is Write;
    lemma_remote_stays(qs.drop_last());
    if i < qs.len() - 1 {
        assert(qs.drop_last()[i] is Write);
        lemma_upload_spool_kept(qs.drop_last());
    }
}

proof fn lemma_remote_stays(qs: Seq<Request>)
    ensures
        Session::initial(true).run(qs).remote,
    decreases qs.len(),
{
    if qs.len() > 0 {
        lemma_remote_stays(qs.drop_last());
    }
}

} // verus!
