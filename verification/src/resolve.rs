//! Resolving the remote folder hierarchy: course modules, folder handles,
//! and the flat list of downloadable files with locally-safe paths.

use crate::sanitise::sanitise_filename;
use crate::sanitise::sanitised_of;
use crate::strutil::push_char;
use crate::times::parse_time;
use crate::times::rfc3339_millis_of;
use crate::Error;
use vstd::prelude::*;
use vstd::string::StringExecFns;

verus! {

/// Per-module access rights as the remote catalog reports them.
#[derive(Clone, Copy, Debug, PartialEq, Eq, Structural)]
pub struct Access {
    pub full: bool,
    pub read: bool,
    pub create: bool,
    pub update: bool,
    pub delete: bool,
    pub settings_read: bool,
    pub settings_update: bool,
}

/// One course module of the remote catalog.
#[derive(Debug)]
pub struct Module {
    pub id: String,
    pub code: String,
    pub name: String,
    pub access: Option<Access>,
    pub term: String,
}

/// Mathematical model of a [`Module`].
pub struct ModuleView {
    pub id: Seq<char>,
    pub code: Seq<char>,
    pub name: Seq<char>,
    pub access: Option<Access>,
    pub term: Seq<char>,
}

impl View for Module {
    type V = ModuleView;

    open spec fn view(&self) -> ModuleView {
        ModuleView {
            id: self.id@,
            code: self.code@,
            name: self.name@,
            access: self.access,
            term: self.term@,
        }
    }
}

/// An announcement of a module: a title and an HTML description.
#[derive(Debug)]
pub struct Announcement {
    pub title: String,
    pub description: String,
}

/// One node of the remote folder hierarchy being walked.  Ephemeral:
/// constructed during resolution and consumed immediately; children are
/// independently owned copies with extended paths.
#[derive(Debug)]
pub struct DirectoryHandle {
    pub id: String,
    pub path: String,
    pub allow_upload: bool,
}

/// Mathematical model of a [`DirectoryHandle`].
pub struct DirHandleView {
    pub id: Seq<char>,
    pub path: Seq<char>,
    pub allow_upload: bool,
}

impl View for DirectoryHandle {
    type V = DirHandleView;

    open spec fn view(&self) -> DirHandleView {
        DirHandleView { id: self.id@, path: self.path@, allow_upload: self.allow_upload }
    }
}

/// One downloadable resource: a remote file mapped to exactly one
/// locally-safe relative path, carrying its remote modification time in
/// milliseconds since the Unix epoch.
#[derive(Debug)]
pub struct File {
    pub id: String,
    pub path: String,
    pub last_updated: i64,
}

/// Mathematical model of a [`File`].
pub struct FileView {
    pub id: Seq<char>,
    pub path: Seq<char>,
    pub last_updated: int,
}

impl View for File {
    type V = FileView;

    open spec fn view(&self) -> FileView {
        FileView { id: self.id@, path: self.path@, last_updated: self.last_updated as int }
    }
}

/// A resource that the download pipeline can materialise: anything with a
/// locally-safe relative path.
pub trait DownloadableObject {
    /// The resource's local relative path, as a sequence of characters.
    spec fn path_spec(&self) -> Seq<char>;

    /// The resource's local relative path.
    fn path(&self) -> (r: &str)
        ensures
            r@ == self.path_spec(),
    ;
}

impl DownloadableObject for File {
    open spec fn path_spec(&self) -> Seq<char> {
        self.path@
    }

    fn path(&self) -> (r: &str)
        ensures
            r@ == self.path@,
    {
        self.path.as_str()
    }
}

/// One entry of a remote folder listing, as the metadata endpoint reports
/// it: either a child folder or a file, with its display name, upload
/// permission, last-modified timestamp string and (for upload folders) the
/// uploader's display name.
#[derive(Debug)]
pub struct ApiFileDirectory {
    pub id: String,
    pub name: String,
    pub allow_upload: Option<bool>,
    pub last_updated_date: String,
    pub creator_name: Option<String>,
}

/// Mathematical model of an [`ApiFileDirectory`].
pub struct ApiEntryView {
    pub id: Seq<char>,
    pub name: Seq<char>,
    pub allow_upload: Option<bool>,
    pub last_updated_date: Seq<char>,
    pub creator_name: Option<Seq<char>>,
}

impl View for ApiFileDirectory {
    type V = ApiEntryView;

    open spec fn view(&self) -> ApiEntryView {
        ApiEntryView {
            id: self.id@,
            name: self.name@,
            allow_upload: self.allow_upload,
            last_updated_date: self.last_updated_date@,
            creator_name: match self.creator_name {
                Some(ref c) => Some(c@),
                None => None,
            },
        }
    }
}

/// The payload of a metadata response, after decoding: a folder listing,
/// announcements, a bare text (a download URL), or nothing.
pub enum Data {
    ApiFileDirectory(Vec<ApiFileDirectory>),
    Announcements(Vec<Announcement>),
    Text(String),
    Empty,
}

impl Module {
    /// Whether the caller teaches this module: it has any right beyond
    /// reading.
    pub fn is_teaching(&self) -> (r: bool)
        ensures
            r == teaching_spec(self@),
    {
        match self.access {
            Some(access) => access.full || access.create || access.update || access.delete
                || access.settings_read || access.settings_update,
            None => false,
        }
    }

    /// Whether the caller merely takes this module.
    pub fn is_taking(&self) -> (r: bool)
        ensures
            r == !teaching_spec(self@),
    {
        !self.is_teaching()
    }

    /// Whether the remote catalog reported any access for this module.
    pub fn has_access(&self) -> (r: bool)
        ensures
            r == self.access is Some,
    {
        match self.access {
            Some(_) => true,
            None => false,
        }
    }

    /// The root folder handle of this module's document store, under the
    /// sanitised module code, with uploads disallowed.
    pub fn workbin_root(&self) -> (r: DirectoryHandle)
        ensures
            r@.id == self@.id,
            r@.path == sanitised_of(self@.code),
            r@.allow_upload == false,
    {
        DirectoryHandle {
            id: self.id.clone(),
            path: sanitise_filename(self.code.as_str()),
            allow_upload: false,
        }
    }
}

/// Whether access rights mark a module as taught by the caller.
pub open spec fn teaching_spec(m: ModuleView) -> bool {
    match m.access {
        Some(a) => a.full || a.create || a.update || a.delete || a.settings_read
            || a.settings_update,
        None => false,
    }
}

/// The upload flag of a listing entry, absent meaning no uploads.
pub open spec fn upload_flag(s: ApiEntryView) -> bool {
    match s.allow_upload {
        Some(b) => b,
        None => false,
    }
}

/// The folder handle a listing entry becomes under a parent folder: the
/// parent's path extended by the entry's sanitised name.
pub open spec fn child_view(parent: DirHandleView, s: ApiEntryView) -> DirHandleView {
    DirHandleView {
        id: s.id,
        path: parent.path + seq!['/'] + sanitised_of(s.name),
        allow_upload: upload_flag(s),
    }
}

/// The child folder handles produced from a folder listing: one per entry,
/// in listing order, upload-enabled entries dropped unless
/// `include_uploadable` is set.
pub open spec fn children_views(
    parent: DirHandleView,
    include_uploadable: bool,
    subdirs: Seq<ApiEntryView>,
) -> Seq<DirHandleView>
    decreases subdirs.len(),
{
    if subdirs.len() == 0 {
        Seq::<DirHandleView>::empty()
    } else {
        let rest = children_views(parent, include_uploadable, subdirs.drop_last());
        if include_uploadable || !upload_flag(subdirs.last()) {
            rest.push(child_view(parent, subdirs.last()))
        } else {
            rest
        }
    }
}

/// Turn one folder's child-folder listing into the handles to recurse
/// into, dropping upload-enabled folders unless they are included.
pub fn child_handles(
    parent: &DirectoryHandle,
    subdirs: &Vec<ApiFileDirectory>,
    include_uploadable: bool,
) -> (res: Vec<DirectoryHandle>)
    ensures
        res@.map_values(|d: DirectoryHandle| d@) == children_views(
            parent@,
            include_uploadable,
            subdirs@.map_values(|s: ApiFileDirectory| s@),
        ),
{
    let ghost sv = subdirs@.map_values(|s: ApiFileDirectory| s@);
    let n = subdirs.len();
    let mut res: Vec<DirectoryHandle> = Vec::new();
    let mut i: usize = 0;
    while i < n
        invariant
            n == subdirs@.len(),
            i <= n,
            sv == subdirs@.map_values(|s: ApiFileDirectory| s@),
            res@.map_values(|d: DirectoryHandle| d@) == children_views(
                parent@,
                include_uploadable,
                sv.take(i as int),
            ),
        decreases n - i,
    {
        let s = &subdirs[i];
        let flag = match s.allow_upload {
            Some(b) => b,
            None => false,
        };
        if include_uploadable || !flag {
            let mut path = parent.path.clone();
            push_char(&mut path, '/');
            let seg = sanitise_filename(s.name.as_str());
            path.append(seg.as_str());
            let child = DirectoryHandle { id: s.id.clone(), path, allow_upload: flag };
            proof {
                assert(child@.path =~= parent@.path + seq!['/'] + sanitised_of(sv[i as int].name));
                assert(child@ == child_view(parent@, sv[i as int]));
            }
            res.push(child);
        }
        i = i + 1;
        proof {
            assert(sv.take(i as int).drop_last() =~= sv.take(i - 1));
            assert(sv.take(i as int).last() == sv[i - 1]);
            assert(res@.map_values(|d: DirectoryHandle| d@) =~= children_views(
                parent@,
                include_uploadable,
                sv.take(i as int),
            ));
        }
    }
    proof {
        assert(sv.take(n as int) =~= sv);
    }
    res
}

/// The display name a file is stored under: inside an upload-enabled
/// folder, the uploader's name (or `Unknown`) and a dash are prefixed to
/// the remote name; elsewhere the remote name is used as is.
pub open spec fn display_name_of(
    allow_upload: bool,
    name: Seq<char>,
    creator: Option<Seq<char>>,
) -> Seq<char> {
    if allow_upload {
        (match creator {
            Some(c) => c,
            None => "Unknown"@,
        }) + " - "@ + name
    } else {
        name
    }
}

/// The resource a listing entry becomes under a parent folder, given its
/// parsed modification time.
pub open spec fn file_view_of(parent: DirHandleView, s: ApiEntryView, t: int) -> FileView {
    FileView {
        id: s.id,
        path: parent.path + seq!['/'] + sanitised_of(
            display_name_of(parent.allow_upload, s.name, s.creator_name),
        ),
        last_updated: t,
    }
}

/// Whether every entry of a listing carries a timestamp string that parses
/// as RFC 3339.
pub open spec fn all_times_parse(entries: Seq<ApiEntryView>) -> bool {
    forall|k: int|
        0 <= k < entries.len() ==> rfc3339_millis_of(entries[k].last_updated_date) is Some
}

/// The parsed modification time of one listing entry, zero when its
/// timestamp string does not parse (a value never relied on: such listings
/// are rejected).
pub open spec fn entry_time_of(s: ApiEntryView) -> int {
    match rfc3339_millis_of(s.last_updated_date) {
        Some(t) => t as int,
        None => 0,
    }
}

/// The resources produced from a folder's file listing, assuming every
/// timestamp parses.
pub open spec fn files_views(parent: DirHandleView, entries: Seq<ApiEntryView>) -> Seq<FileView>
    decreases entries.len(),
{
    if entries.len() == 0 {
        Seq::<FileView>::empty()
    } else {
        files_views(parent, entries.drop_last()).push(
            file_view_of(parent, entries.last(), entry_time_of(entries.last())),
        )
    }
}

/// A folder's file listing resolves pointwise: one resource per entry, in
/// listing order, each determined by its own entry alone.
pub proof fn lemma_files_views_pointwise(parent: DirHandleView, entries: Seq<ApiEntryView>)
    ensures
        files_views(parent, entries).len() == entries.len(),
        forall|k: int|
            0 <= k < entries.len() ==> #[trigger] files_views(parent, entries)[k] == file_view_of(
                parent,
                entries[k],
                entry_time_of(entries[k]),
            ),
    decreases entries.len(),
{
    if entries.len() > 0 {
        lemma_files_views_pointwise(parent, entries.drop_last());
    }
}

/// Whether a path lies directly under a folder: the folder's path, a
/// separator, and one segment that contains neither a path separator nor a
/// NUL character.
pub open spec fn safely_under(parent: DirHandleView, p: Seq<char>) -> bool {
    exists|seg: Seq<char>|
        p == parent.path + seq!['/'] + seg && crate::sanitise::segment_safe(seg)
}

/// Every resolved resource path is locally safe: the owning folder's path,
/// a separator, and one sanitised segment.
pub proof fn lemma_resolved_paths_sanitised(parent: DirHandleView, entries: Seq<ApiEntryView>)
    ensures
        forall|k: int|
            0 <= k < files_views(parent, entries).len() ==> safely_under(
                parent,
                (#[trigger] files_views(parent, entries)[k]).path,
            ),
{
    lemma_files_views_pointwise(parent, entries);
    assert forall|k: int| 0 <= k < files_views(parent, entries).len() implies safely_under(
        parent,
        (#[trigger] files_views(parent, entries)[k]).path,
    ) by {
        let name = display_name_of(parent.allow_upload, entries[k].name, entries[k].creator_name);
        crate::sanitise::lemma_sanitise_total(name);
        let seg = sanitised_of(name);
        assert(files_views(parent, entries)[k].path == parent.path + seq!['/'] + seg
            && crate::sanitise::segment_safe(seg));
    }
}

/// Turn one folder's file listing into resources: each file gets the
/// folder's path extended by its sanitised display name, and its remote
/// modification time parsed from the listing.  Fails exactly when some
/// entry's timestamp string is not valid RFC 3339.
pub fn files_of_listing(parent: &DirectoryHandle, entries: &Vec<ApiFileDirectory>) -> (r: Result<
    Vec<File>,
    Error,
>)
    ensures
        r is Ok <==> all_times_parse(entries@.map_values(|s: ApiFileDirectory| s@)),
        (match r {
            Ok(fs) => fs@.map_values(|f: File| f@) == files_views(
                parent@,
                entries@.map_values(|s: ApiFileDirectory| s@),
            ),
            Err(e) => e@ == "Failed to parse last updated time"@,
        }),
{
    let ghost ev = entries@.map_values(|s: ApiFileDirectory| s@);
    let n = entries.len();
    let mut res: Vec<File> = Vec::new();
    let mut i: usize = 0;
    while i < n
        invariant
            n == entries@.len(),
            i <= n,
            ev == entries@.map_values(|s: ApiFileDirectory| s@),
            all_times_parse(ev.take(i as int)),
            res@.map_values(|f: File| f@) == files_views(parent@, ev.take(i as int)),
        decreases n - i,
    {
        let s = &entries[i];
        let t = match parse_time(s.last_updated_date.as_str()) {
            Some(t) => t,
            None => {
                return Err("Failed to parse last updated time");
            },
        };
        let mut path = parent.path.clone();
        push_char(&mut path, '/');
        let display = if parent.allow_upload {
            let mut dn = match &s.creator_name {
                Some(c) => c.clone(),
                None => String::from_str("Unknown"),
            };
            dn.append(" - ");
            dn.append(s.name.as_str());
            dn
        } else {
            s.name.clone()
        };
        let seg = sanitise_filename(display.as_str());
        path.append(seg.as_str());
        let file = File { id: s.id.clone(), path, last_updated: t };
        proof {
            assert(display@ =~= display_name_of(
                parent@.allow_upload,
                ev[i as int].name,
                ev[i as int].creator_name,
            ));
            assert(file@.path =~= parent@.path + seq!['/'] + sanitised_of(
                display_name_of(parent@.allow_upload, ev[i as int].name, ev[i as int].creator_name),
            ));
            assert(file@ == file_view_of(parent@, ev[i as int], t as int));
        }
        res.push(file);
        i = i + 1;
        proof {
            assert(ev.take(i as int).drop_last() =~= ev.take(i - 1));
            assert(ev.take(i as int).last() == ev[i - 1]);
            assert(res@.map_values(|f: File| f@) =~= files_views(parent@, ev.take(i as int)));
        }
    }
    proof {
        assert(ev.take(n as int) =~= ev);
    }
    Ok(res)
}

/// Resolve one folder from its two listings: the child folders to recurse
/// into (filtered by the upload predicate) and the files it directly
/// contains, each with its locally-safe path.  A response of another shape
/// contributes nothing; the only failure is an unparsable file timestamp.
pub fn resolve_folder_listing(
    dir: &DirectoryHandle,
    subdirs_data: Data,
    files_data: Data,
    include_uploadable: bool,
) -> (r: Result<(Vec<DirectoryHandle>, Vec<File>), Error>)
    ensures
        (match files_data {
            Data::ApiFileDirectory(entries) => {
                &&& (r is Ok <==> all_times_parse(
                    entries@.map_values(|s: ApiFileDirectory| s@),
                ))
                &&& (match r {
                    Ok(out) => out.1@.map_values(|f: File| f@) == files_views(
                        dir@,
                        entries@.map_values(|s: ApiFileDirectory| s@),
                    ),
                    Err(e) => e@ == "Failed to parse last updated time"@,
                })
            },
            _ => r matches Ok(out) && out.1@.len() == 0,
        }),
        (match r {
            Ok(out) => (match subdirs_data {
                Data::ApiFileDirectory(subs) => out.0@.map_values(|d: DirectoryHandle| d@)
                    == children_views(
                    dir@,
                    include_uploadable,
                    subs@.map_values(|s: ApiFileDirectory| s@),
                ),
                _ => out.0@.len() == 0,
            }),
            Err(_) => true,
        }),
{
    let children = match subdirs_data {
        Data::ApiFileDirectory(subs) => child_handles(dir, &subs, include_uploadable),
        _ => Vec::new(),
    };
    let files = match files_data {
        Data::ApiFileDirectory(entries) => match files_of_listing(dir, &entries) {
            Ok(fs) => fs,
            Err(e) => {
                return Err(e);
            },
        },
        _ => Vec::new(),
    };
    Ok((children, files))
}

/// The query path listing the child folders of a folder.
pub fn subdirs_query_path(dir: &DirectoryHandle) -> (r: String)
    ensures
        r@ == "files/?ParentID="@ + dir@.id,
{
    let mut s = String::from_str("files/?ParentID=");
    s.append(dir.id.as_str());
    s
}

/// The query path listing the files directly contained in a folder, asking
/// for uploader information exactly when the folder allows uploads.
pub fn files_query_path(dir: &DirectoryHandle) -> (r: String)
    ensures
        dir@.allow_upload ==> r@ == "files/"@ + dir@.id + "/file"@ + "?populate=Creator"@,
        !dir@.allow_upload ==> r@ == "files/"@ + dir@.id + "/file"@,
{
    let mut s = String::from_str("files/");
    s.append(dir.id.as_str());
    s.append("/file");
    if dir.allow_upload {
        s.append("?populate=Creator");
    }
    s
}

/// The query path for a module's announcements, archived or current.
pub fn announcement_path(module: &Module, archived: bool) -> (r: String)
    ensures
        archived ==> r@ == "announcement/"@ + "Archived"@ + "/"@ + module@.id
            + "?sortby=displayFrom%20ASC"@,
        !archived ==> r@ == "announcement/"@ + "NonArchived"@ + "/"@ + module@.id
            + "?sortby=displayFrom%20ASC"@,
{
    let mut s = String::from_str("announcement/");
    if archived {
        s.append("Archived");
    } else {
        s.append("NonArchived");
    }
    s.append("/");
    s.append(module.id.as_str());
    s.append("?sortby=displayFrom%20ASC");
    s
}

/// The query path resolving a file's short-lived download URL.
pub fn download_url_path(file: &File) -> (r: String)
    ensures
        r@ == "files/file/"@ + file@.id + "/downloadurl"@,
{
    let mut s = String::from_str("files/file/");
    s.append(file.id.as_str());
    s.append("/downloadurl");
    s
}

/// Read the announcements out of a decoded metadata response: a list when
/// one was returned, nothing when the response was empty, and a type
/// mismatch otherwise.
pub fn announcements_from_data(data: Data) -> (r: Result<Vec<Announcement>, Error>)
    ensures
        (match data {
            Data::Announcements(anns) => r matches Ok(v) && v == anns,
            Data::Empty => r matches Ok(v) && v@.len() == 0,
            _ => r matches Err(e) && e@ == "Invalid API response from server: type mismatch"@,
        }),
{
    match data {
        Data::Announcements(announcements) => Ok(announcements),
        Data::Empty => Ok(Vec::new()),
        _ => Err("Invalid API response from server: type mismatch"),
    }
}

/// Read a download URL out of a decoded metadata response: the bare text
/// when one was returned, and a type mismatch otherwise.
pub fn download_url_from_data(data: Data) -> (r: Result<String, Error>)
    ensures
        (match data {
            Data::Text(url) => r matches Ok(u) && u@ == url@,
            _ => r matches Err(e) && e@ == "Invalid API response from server: type mismatch"@,
        }),
{
    match data {
        Data::Text(url) => Ok(url),
        _ => Err("Invalid API response from server: type mismatch"),
    }
}

/// The root folder handles a module list yields: one per module with
/// reported access, under its sanitised module code, paired with whether
/// the caller teaches that module.
pub open spec fn roots_views(ms: Seq<ModuleView>) -> Seq<(DirHandleView, bool)>
    decreases ms.len(),
{
    if ms.len() == 0 {
        Seq::<(DirHandleView, bool)>::empty()
    } else {
        let rest = roots_views(ms.drop_last());
        let m = ms.last();
        if m.access is Some {
            rest.push(
                (
                    DirHandleView {
                        id: m.id,
                        path: sanitised_of(m.code),
                        allow_upload: false,
                    },
                    teaching_spec(m),
                ),
            )
        } else {
            rest
        }
    }
}

/// Collect the root folders to resolve: one per module the caller has
/// access to, each tagged with whether the caller teaches it (which
/// decides whether upload folders are included for it).
pub fn workbin_roots(modules: &Vec<Module>) -> (r: Vec<(DirectoryHandle, bool)>)
    ensures
        r@.map_values(|p: (DirectoryHandle, bool)| (p.0@, p.1)) == roots_views(
            modules@.map_values(|m: Module| m@),
        ),
{
    let ghost mv = modules@.map_values(|m: Module| m@);
    let n = modules.len();
    let mut r: Vec<(DirectoryHandle, bool)> = Vec::new();
    let mut i: usize = 0;
    while i < n
        invariant
            n == modules@.len(),
            i <= n,
            mv == modules@.map_values(|m: Module| m@),
            r@.map_values(|p: (DirectoryHandle, bool)| (p.0@, p.1)) == roots_views(
                mv.take(i as int),
            ),
        decreases n - i,
    {
        let m = &modules[i];
        if m.has_access() {
            let root = m.workbin_root();
            let teaching = m.is_teaching();
            proof {
                assert(root@ == DirHandleView {
                    id: mv[i as int].id,
                    path: sanitised_of(mv[i as int].code),
                    allow_upload: false,
                });
            }
            r.push((root, teaching));
        }
        i = i + 1;
        proof {
            assert(mv.take(i as int).drop_last() =~= mv.take(i - 1));
            assert(mv.take(i as int).last() == mv[i - 1]);
            assert(r@.map_values(|p: (DirectoryHandle, bool)| (p.0@, p.1)) =~= roots_views(
                mv.take(i as int),
            ));
        }
    }
    proof {
        assert(mv.take(n as int) =~= mv);
    }
    r
}

/// The flattened files of the successful listings, in order.
pub open spec fn oks_flat(rs: Seq<Result<Vec<File>, Error>>) -> Seq<FileView>
    decreases rs.len(),
{
    if rs.len() == 0 {
        Seq::<FileView>::empty()
    } else {
        oks_flat(rs.drop_last()) + (match rs.last() {
            Ok(fs) => fs@.map_values(|f: File| f@),
            Err(_) => Seq::<FileView>::empty(),
        })
    }
}

/// The errors of the failed listings, in order.
pub open spec fn errs_of(rs: Seq<Result<Vec<File>, Error>>) -> Seq<Error>
    decreases rs.len(),
{
    if rs.len() == 0 {
        Seq::<Error>::empty()
    } else {
        errs_of(rs.drop_last()) + (match rs.last() {
            Ok(_) => Seq::<Error>::empty(),
            Err(e) => seq![e],
        })
    }
}

/// Aggregate per-root resolution results: a failure fetching one root
/// folder never discards what other roots resolved.  Every successfully
/// resolved file is kept, in order, and every error is collected alongside.
pub fn partition_results(results: Vec<Result<Vec<File>, Error>>) -> (r: (Vec<File>, Vec<Error>))
    ensures
        r.0@.map_values(|f: File| f@) == oks_flat(results@),
        r.1@ == errs_of(results@),
    decreases results@.len(),
{
    let ghost rv = results@;
    let mut results = results;
    match results.pop() {
        None => {
            let files: Vec<File> = Vec::new();
            let errors: Vec<Error> = Vec::new();
            proof {
                assert(files@.map_values(|f: File| f@) =~= oks_flat(rv));
            }
            (files, errors)
        },
        Some(item) => {
            let (mut files, mut errors) = partition_results(results);
            match item {
                Ok(mut fs) => {
                    let ghost fsv = fs@;
                    files.append(&mut fs);
                    proof {
                        assert(files@.map_values(|f: File| f@) =~= oks_flat(rv.drop_last())
                            + fsv.map_values(|f: File| f@));
                        assert(errors@ =~= errs_of(rv));
                    }
                },
                Err(e) => {
                    errors.push(e);
                    proof {
                        assert(errors@ =~= errs_of(rv));
                        assert(files@.map_values(|f: File| f@) =~= oks_flat(rv));
                    }
                },
            }
            (files, errors)
        },
    }
}

} // verus!
