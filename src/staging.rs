//! Names of staged files: every upload is written under a fresh identifier
//! joined to a cleaned form of the name the client gave.
use vstd::prelude::*;
use vstd::string::*;
use crate::error::UploadError;

verus! {

/// A path separator on any platform the staging directory may live on.
pub open spec fn is_separator(c: char) -> bool {
    c == '/' || c == '\\'
}

/// `s` holds no path separator, so it names an entry of a directory and
/// never leaves it.
pub open spec fn has_no_separator(s: Seq<char>) -> bool {
    forall|i: int| 0 <= i < s.len() ==> !is_separator(#[trigger] s[i])
}

/// The path of a staged file: the staging directory, then the identifier and
/// the cleaned client name joined by an underscore.
pub open spec fn staged_path_of(dir: Seq<char>, id: Seq<char>, clean: Seq<char>) -> Seq<char> {
    dir + seq!['/'] + staged_leaf_of(id, clean)
}

/// The last component of a staged file's path.
pub open spec fn staged_leaf_of(id: Seq<char>, clean: Seq<char>) -> Seq<char> {
    id + seq!['_'] + clean
}

/// Joins the staging directory, a file identifier and an already cleaned
/// client name into the path of a staged file.
pub fn join_staged(dir: &str, id: &str, clean: &str) -> (r: String)
    ensures
        r@ == staged_path_of(dir@, id@, clean@),
{
    let mut r = String::from_str(dir);
    r.append("/");
    r.append(id);
    r.append("_");
    r.append(clean);
    proof {
        reveal_strlit("/");
        reveal_strlit("_");
        assert(r@ =~= staged_path_of(dir@, id@, clean@));
    }
    r
}

/// A character of a file identifier: a lowercase hexadecimal digit or a hyphen.
pub open spec fn is_id_char(c: char) -> bool {
    ('0' <= c && c <= '9') || ('a' <= c && c <= 'f') || c == '-'
}

/// A file identifier as the staging store generates them: the 36 characters
/// of a hyphenated UUID.
pub open spec fn is_stage_id(id: Seq<char>) -> bool {
    &&& id.len() == 36
    &&& forall|i: int| 0 <= i < id.len() ==> is_id_char(#[trigger] id[i])
}

/// What `sanitize_filename::sanitize` makes of a client-supplied name.
pub uninterp spec fn sanitized_of(name: Seq<char>) -> Seq<char>;

/// Relies on `sanitize_filename::sanitize`: it only deletes characters (the
/// illegal ones, among them `/` and `\`, control characters, a name made of
/// dots alone) and truncates, so the result holds no separator and an empty
/// name stays empty.
#[verifier::external_body]
fn sanitize(name: &str) -> (r: String)
    ensures
        r@ == sanitized_of(name@),
        has_no_separator(r@),
        name@.len() == 0 ==> r@.len() == 0,
{
    sanitize_filename::sanitize(name)
}

/// Relies on `uuid::Uuid::new_v4` for a random identifier, and on its
/// `Display`, which writes the hyphenated lowercase form of 36 characters.
#[verifier::external_body]
fn fresh_id() -> (r: String)
    ensures
        is_stage_id(r@),
{
    uuid::Uuid::new_v4().to_string()
}

/// A file that an upload is written to: its identifier, the cleaned client
/// name and the full path in the staging directory.
pub struct StagedFile {
    pub id: String,
    pub name: String,
    pub path: String,
}

impl StagedFile {
    /// The file was named by the staging store for `client_name` in `dir`.
    pub open spec fn named_for(&self, dir: Seq<char>, client_name: Seq<char>) -> bool {
        &&& is_stage_id(self.id@)
        &&& self.name@ == sanitized_of(client_name)
        &&& has_no_separator(self.name@)
        &&& self.path@ == staged_path_of(dir, self.id@, self.name@)
    }
}

/// The path in `dir` under which the upload named `client_name` is staged
/// with identifier `id`.
pub fn staged_path(dir: &str, id: &str, client_name: &str) -> (r: String)
    ensures
        r@ == staged_path_of(dir@, id@, sanitized_of(client_name@)),
{
    let clean = sanitize(client_name);
    join_staged(dir, id, clean.as_str())
}

/// Names a new staged file in `dir` for the upload named `client_name`,
/// under a fresh random identifier.
pub fn stage_target(dir: &str, client_name: &str) -> (r: StagedFile)
    ensures
        r.named_for(dir@, client_name@),
{
    let id = fresh_id();
    let name = sanitize(client_name);
    let path = join_staged(dir, id.as_str(), name.as_str());
    StagedFile { id, name, path }
}

/// A staged file never leaves the staging directory: its path is the
/// directory, a separator, and one entry name that holds no separator and is
/// neither `.` nor `..`, whatever name the client sent.
pub proof fn lemma_staged_path_confined(f: StagedFile, dir: Seq<char>, client_name: Seq<char>)
    requires
        f.named_for(dir, client_name),
    ensures
        ({
            let leaf = staged_leaf_of(f.id@, f.name@);
            &&& f.path@ == dir + seq!['/'] + leaf
            &&& has_no_separator(leaf)
            &&& leaf != seq!['.']
            &&& leaf != seq!['.', '.']
        }),
{
    let id = f.id@;
    let clean = f.name@;
    let leaf = staged_leaf_of(id, clean);
    assert forall|i: int| 0 <= i < leaf.len() implies !is_separator(#[trigger] leaf[i]) by {
        if i < id.len() {
            assert(leaf[i] == id[i]);
        } else if i == id.len() {
            assert(leaf[i] == '_');
        } else {
            assert(leaf[i] == clean[i - id.len() - 1]);
        }
    }
    assert(leaf.len() >= 37);
}

/// Stages the file of one upload request while its parts stream in: the
/// first part that carries a filename is written to a new staged file, and
/// the parts after it are not kept.
pub struct Stager {
    dir: String,
    target: Option<StagedFile>,
    failed: bool,
}

impl Stager {
    /// The staging directory.
    pub closed spec fn dir_view(&self) -> Seq<char> {
        self.dir@
    }

    /// The file chosen for this request, once a usable part came.
    pub closed spec fn target_view(&self) -> Option<StagedFile> {
        self.target
    }

    /// Whether creating or writing the staged file failed.
    pub closed spec fn has_failed(&self) -> bool {
        self.failed
    }

    /// A chosen file has a fresh identifier, a name without separators and a
    /// path in the staging directory; only a chosen file can fail.
    pub closed spec fn wf(&self) -> bool {
        &&& self.target matches Some(f) ==> {
            &&& is_stage_id(f.id@)
            &&& has_no_separator(f.name@)
            &&& f.path@ == staged_path_of(self.dir@, f.id@, f.name@)
        }
        &&& self.failed ==> self.target is Some
    }

    /// Starts staging into `dir`, with no part seen yet.
    pub fn new(dir: String) -> (r: Stager)
        ensures
            r.wf(),
            r.dir_view() == dir@,
            r.target_view() is None,
            !r.has_failed(),
    {
        Stager { dir, target: None, failed: false }
    }

    /// A part arrived whose declared filename is `client_name`. Returns the
    /// path to create and write the part's bytes to, or `None` when the part
    /// is not kept.
    pub fn on_part(&mut self, client_name: Option<&str>) -> (r: Option<String>)
        requires
            old(self).wf(),
        ensures
            final(self).wf(),
            final(self).dir_view() == old(self).dir_view(),
            final(self).has_failed() == old(self).has_failed(),
            (old(self).target_view() is None && client_name is Some) ==> {
                &&& final(self).target_view() matches Some(f)
                &&& f.named_for(old(self).dir_view(), client_name.unwrap()@)
                &&& r == Some(f.path)
            },
            !(old(self).target_view() is None && client_name is Some) ==> {
                &&& final(self).target_view() == old(self).target_view()
                &&& r is None
            },
    {
        if self.target.is_some() {
            return None;
        }
        match client_name {
            None => None,
            Some(name) => {
                let f = stage_target(self.dir.as_str(), name);
                let path = f.path.clone();
                proof {
                    assert(path@ == f.path@);
                }
                self.target = Some(f);
                Some(path)
            },
        }
    }

    /// Creating or writing the staged file failed. Returns the path of the
    /// partial file to remove, the first time only.
    pub fn on_write_failed(&mut self) -> (r: Option<String>)
        requires
            old(self).wf(),
        ensures
            final(self).wf(),
            final(self).dir_view() == old(self).dir_view(),
            final(self).target_view() == old(self).target_view(),
            (old(self).target_view() is Some && !old(self).has_failed()) ==> {
                &&& final(self).has_failed()
                &&& r == Some(old(self).target_view().unwrap().path)
            },
            !(old(self).target_view() is Some && !old(self).has_failed()) ==> {
                &&& final(self).has_failed() == old(self).has_failed()
                &&& r is None
            },
    {
        if self.failed {
            return None;
        }
        match &self.target {
            None => None,
            Some(f) => {
                let path = f.path.clone();
                proof {
                    assert(path@ == f.path@);
                }
                self.failed = true;
                Some(path)
            },
        }
    }

    /// The stream of parts ended: the staged file, or why there is none.
    pub fn finish(self) -> (r: Result<StagedFile, UploadError>)
        requires
            self.wf(),
        ensures
            self.has_failed() ==> r == Err::<StagedFile, UploadError>(UploadError::StagingIo),
            (!self.has_failed() && self.target_view() is None) ==> r == Err::<
                StagedFile,
                UploadError,
            >(UploadError::EmptyUpload),
            (!self.has_failed() && self.target_view() is Some) ==> r == Ok::<
                StagedFile,
                UploadError,
            >(self.target_view().unwrap()),
    {
        if self.failed {
            return Err(UploadError::StagingIo);
        }
        match self.target {
            None => Err(UploadError::EmptyUpload),
            Some(f) => Ok(f),
        }
    }
}

} // verus!
