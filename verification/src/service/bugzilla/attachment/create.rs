//! Attachment creation: the settings of an attachment, and its preparation for submission
//! as decisions taken between file operations that the caller performs.
use vstd::prelude::*;

use crate::error::Error;
use crate::objects::bugzilla::{duplicate_flags, flag_views, Flag};
use crate::paths::{file_name, join, path_file_name, path_joined};
use crate::text::{
    chars_of, concat, decode_utf8, encode_utf8, has_prefix, last_lines, owned, spec_last_lines,
    starts_with, str_eq, utf8_error_message,
};
use crate::service::bugzilla::Bugzilla;
use crate::traits::{FromText, ToText};
use crate::web::{join_url, url_join_result};

verus! {

/// Compression variants supported by attachments.
#[derive(Debug, PartialEq, Eq, Structural, Clone, Copy)]
pub enum Compression {
    Bz2,
    Gz,
    Lz,
    Xz,
    Zstd,
}

impl Compression {
    /// Name of the variant as given in arguments and shown to users.
    pub open spec fn spec_name(self) -> Seq<char> {
        match self {
            Compression::Bz2 => "bz2"@,
            Compression::Gz => "gz"@,
            Compression::Lz => "lz"@,
            Compression::Xz => "xz"@,
            Compression::Zstd => "zstd"@,
        }
    }

    /// The first variant, in declaration order, with the given name.
    pub open spec fn spec_from_name(s: Seq<char>) -> Option<Compression> {
        if s == "bz2"@ {
            Some(Compression::Bz2)
        } else if s == "gz"@ {
            Some(Compression::Gz)
        } else if s == "lz"@ {
            Some(Compression::Lz)
        } else if s == "xz"@ {
            Some(Compression::Xz)
        } else if s == "zstd"@ {
            Some(Compression::Zstd)
        } else {
            None
        }
    }

    /// All variants, in declaration order.
    pub open spec fn spec_all() -> Seq<Compression> {
        seq![Compression::Bz2, Compression::Gz, Compression::Lz, Compression::Xz, Compression::Zstd]
    }

    /// Position of the variant in declaration order.
    pub open spec fn spec_index(self) -> nat {
        match self {
            Compression::Bz2 => 0,
            Compression::Gz => 1,
            Compression::Lz => 2,
            Compression::Xz => 3,
            Compression::Zstd => 4,
        }
    }

    /// Position of the variant in declaration order.
    pub fn index(&self) -> (r: u64)
        ensures
            r == self.spec_index(),
    {
        match self {
            Compression::Bz2 => 0,
            Compression::Gz => 1,
            Compression::Lz => 2,
            Compression::Xz => 3,
            Compression::Zstd => 4,
        }
    }

    /// The variant at a position of the declaration order.
    pub proof fn lemma_index(self)
        ensures
            self.spec_index() < Self::spec_all().len(),
            Self::spec_all()[self.spec_index() as int] == self,
    {
    }

    /// All variants, in declaration order.
    pub fn all() -> (r: Vec<Compression>)
        ensures
            r@ == Self::spec_all(),
    {
        let mut r = Vec::new();
        r.push(Compression::Bz2);
        r.push(Compression::Gz);
        r.push(Compression::Lz);
        r.push(Compression::Xz);
        r.push(Compression::Zstd);
        assert(r@ =~= Self::spec_all());
        r
    }
}

impl FromText for Compression {
    open spec fn text_ok(s: Seq<char>) -> bool {
        Self::spec_from_name(s) is Some
    }

    open spec fn text_value(s: Seq<char>, v: Compression) -> bool {
        Self::spec_from_name(s) == Some(v)
    }

    open spec fn text_error(s: Seq<char>) -> Seq<char> {
        "Matching variant not found"@
    }

    fn from_text(s: &str) -> (r: Result<Compression, String>) {
        if str_eq(s, "bz2") {
            return Ok(Compression::Bz2);
        }
        if str_eq(s, "gz") {
            return Ok(Compression::Gz);
        }
        if str_eq(s, "lz") {
            return Ok(Compression::Lz);
        }
        if str_eq(s, "xz") {
            return Ok(Compression::Xz);
        }
        if str_eq(s, "zstd") {
            return Ok(Compression::Zstd);
        }
        Err(owned("Matching variant not found"))
    }
}

impl Compression {
    /// The name of a variant parses back to that variant.
    pub proof fn lemma_text_roundtrip(self)
        ensures
            Self::text_ok(self.spec_text()),
            Self::text_value(self.spec_text(), self),
    {
        reveal_strlit("bz2");
        reveal_strlit("gz");
        reveal_strlit("lz");
        reveal_strlit("xz");
        reveal_strlit("zstd");
        match self {
            Compression::Bz2 => {},
            Compression::Gz => {
                assert("gz"@.len() != "bz2"@.len());
            },
            Compression::Lz => {
                assert("lz"@.len() != "bz2"@.len());
                assert("lz"@[0] != "gz"@[0]);
            },
            Compression::Xz => {
                assert("xz"@.len() != "bz2"@.len());
                assert("xz"@[0] != "gz"@[0]);
                assert("xz"@[0] != "lz"@[0]);
            },
            Compression::Zstd => {
                assert("zstd"@.len() != "bz2"@.len());
                assert("zstd"@.len() != "gz"@.len());
                assert("zstd"@.len() != "lz"@.len());
                assert("zstd"@.len() != "xz"@.len());
            },
        }
    }
}

impl ToText for Compression {
    open spec fn spec_text(&self) -> Seq<char> {
        self.spec_name()
    }

    fn to_text(&self) -> (s: String) {
        match self {
            Compression::Bz2 => owned("bz2"),
            Compression::Gz => owned("gz"),
            Compression::Lz => owned("lz"),
            Compression::Xz => owned("xz"),
            Compression::Zstd => owned("zstd"),
        }
    }
}


impl Compression {
    /// The compression used when none is chosen: xz.
    pub fn default() -> (r: Compression)
        ensures
            r == Compression::Xz,
    {
        Compression::Xz
    }

    /// Command-line tool that performs the compression.
    pub open spec fn spec_cmd(self) -> Seq<char> {
        match self {
            Compression::Bz2 => "bzip2"@,
            Compression::Gz => "gzip"@,
            Compression::Lz => "lzip"@,
            Compression::Xz => "xz"@,
            Compression::Zstd => "zstd"@,
        }
    }

    /// Command-line tool that performs the compression.
    pub fn cmd(&self) -> (r: &'static str)
        ensures
            r@ == self.spec_cmd(),
    {
        match self {
            Compression::Bz2 => "bzip2",
            Compression::Gz => "gzip",
            Compression::Lz => "lzip",
            Compression::Xz => "xz",
            Compression::Zstd => "zstd",
        }
    }
}

/// How a command-line tool that was run ended.
#[derive(Debug)]
pub enum ToolOutcome {
    /// It exited successfully.
    Succeeded,
    /// It exited with a failure status.
    Failed,
    /// It could not be found.
    NotFound,
    /// It could not be run, for the reason given.
    Error(String),
}

/// Why running a tool failed, as reported.
pub open spec fn tool_failure(tool: Seq<char>, o: ToolOutcome) -> Seq<char> {
    match o {
        ToolOutcome::NotFound => tool + " not available"@,
        ToolOutcome::Error(m) => m@,
        _ => Seq::empty(),
    }
}

/// Outcome of running a tool that makes the file `name` out of `subject`: the name when it
/// succeeded, else an invalid value error starting with `what` and the subject, with the
/// reason when the tool could not run.
pub open spec fn tool_result_ok(what: Seq<char>, subject: Seq<char>, tool: Seq<char>, name: Seq<char>, o: ToolOutcome, r: Result<String, Error>) -> bool {
    match o {
        ToolOutcome::Succeeded => r matches Ok(n) && n@ == name,
        ToolOutcome::Failed => r matches Err(e) && e.is_invalid_value(what + subject),
        _ => r matches Err(e) && e.is_invalid_value(what + subject + ": "@ + tool_failure(tool, o)),
    }
}

/// Outcome of running a tool that makes the file `name` out of `subject`.
fn tool_result(what: &str, subject: &str, tool: &str, name: String, o: ToolOutcome) -> (r: Result<String, Error>)
    ensures
        tool_result_ok(what@, subject@, tool@, name@, o, r),
{
    match o {
        ToolOutcome::Succeeded => Ok(name),
        ToolOutcome::Failed => Err(Error::InvalidValue(concat(what, subject))),
        ToolOutcome::NotFound => {
            let a = concat(what, subject);
            let b = concat(a.as_str(), ": ");
            let c = concat(b.as_str(), tool);
            let m = concat(c.as_str(), " not available");
            assert(m@ =~= what@ + subject@ + ": "@ + tool_failure(tool@, ToolOutcome::NotFound));
            Err(Error::InvalidValue(m))
        },
        ToolOutcome::Error(m) => {
            let a = concat(what, subject);
            let b = concat(a.as_str(), ": ");
            let t = concat(b.as_str(), m.as_str());
            assert(t@ =~= what@ + subject@ + ": "@ + m@);
            Err(Error::InvalidValue(t))
        },
    }
}

impl Compression {
    /// Name of the compressed file made of a file: its name with the compression's name as
    /// extension.
    pub fn target_name(&self, file_name: &str) -> (r: String)
        ensures
            r@ == file_name@ + "."@ + self.spec_name(),
    {
        let a = concat(file_name, ".");
        concat(a.as_str(), self.to_text().as_str())
    }

    /// Outcome of compressing the file at `path` into `name` with the compression's tool.
    pub fn result(&self, path: &str, name: String, o: ToolOutcome) -> (r: Result<String, Error>)
        ensures
            tool_result_ok("failed compressing file: "@, path@, self.spec_cmd(), name@, o, r),
    {
        tool_result("failed compressing file: ", path, self.cmd(), name, o)
    }
}

/// Name of the tarball made of a directory: the directory's name with a `.tar` extension.
pub fn tarball_name(dir_name: &str) -> (r: String)
    ensures
        r@ == dir_name@ + ".tar"@,
{
    concat(dir_name, ".tar")
}

/// Outcome of packing a directory into the tarball `dest` (named `name`) with the tool
/// `cmd`.
pub fn tarball_result(dest: &str, cmd: &str, name: String, o: ToolOutcome) -> (r: Result<String, Error>)
    ensures
        tool_result_ok("failed creating tarball: "@, dest@, cmd@, name@, o, r),
{
    tool_result("failed creating tarball: ", dest, cmd, name, o)
}

/// Size in bytes that turns on compression when truncation is requested without a size:
/// 1000 KiB.
pub const TRUNCATION_SIZE: u64 = 1024000;

/// An attachment to submit: a path and how to submit it.
#[derive(Debug)]
pub struct Attachment {
    /// Path to the attachment.
    pub path: String,
    /// Comment related to the attachment.
    pub comment: Option<String>,
    /// Attachment description, by default the submitted file name is used.
    pub description: Option<String>,
    /// Attachment flags.
    pub flags: Option<Vec<Flag>>,
    /// MIME type of the attachment.
    pub mime_type: Option<String>,
    /// Attachment file name, by default the submitted file name is used.
    pub name: Option<String>,
    /// Attachment is a patch file.
    pub is_patch: Option<bool>,
    /// Mark the attachment private on creation.
    pub is_private: Option<bool>,
    /// Compress the attachment using a given compression type.
    pub compress: Option<Compression>,
    /// Automatically compress the attachment if it exceeds a given size in bytes.
    pub auto_compress: Option<u64>,
    /// Automatically truncate plain text attachments if exceeding a number of lines.
    pub auto_truncate: Option<usize>,
}

impl Attachment {
    /// Create a new attachment using a given path.
    pub fn new(path: &str) -> (r: Attachment)
        ensures
            r.path@ == path@,
            r.comment is None && r.description is None && r.flags is None && r.mime_type is None
                && r.name is None && r.is_patch is None && r.is_private is None && r.compress is None
                && r.auto_compress is None && r.auto_truncate is None,
    {
        Attachment {
            path: owned(path),
            comment: None,
            description: None,
            flags: None,
            mime_type: None,
            name: None,
            is_patch: None,
            is_private: None,
            compress: None,
            auto_compress: None,
            auto_truncate: None,
        }
    }

    /// Set the attachment comment.
    pub fn comment(self, value: Option<String>) -> (r: Attachment)
        ensures
            r == (Attachment { comment: value, ..self }),
    {
        let mut r = self;
        r.comment = value;
        r
    }

    /// Set the attachment flags.
    pub fn flags(self, value: Option<Vec<Flag>>) -> (r: Attachment)
        ensures
            r == (Attachment { flags: value, ..self }),
    {
        let mut r = self;
        r.flags = value;
        r
    }

    /// Set the attachment description.
    pub fn description(self, value: Option<String>) -> (r: Attachment)
        ensures
            r == (Attachment { description: value, ..self }),
    {
        let mut r = self;
        r.description = value;
        r
    }

    /// Set the attachment MIME type.
    pub fn mime_type(self, value: Option<String>) -> (r: Attachment)
        ensures
            r == (Attachment { mime_type: value, ..self }),
    {
        let mut r = self;
        r.mime_type = value;
        r
    }

    /// Set the attachment name.
    pub fn name(self, value: Option<String>) -> (r: Attachment)
        ensures
            r == (Attachment { name: value, ..self }),
    {
        let mut r = self;
        r.name = value;
        r
    }

    /// Compress the attachment using a given compression type.
    pub fn compress(self, value: Option<Compression>) -> (r: Attachment)
        ensures
            r == (Attachment { compress: value, ..self }),
    {
        let mut r = self;
        r.compress = value;
        r
    }

    /// Automatically compress the attachment if it exceeds a given size in bytes.
    pub fn auto_compress(self, value: Option<u64>) -> (r: Attachment)
        ensures
            r == (Attachment { auto_compress: value, ..self }),
    {
        let mut r = self;
        r.auto_compress = value;
        r
    }

    /// Attachment is a patch file.
    pub fn is_patch(self, value: Option<bool>) -> (r: Attachment)
        ensures
            r == (Attachment { is_patch: value, ..self }),
    {
        let mut r = self;
        r.is_patch = value;
        r
    }

    /// Mark the attachment private on creation.
    pub fn is_private(self, value: Option<bool>) -> (r: Attachment)
        ensures
            r == (Attachment { is_private: value, ..self }),
    {
        let mut r = self;
        r.is_private = value;
        r
    }

    /// Conditionally truncate a text attachment to the last count of lines; when no
    /// compression size is set, one of 1000 KiB is.
    pub fn auto_truncate(self, value: Option<usize>) -> (r: Attachment)
        ensures
            r.auto_truncate == value,
            r.auto_compress == (if value is Some && self.auto_compress is None {
                Some(TRUNCATION_SIZE)
            } else {
                self.auto_compress
            }),
            r.path == self.path && r.comment == self.comment && r.description == self.description
                && r.flags == self.flags && r.mime_type == self.mime_type && r.name == self.name
                && r.is_patch == self.is_patch && r.is_private == self.is_private
                && r.compress == self.compress,
    {
        let mut r = self;
        if value.is_some() && r.auto_compress.is_none() {
            r.auto_compress = Some(TRUNCATION_SIZE);
        }
        r.auto_truncate = value;
        r
    }
}

/// Attachment as submitted.
#[derive(Debug)]
pub struct RequestAttachment {
    pub ids: Vec<String>,
    pub data: Vec<u8>,
    pub file_name: String,
    pub content_type: String,
    pub summary: String,
    pub comment: String,
    pub is_patch: bool,
    pub is_private: bool,
    pub flags: Option<Vec<Flag>>,
}

/// Texts of a list of strings.
pub open spec fn string_views(s: Seq<String>) -> Seq<Seq<char>> {
    s.map_values(|x: String| x@)
}

/// Whether the size of a file exceeds the compression size, when one is set.
pub open spec fn exceeds(limit: Option<u64>, size: nat) -> bool {
    limit matches Some(x) && x < size
}

/// Number of lines a loaded file is cut down to: set when truncation is requested, the file
/// exceeds the compression size and its media type is textual.
pub open spec fn truncation(a: Attachment, size: nat, mime: Seq<char>) -> Option<usize> {
    if exceeds(a.auto_compress, size) && has_prefix(mime, "text/"@) {
        a.auto_truncate
    } else {
        None
    }
}

/// Whether a file is compressed: a directory target always is, a file when compression
/// was chosen without a size or when it exceeds the size.
pub open spec fn compresses(a: Attachment, is_dir: bool, size: nat) -> bool {
    is_dir || (a.compress is Some && a.auto_compress is None) || exceeds(a.auto_compress, size)
}

/// Whether `r` submits data `data` of media type `mime` under file name `name` for bugs
/// `ids`, with the settings of `a` taking precedence where they are given.
pub open spec fn is_request_attachment(
    r: RequestAttachment,
    a: Attachment,
    ids: Seq<String>,
    data: Seq<u8>,
    mime: Seq<char>,
    name: Seq<char>,
) -> bool {
    &&& string_views(r.ids@) == string_views(ids)
    &&& r.data@ == data
    &&& r.content_type@ == (match a.mime_type {
        Some(m) => m@,
        None => mime,
    })
    &&& r.file_name@ == (match a.name {
        Some(n) => n@,
        None => name,
    })
    &&& r.summary@ == (match a.description {
        Some(d) => d@,
        None => name,
    })
    &&& r.comment@ == (match a.comment {
        Some(c) => c@,
        None => Seq::empty(),
    })
    &&& r.is_patch == (a.is_patch == Some(true))
    &&& r.is_private == (a.is_private == Some(true))
    &&& (r.flags is Some <==> a.flags is Some)
    &&& (r.flags matches Some(f) ==> flag_views(f@) == flag_views(a.flags->0@))
}

/// A copy of a list of strings.
fn duplicate_strings(v: &Vec<String>) -> (r: Vec<String>)
    ensures
        string_views(r@) == string_views(v@),
{
    let mut r: Vec<String> = Vec::new();
    let mut i: usize = 0;
    while i < v.len()
        invariant
            i <= v@.len(),
            string_views(r@) == string_views(v@.subrange(0, i as int)),
        decreases v.len() - i,
    {
        let ghost before = r@;
        r.push(v[i].clone());
        assert(string_views(r@) =~= string_views(before).push(v@[i as int]@));
        assert(v@.subrange(0, i + 1) =~= v@.subrange(0, i as int).push(v@[i as int]));
        i = i + 1;
    }
    assert(v@.subrange(0, v@.len() as int) =~= v@);
    r
}

fn copy_or(value: &Option<String>, fallback: &str) -> (r: String)
    ensures
        r@ == (match value {
            Some(v) => v@,
            None => fallback@,
        }),
{
    match value {
        Some(v) => v.clone(),
        None => owned(fallback),
    }
}

/// Where a file that the preparation works on lives.
#[derive(Debug)]
pub enum Source {
    /// The attachment's own path.
    Target,
    /// A file of this name in the temporary directory.
    Temp(String),
}

/// Step the preparation of an attachment has reached.
#[derive(Debug, PartialEq, Eq, Structural, Clone, Copy)]
pub enum Stage {
    Inspecting,
    Packing,
    Loading,
    Writing,
    Compressing,
    Finished,
}

/// State of the preparation of an attachment.
#[derive(Debug)]
pub struct Build {
    pub stage: Stage,
    /// Temporary directory for transient files.
    pub temp_dir: String,
    pub is_dir: bool,
    pub file_name: String,
    pub source: Source,
    pub data: Vec<u8>,
    pub mime: String,
}

/// Outcome of the file operation the caller was asked for.
#[derive(Debug)]
pub enum BuildEvent {
    /// Whether the target is a directory, and whether that directory is empty.
    Inspected(bool, bool),
    /// File name of the tarball made of the target directory.
    Packed(Result<String, Error>),
    /// Content and detected media type of the file loaded.
    Loaded(Result<(Vec<u8>, String), Error>),
    /// Whether writing the truncated file succeeded; the message of the failure.
    Written(Result<(), String>),
    /// File name, content and detected media type of the compressed file.
    Compressed(Result<(String, Vec<u8>, String), Error>),
}

/// What the caller is asked to do next.
#[derive(Debug)]
pub enum BuildAction {
    /// Tell whether the target is a directory and whether it is empty.
    Inspect,
    /// Pack the target directory into a tarball in the temporary directory.
    Pack,
    /// Read a file and detect its media type.
    Load(Source),
    /// Write data to a file of the given name in the temporary directory.
    Write(String, Vec<u8>),
    /// Compress a file into the temporary directory.
    Compress(Source, Compression),
    /// The attachment is ready for submission.
    Done(RequestAttachment),
    /// Preparation failed.
    Fail(Error),
}

/// Whether an event answers the action taken at a stage.
pub open spec fn event_fits(stage: Stage, e: BuildEvent) -> bool {
    match e {
        BuildEvent::Inspected(_, _) => stage == Stage::Inspecting,
        BuildEvent::Packed(_) => stage == Stage::Packing,
        BuildEvent::Loaded(_) => stage == Stage::Loading,
        BuildEvent::Written(_) => stage == Stage::Writing,
        BuildEvent::Compressed(_) => stage == Stage::Compressing,
    }
}

/// Whether a source names the same file as another.
pub open spec fn same_source(x: Source, y: Source) -> bool {
    match (x, y) {
        (Source::Target, Source::Target) => true,
        (Source::Temp(a), Source::Temp(b)) => a@ == b@,
        _ => false,
    }
}

/// Outcome once the data and media type of a file are settled: compression of the
/// current file when it is due, else the attachment ready for submission.
pub open spec fn settles(
    a: Attachment,
    is_dir: bool,
    source: Source,
    name: Seq<char>,
    data: Seq<u8>,
    mime: Seq<char>,
    ids: Seq<String>,
    r: (Build, BuildAction),
) -> bool {
    if compresses(a, is_dir, data.len()) {
        &&& r.0.stage == Stage::Compressing
        &&& r.0.is_dir == is_dir
        &&& r.1 matches BuildAction::Compress(src, c) && same_source(src, source) && c == (match a.compress {
            Some(x) => x,
            None => Compression::Xz,
        })
    } else {
        &&& r.0.stage == Stage::Finished
        &&& r.1 matches BuildAction::Done(ra) && is_request_attachment(ra, a, ids, data, mime, name)
    }
}

/// Whether the preparation stopped with an invalid value error carrying `m`.
pub open spec fn fails_with(r: (Build, BuildAction), m: Seq<char>) -> bool {
    r.0.stage == Stage::Finished && (r.1 matches BuildAction::Fail(x) && x.is_invalid_value(m))
}

/// A finished state, for a failed or completed preparation.
fn finished(b: Build) -> (r: Build)
    ensures
        r.stage == Stage::Finished,
        r.temp_dir == b.temp_dir,
{
    Build { stage: Stage::Finished, ..b }
}

impl Attachment {
    /// Starts preparing the attachment, with `temp_dir` for transient files: the caller is
    /// asked to inspect the target; a path without a file name is refused.
    pub fn begin(&self, temp_dir: &str) -> (r: (Build, BuildAction))
        ensures
            r.0.temp_dir@ == temp_dir@,
            match path_file_name(self.path@) {
                None => r.0.stage == Stage::Finished && (r.1 matches BuildAction::Fail(e) && e.is_invalid_value(
                    "attachment missing file name: "@ + self.path@,
                )),
                Some(n) => r.0.stage == Stage::Inspecting && r.1 is Inspect && r.0.file_name@ == n
                    && r.0.source is Target && !r.0.is_dir,
            },
    {
        let b = Build {
            stage: Stage::Inspecting,
            temp_dir: owned(temp_dir),
            is_dir: false,
            file_name: String::new(),
            source: Source::Target,
            data: Vec::new(),
            mime: String::new(),
        };
        match file_name(self.path.as_str()) {
            Some(n) => (Build { file_name: n, ..b }, BuildAction::Inspect),
            None => {
                let e = Error::InvalidValue(concat("attachment missing file name: ", self.path.as_str()));
                (finished(b), BuildAction::Fail(e))
            },
        }
    }

    /// With the data and media type settled: asks for compression when it is due, else
    /// gives the attachment ready for submission.
    fn settle(&self, b: Build, ids: &Vec<String>) -> (r: (Build, BuildAction))
        ensures
            r.0.temp_dir == b.temp_dir,
            settles(*self, b.is_dir, b.source, b.file_name@, b.data@, b.mime@, ids@, r),
    {
        let over = match self.auto_compress {
            Some(x) => (x as u128) < (b.data.len() as u128),
            None => false,
        };
        if b.is_dir || (self.compress.is_some() && self.auto_compress.is_none()) || over {
            let c = match self.compress {
                Some(x) => x,
                None => Compression::default(),
            };
            let src = match &b.source {
                Source::Target => Source::Target,
                Source::Temp(n) => Source::Temp(n.clone()),
            };
            (Build { stage: Stage::Compressing, ..b }, BuildAction::Compress(src, c))
        } else {
            let ra = self.request_attachment(ids, &b.data, b.mime.as_str(), b.file_name.as_str());
            (finished(b), BuildAction::Done(ra))
        }
    }

    /// Takes the outcome of the operation last asked for and decides the next one.
    pub fn step(&self, b: Build, e: BuildEvent, ids: &Vec<String>) -> (r: (Build, BuildAction))
        requires
            event_fits(b.stage, e),
        ensures
            r.0.temp_dir == b.temp_dir,
            e matches BuildEvent::Inspected(is_dir, is_empty) ==> (if !is_dir {
                &&& r.0.stage == Stage::Loading
                &&& r.1 matches BuildAction::Load(src) && src is Target
                &&& !r.0.is_dir && r.0.source is Target && r.0.file_name == b.file_name
            } else if self.mime_type is Some {
                fails_with(r, "MIME type invalid for directory targets: "@ + self.mime_type->0@)
            } else if self.is_patch == Some(true) {
                fails_with(r, "patch type invalid for directory targets"@)
            } else if is_empty {
                fails_with(r, "empty directory target: "@ + self.path@)
            } else {
                r.0.stage == Stage::Packing && r.1 is Pack && r.0.is_dir && r.0.file_name == b.file_name
            }),
            e matches BuildEvent::Packed(res) ==> (match res {
                Err(x) => r.0.stage == Stage::Finished && (r.1 matches BuildAction::Fail(y) && y == x),
                Ok(n) => {
                    &&& r.0.stage == Stage::Loading
                    &&& r.1 matches BuildAction::Load(src) && src matches Source::Temp(m) && m@ == n@
                    &&& r.0.source matches Source::Temp(m) && m@ == n@
                    &&& r.0.file_name@ == n@ && r.0.is_dir == b.is_dir
                },
            }),
            e matches BuildEvent::Loaded(res) ==> (match res {
                Err(x) => r.0.stage == Stage::Finished && (r.1 matches BuildAction::Fail(y) && y == x),
                Ok((data, mime)) => match truncation(*self, data@.len(), mime@) {
                    Some(count) => if vstd::utf8::valid_utf8(data@) {
                        let d = vstd::utf8::encode_utf8(
                            spec_last_lines(vstd::utf8::decode_utf8(data@), count as nat),
                        );
                        &&& r.0.stage == Stage::Writing
                        &&& r.1 matches BuildAction::Write(n, w) && n@ == b.file_name@ && w@ == d
                        &&& r.0.data@ == d && r.0.mime@ == mime@ && r.0.file_name == b.file_name
                        &&& r.0.is_dir == b.is_dir
                    } else {
                        fails_with(
                            r,
                            "invalid attachment file: "@ + path_joined(b.temp_dir@, b.file_name@) + ": "@
                                + utf8_error_message(data@),
                        )
                    },
                    None => settles(*self, b.is_dir, b.source, b.file_name@, data@, mime@, ids@, r),
                },
            }),
            e matches BuildEvent::Written(res) ==> (match res {
                Err(m) => fails_with(r, "failed writing truncated file: "@ + m@),
                Ok(_) => settles(
                    *self,
                    b.is_dir,
                    Source::Temp(b.file_name),
                    b.file_name@,
                    b.data@,
                    b.mime@,
                    ids@,
                    r,
                ),
            }),
            e matches BuildEvent::Compressed(res) ==> (match res {
                Err(x) => r.0.stage == Stage::Finished && (r.1 matches BuildAction::Fail(y) && y == x),
                Ok((n, d, m)) => r.0.stage == Stage::Finished && (r.1 matches BuildAction::Done(ra)
                    && is_request_attachment(ra, *self, ids@, d@, m@, n@)),
            }),
    {
        match e {
            BuildEvent::Inspected(is_dir, is_empty) => {
                if !is_dir {
                    (Build { stage: Stage::Loading, is_dir: false, source: Source::Target, ..b }, BuildAction::Load(Source::Target))
                } else if let Some(m) = &self.mime_type {
                    let x = Error::InvalidValue(concat("MIME type invalid for directory targets: ", m.as_str()));
                    (finished(b), BuildAction::Fail(x))
                } else if self.is_patch == Some(true) {
                    let x = Error::InvalidValue(owned("patch type invalid for directory targets"));
                    (finished(b), BuildAction::Fail(x))
                } else if is_empty {
                    let x = Error::InvalidValue(concat("empty directory target: ", self.path.as_str()));
                    (finished(b), BuildAction::Fail(x))
                } else {
                    (Build { stage: Stage::Packing, is_dir: true, ..b }, BuildAction::Pack)
                }
            },
            BuildEvent::Packed(res) => match res {
                Err(x) => (finished(b), BuildAction::Fail(x)),
                Ok(n) => {
                    let src = Source::Temp(n.clone());
                    let next = Build { stage: Stage::Loading, source: Source::Temp(n.clone()), file_name: n, ..b };
                    (next, BuildAction::Load(src))
                },
            },
            BuildEvent::Loaded(res) => match res {
                Err(x) => (finished(b), BuildAction::Fail(x)),
                Ok((data, mime)) => {
                    let over = match self.auto_compress {
                        Some(x) => (x as u128) < (data.len() as u128),
                        None => false,
                    };
                    let textual = starts_with(chars_of(mime.as_str()).as_slice(), chars_of("text/").as_slice());
                    match self.auto_truncate {
                        Some(count) if over && textual => {
                            let ghost raw = data@;
                            match decode_utf8(data) {
                                Ok(text) => {
                                    let kept = last_lines(text.as_str(), count);
                                    let bytes = encode_utf8(kept.as_str());
                                    let w = vstd::slice::slice_to_vec(bytes.as_slice());
                                    let n = b.file_name.clone();
                                    let next = Build { stage: Stage::Writing, data: bytes, mime, ..b };
                                    (next, BuildAction::Write(n, w))
                                },
                                Err(m) => {
                                    let p = join(b.temp_dir.as_str(), b.file_name.as_str());
                                    let a = concat("invalid attachment file: ", p.as_str());
                                    let c = concat(a.as_str(), ": ");
                                    let x = Error::InvalidValue(concat(c.as_str(), m.as_str()));
                                    (finished(b), BuildAction::Fail(x))
                                },
                            }
                        },
                        _ => self.settle(Build { data, mime, ..b }, ids),
                    }
                },
            },
            BuildEvent::Written(res) => match res {
                Err(m) => {
                    let x = Error::InvalidValue(concat("failed writing truncated file: ", m.as_str()));
                    (finished(b), BuildAction::Fail(x))
                },
                Ok(_) => {
                    let src = Source::Temp(b.file_name.clone());
                    self.settle(Build { source: src, ..b }, ids)
                },
            },
            BuildEvent::Compressed(res) => match res {
                Err(x) => (finished(b), BuildAction::Fail(x)),
                Ok((n, d, m)) => {
                    let ra = self.request_attachment(ids, &d, m.as_str(), n.as_str());
                    (finished(b), BuildAction::Done(ra))
                },
            },
        }
    }

    /// The attachment as submitted: given data, media type and file name, with the settings
    /// taking precedence where they are given.
    fn request_attachment(&self, ids: &Vec<String>, data: &Vec<u8>, mime: &str, name: &str) -> (r: RequestAttachment)
        ensures
            is_request_attachment(r, *self, ids@, data@, mime@, name@),
    {
        let ids2 = duplicate_strings(ids);
        let data2 = vstd::slice::slice_to_vec(data.as_slice());
        assert(data2@ == data@);
        let file_name = copy_or(&self.name, name);
        let content_type = copy_or(&self.mime_type, mime);
        let summary = copy_or(&self.description, name);
        let comment = copy_or(&self.comment, "");
        proof {
            reveal_strlit("");
        }
        let is_patch = match self.is_patch {
            Some(x) => x,
            None => false,
        };
        let is_private = match self.is_private {
            Some(x) => x,
            None => false,
        };
        let flags = match &self.flags {
            Some(f) => Some(duplicate_flags(f)),
            None => None,
        };
        assert(comment@ == (match self.comment {
            Some(c) => c@,
            None => Seq::<char>::empty(),
        }));
        RequestAttachment {
            ids: ids2,
            data: data2,
            file_name,
            content_type,
            summary,
            comment,
            is_patch,
            is_private,
            flags,
        }
    }
}


/// Request creating attachments on bugs.
#[derive(Debug)]
pub struct Request {
    pub service: Bugzilla,
    pub ids: Vec<String>,
    pub attachments: Vec<Attachment>,
}

/// Address attachments of the bug `id` are created at, relative to the service base.
pub open spec fn attachment_path(id: Seq<char>) -> Seq<char> {
    "rest/bug/"@ + id + "/attachment"@
}

impl Request {
    /// A request for the given bugs, with no attachments yet.
    pub fn new(service: Bugzilla, ids: Vec<String>) -> (r: Request)
        ensures
            r.service == service,
            r.ids == ids,
            r.attachments@.len() == 0,
    {
        Request { service, ids, attachments: Vec::new() }
    }

    /// Adds attachments after those already held.
    pub fn attachments(self, values: Vec<Attachment>) -> (r: Request)
        ensures
            r.service == self.service,
            r.ids == self.ids,
            r.attachments@ == self.attachments@ + values@,
    {
        let mut r = self;
        let mut v = values;
        r.attachments.append(&mut v);
        r
    }

    /// Address attachments are created at: that of the first bug. No bug is an invalid
    /// request; an address the URL parser refuses is an invalid URL.
    pub fn url(&self) -> (r: Result<String, Error>)
        ensures
            self.ids@.len() == 0 ==> (r matches Err(e) && e.is_invalid_request("no IDs specified"@)),
            self.ids@.len() > 0 ==> match url_join_result(self.service.config.spec_base(), attachment_path(self.ids@[0]@)) {
                Ok(u) => r matches Ok(x) && x@ == u,
                Err(m) => r matches Err(Error::InvalidUrl(x)) && x@ == m,
            },
    {
        if self.ids.len() == 0 {
            return Err(Error::InvalidRequest(owned("no IDs specified")));
        }
        let a = concat("rest/bug/", self.ids[0].as_str());
        let path = concat(a.as_str(), "/attachment");
        match join_url(self.service.config.base(), path.as_str()) {
            Ok(u) => Ok(u),
            Err(m) => Err(Error::InvalidUrl(m)),
        }
    }

    /// Checks the request can be sent, giving its address: it needs a bug and an
    /// attachment.
    pub fn check(&self) -> (r: Result<String, Error>)
        ensures
            self.ids@.len() == 0 ==> (r matches Err(e) && e.is_invalid_request("no IDs specified"@)),
            self.ids@.len() > 0 ==> match url_join_result(self.service.config.spec_base(), attachment_path(self.ids@[0]@)) {
                Ok(u) => if self.attachments@.len() == 0 {
                    r matches Err(e) && e.is_invalid_request("no attachments specified"@)
                } else {
                    r matches Ok(x) && x@ == u
                },
                Err(m) => r matches Err(Error::InvalidUrl(x)) && x@ == m,
            },
    {
        let url = self.url()?;
        if self.attachments.len() == 0 {
            return Err(Error::InvalidRequest(owned("no attachments specified")));
        }
        Ok(url)
    }
}




/// An attachment is compressed when its target is a directory, when compression was
/// chosen without a size, or when the file exceeds the size; otherwise it is not. Only a
/// textual file that exceeds the size is truncated.
pub proof fn lemma_compression_rule(a: Attachment, size: nat, mime: Seq<char>)
    ensures
        compresses(a, true, size),
        a.compress is Some && a.auto_compress is None ==> compresses(a, false, size),
        a.auto_compress matches Some(x) && x < size ==> compresses(a, false, size),
        a.compress is None && a.auto_compress is None ==> !compresses(a, false, size),
        a.auto_compress matches Some(x) && size <= x ==> !compresses(a, false, size),
        !has_prefix(mime, "text/"@) ==> truncation(a, size, mime) is None,
        !exceeds(a.auto_compress, size) ==> truncation(a, size, mime) is None,
{
}

/// Media type that the `infer` crate recognizes from the leading bytes of data, if any.
pub uninterp spec fn inferred_mime(data: Seq<u8>) -> Option<Seq<char>>;

/// `infer::get` followed by `Type::mime_type`. Claimed: the outcome is the name
/// `inferred_mime` of the data.
#[verifier::external_body]
fn infer_mime(data: &[u8]) -> (r: Option<String>)
    ensures
        match r {
            Some(m) => inferred_mime(data@) == Some(m@),
            None => inferred_mime(data@) is None,
        },
{
    match infer::get(data) {
        Some(kind) => Some(kind.mime_type().to_string()),
        None => None,
    }
}

/// Media type of file data: the one the system detected, else the one recognized from
/// the data's leading bytes, else plain text for valid UTF-8 and generic binary data
/// otherwise.
pub open spec fn spec_mime_type(detected: Option<Seq<char>>, data: Seq<u8>) -> Seq<char> {
    match detected {
        Some(m) => m,
        None => match inferred_mime(data) {
            Some(m) => m,
            None => if vstd::utf8::valid_utf8(data) {
                "text/plain"@
            } else {
                "application/octet-stream"@
            },
        },
    }
}

/// Media type of file data, given the type the system detected, when it could.
pub fn mime_type_of(detected: Option<String>, data: &[u8]) -> (r: String)
    ensures
        r@ == spec_mime_type(match detected {
            Some(m) => Some(m@),
            None => None,
        }, data@),
{
    match detected {
        Some(m) => m,
        None => match infer_mime(data) {
            Some(m) => m,
            None => if crate::text::is_utf8(data) {
                owned("text/plain")
            } else {
                owned("application/octet-stream")
            },
        },
    }
}

} // verus!
