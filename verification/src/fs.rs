//! The layout of the media and data folders.
//!
//! Paths are Unix paths held as text. The folders themselves are created and checked by the
//! application around this library; here are the names and paths of what goes in them.

use vstd::prelude::*;

use crate::models::{CopyOperation, MediaLocation, MediaType};
use crate::text::{decimal_text, hex_text, push_decimal, push_hex};

verus! {

/// Name of the file that is used to save the disc information extracted by MakeMKV.
pub const DISC_INFO_FILENAME: &'static str = "disc_info.json";

/// Name of the file that is used to log MakeMKV output when running the info command.
pub const MAKEMKV_INFO_LOG_FILENAME: &'static str = "makemkv-info.log";

/// Name of the file that is used to log MakeMKV output when running the copy (mkv) command.
pub const MAKEMKV_COPY_LOG_FILENAME: &'static str = "makemkv-copy.log";

/// What `Path::join` gives on Unix: an absolute path replaces the base; otherwise the relative
/// path is appended after a `/`, which is not doubled when the base ends with one and not added
/// to an empty base.
pub open spec fn path_join(base: Seq<char>, rel: Seq<char>) -> Seq<char> {
    if rel.len() > 0 && rel[0] == '/' {
        rel
    } else if base.len() == 0 || base.last() == '/' {
        base + rel
    } else {
        base + seq!['/'] + rel
    }
}

/// Joins a path to a base path, as `Path::join` does on Unix.
pub fn join_path(base: &str, rel: &str) -> (p: String)
    ensures
        p@ == path_join(base@, rel@),
{
    if !rel.is_empty() && rel.get_char(0) == '/' {
        return rel.to_owned();
    }
    let mut out = base.to_owned();
    let n = base.unicode_len();
    if n > 0 && base.get_char(n - 1) != '/' {
        proof {
            reveal_strlit("/");
        }
        out.append("/");
    }
    out.append(rel);
    out
}

/// File path settings.
#[derive(Clone, Debug)]
pub struct Settings {
    /// Path to the media inbox directory, where titles copied from a disc are first saved.
    pub inbox: String,
    /// Path to the media library directory, used by the streaming service.
    pub library: String,
    /// Path to the archive directory, for videos not moved to the library.
    pub archive: String,
    /// Path to the directory where application data is stored.
    pub data: String,
}

impl Settings {
    /// A copy of the settings.
    pub fn duplicate(&self) -> (s: Settings)
        ensures
            s.inbox@ == self.inbox@,
            s.library@ == self.library@,
            s.archive@ == self.archive@,
            s.data@ == self.data@,
    {
        Settings {
            inbox: self.inbox.clone(),
            library: self.library.clone(),
            archive: self.archive.clone(),
            data: self.data.clone(),
        }
    }
}

impl Default for Settings {
    fn default() -> (s: Settings)
        ensures
            s.inbox@.len() == 0,
            s.library@.len() == 0,
            s.archive@.len() == 0,
            s.data@.len() == 0,
    {
        Settings { inbox: String::new(), library: String::new(), archive: String::new(), data: String::new() }
    }
}

/// The name of the inbox folder of a copy operation: the operation id in eight hexadecimal
/// digits, the title, the season for shows, and the disc number, as in
/// `0x00003039.The Matrix.D1` or `0x0000D431.Breaking Bad.S5.D3`.
pub open spec fn inbox_folder_text(op: CopyOperation) -> Seq<char> {
    let head = seq!['0', 'x'] + hex_text(op.id as nat, 8) + seq!['.'] + op.title@;
    match op.media_type {
        MediaType::Movie => head + seq!['.', 'D'] + decimal_text(op.disc as nat),
        MediaType::Show => head + seq!['.', 'S'] + decimal_text(op.season as nat) + seq!['.', 'D']
            + decimal_text(op.disc as nat),
    }
}

/// Container for root directory paths.
#[derive(Clone, Debug)]
pub struct FileSystem {
    /// Paths to the different directories used by the application.
    pub settings: Settings,
}

impl Default for FileSystem {
    fn default() -> (f: FileSystem)
        ensures
            f.settings.inbox@.len() == 0,
            f.settings.library@.len() == 0,
            f.settings.archive@.len() == 0,
            f.settings.data@.len() == 0,
    {
        FileSystem { settings: Settings::default() }
    }
}

impl FileSystem {
    /// Creates a [`FileSystem`] instance.
    pub fn new(settings: &Settings) -> (f: FileSystem)
        ensures
            f.settings.inbox@ == settings.inbox@,
            f.settings.library@ == settings.library@,
            f.settings.archive@ == settings.archive@,
            f.settings.data@ == settings.data@,
    {
        FileSystem { settings: settings.duplicate() }
    }

    /// Returns the path to a file with the provided name in the data directory.
    pub fn data_path(&self, name: &str) -> (p: String)
        ensures
            p@ == path_join(self.settings.data@, name@),
    {
        join_path(self.settings.data.as_str(), name)
    }

    /// Returns the name of the inbox folder based off the provided copy operation.
    pub fn inbox_folder_name(&self, copy_operation: &CopyOperation) -> (n: String)
        ensures
            n@ == inbox_folder_text(*copy_operation),
    {
        proof {
            reveal_strlit("0x");
            reveal_strlit(".");
            reveal_strlit(".D");
            reveal_strlit(".S");
        }
        let mut name = String::new();
        name.append("0x");
        push_hex(&mut name, copy_operation.id as u64, 8);
        name.append(".");
        name.append(copy_operation.title.as_str());
        match copy_operation.media_type {
            MediaType::Movie => {
                name.append(".D");
                push_decimal(&mut name, copy_operation.disc as u64);
            },
            MediaType::Show => {
                name.append(".S");
                push_decimal(&mut name, copy_operation.season as u64);
                name.append(".D");
                push_decimal(&mut name, copy_operation.disc as u64);
            },
        }
        assert(name@ =~= inbox_folder_text(*copy_operation));
        name
    }

    /// Returns the path to the inbox folder for a copy operation.
    pub fn inbox_folder(&self, copy_operation: &CopyOperation) -> (p: String)
        ensures
            p@ == path_join(self.settings.inbox@, inbox_folder_text(*copy_operation)),
    {
        let name = self.inbox_folder_name(copy_operation);
        join_path(self.settings.inbox.as_str(), name.as_str())
    }

    /// Returns the media location for a file created by a copy operation.
    pub fn inbox_location(&self, copy_operation: &CopyOperation, filename: &str) -> (l: MediaLocation)
        ensures
            l matches MediaLocation::Inbox(p) && p@ == path_join(
                inbox_folder_text(*copy_operation),
                filename@,
            ),
    {
        let name = self.inbox_folder_name(copy_operation);
        MediaLocation::Inbox(join_path(name.as_str(), filename))
    }

    /// Returns the path to the disc info file for a copy operation.
    pub fn disc_info_file(&self, copy_operation: &CopyOperation) -> (p: String)
        ensures
            p@ == path_join(
                path_join(self.settings.inbox@, inbox_folder_text(*copy_operation)),
                DISC_INFO_FILENAME@,
            ),
    {
        let folder = self.inbox_folder(copy_operation);
        join_path(folder.as_str(), DISC_INFO_FILENAME)
    }

    /// Returns the path to the log file created when gathering disc info during a copy
    /// operation.
    pub fn mkv_info_log_file(&self, copy_operation: &CopyOperation) -> (p: String)
        ensures
            p@ == path_join(
                path_join(self.settings.inbox@, inbox_folder_text(*copy_operation)),
                MAKEMKV_INFO_LOG_FILENAME@,
            ),
    {
        let folder = self.inbox_folder(copy_operation);
        join_path(folder.as_str(), MAKEMKV_INFO_LOG_FILENAME)
    }

    /// Returns the path to the log file created when copying a disc.
    pub fn mkv_copy_log_file(&self, copy_operation: &CopyOperation) -> (p: String)
        ensures
            p@ == path_join(
                path_join(self.settings.inbox@, inbox_folder_text(*copy_operation)),
                MAKEMKV_COPY_LOG_FILENAME@,
            ),
    {
        let folder = self.inbox_folder(copy_operation);
        join_path(folder.as_str(), MAKEMKV_COPY_LOG_FILENAME)
    }

    /// Returns the path for a file: its path joined to the root folder of its area, or `None`
    /// for a deleted file.
    pub fn path(&self, location: &MediaLocation) -> (p: Option<String>)
        ensures
            match location {
                MediaLocation::Inbox(rel) => p matches Some(s) && s@ == path_join(
                    self.settings.inbox@,
                    rel@,
                ),
                MediaLocation::Library(rel) => p matches Some(s) && s@ == path_join(
                    self.settings.library@,
                    rel@,
                ),
                MediaLocation::Archive(rel) => p matches Some(s) && s@ == path_join(
                    self.settings.archive@,
                    rel@,
                ),
                MediaLocation::Deleted => p is None,
            },
    {
        match location {
            MediaLocation::Inbox(rel) => Some(join_path(self.settings.inbox.as_str(), rel.as_str())),
            MediaLocation::Library(rel) => Some(
                join_path(self.settings.library.as_str(), rel.as_str()),
            ),
            MediaLocation::Archive(rel) => Some(
                join_path(self.settings.archive.as_str(), rel.as_str()),
            ),
            MediaLocation::Deleted => None,
        }
    }
}

/// Container for root directory paths.
#[derive(Debug)]
pub struct Folder {
    /// Path to the media inbox directory.
    pub inbox: String,
    /// Path to the media library directory.
    pub library: String,
    /// Path to the archive directory.
    pub archive: String,
    /// Path to the directory where application data should be stored.
    pub data: String,
}

impl Folder {
    /// Creates a [`Folder`] instance.
    pub fn new(inbox: &str, library: &str, archive: &str, data: &str) -> (f: Folder)
        ensures
            f.inbox@ == inbox@,
            f.library@ == library@,
            f.archive@ == archive@,
            f.data@ == data@,
    {
        Folder {
            inbox: inbox.to_owned(),
            library: library.to_owned(),
            archive: archive.to_owned(),
            data: data.to_owned(),
        }
    }
}


/// Joining is associative for relative paths: joining a base with `a` joined with `b` is
/// joining the base with `a`, then with `b`, when `a` is a non-empty relative path and `b` is
/// relative.
pub proof fn lemma_join_assoc(base: Seq<char>, a: Seq<char>, b: Seq<char>)
    requires
        a.len() > 0,
        a[0] != '/',
        b.len() == 0 || b[0] != '/',
    ensures
        path_join(base, path_join(a, b)) == path_join(path_join(base, a), b),
{
    let ab = path_join(a, b);
    assert(ab.len() > 0 && ab[0] == a[0]);
    let ba = path_join(base, a);
    assert(ba.len() > 0);
    assert(ba.last() == a.last());
    if base.len() == 0 || base.last() == '/' {
        if a.last() == '/' {
            assert(base + (a + b) =~= (base + a) + b);
        } else {
            assert(base + (a + seq!['/'] + b) =~= (base + a) + seq!['/'] + b);
        }
    } else {
        if a.last() == '/' {
            assert(base + seq!['/'] + (a + b) =~= (base + seq!['/'] + a) + b);
        } else {
            assert(base + seq!['/'] + (a + seq!['/'] + b) =~= (base + seq!['/'] + a) + seq!['/'] + b);
        }
    }
}

/// The file that a copy operation writes at its inbox location lies in the operation's inbox
/// folder: the path of the location is the inbox folder joined with the file name.
pub proof fn lemma_inbox_location_in_folder(inbox: Seq<char>, op: CopyOperation, filename: Seq<char>)
    requires
        filename.len() == 0 || filename[0] != '/',
    ensures
        path_join(inbox, path_join(inbox_folder_text(op), filename)) == path_join(
            path_join(inbox, inbox_folder_text(op)),
            filename,
        ),
{
    let name = inbox_folder_text(op);
    assert(name[0] == '0');
    lemma_join_assoc(inbox, name, filename);
}

/// The path of a temporary file or directory: a name in the temporary folder. The application
/// deletes what is there when it is done with it.
#[derive(Debug)]
pub struct TempFile {
    path: String,
}

impl TempFile {
    pub closed spec fn spec_path(&self) -> Seq<char> {
        self.path@
    }

    /// The temporary path with the name `file_name` in the temporary folder `temp_dir`.
    pub fn new_in(temp_dir: &str, file_name: &str) -> (t: TempFile)
        ensures
            t.spec_path() == path_join(temp_dir@, file_name@),
    {
        TempFile { path: join_path(temp_dir, file_name) }
    }

    /// Returns the path of the temporary file or directory.
    pub fn path(&self) -> (p: &str)
        ensures
            p@ == self.spec_path(),
    {
        self.path.as_str()
    }
}

/// A numeral in base sixteen written with `width` digits has exactly `width` characters.
proof fn lemma_hex_width(n: nat, width: nat)
    ensures
        hex_text(n, width).len() == width,
    decreases width,
{
    if width > 0 {
        lemma_hex_width(n / 16, (width - 1) as nat);
    }
}

/// The inbox folder name of an operation starts with `0x`, the operation id in exactly eight
/// hexadecimal digits and a `.`, followed by the title.
pub proof fn lemma_inbox_folder_prefix(op: CopyOperation)
    ensures
        inbox_folder_text(op).subrange(0, 2) == seq!['0', 'x'],
        inbox_folder_text(op).subrange(2, 10) == hex_text(op.id as nat, 8),
        inbox_folder_text(op)[10] == '.',
        inbox_folder_text(op).subrange(11, 11 + op.title@.len() as int) == op.title@,
{
    lemma_hex_width(op.id as nat, 8);
    let t = inbox_folder_text(op);
    let head = seq!['0', 'x'] + hex_text(op.id as nat, 8) + seq!['.'] + op.title@;
    assert(t.subrange(0, head.len() as int) =~= head);
    assert(head.subrange(0, 2) =~= seq!['0', 'x']);
    assert(head.subrange(2, 10) =~= hex_text(op.id as nat, 8));
    assert(head.subrange(11, 11 + op.title@.len() as int) =~= op.title@);
    assert(t.subrange(0, 2) =~= head.subrange(0, 2));
    assert(t.subrange(2, 10) =~= head.subrange(2, 10));
    assert(t.subrange(11, 11 + op.title@.len() as int) =~= head.subrange(11, 11 + op.title@.len() as int));
}

} // verus!
