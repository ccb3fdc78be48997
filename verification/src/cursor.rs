//! Paths as the server sees them, the cursor that keeps a session inside its
//! root, and the listing of a directory.

use crate::error::{IoErrorKind, QuickTransferError};
use crate::messages::{
    CdAnswer, DirectoryContents, DirectoryPosition, FileFail, MessageDirectoryContents,
    MkdirAnswer, RemoveAnswer, RenameAnswer,
};
use vstd::prelude::*;
use vstd::string::StringExecFns;
use vstd::utf8::encode_utf8;

verus! {

/// A canonical absolute path, held as its components from the top down.
#[derive(Clone, Debug, PartialEq, Eq)]
pub struct ServedPath {
    pub components: Vec<String>,
}

impl View for ServedPath {
    type V = Seq<Seq<char>>;

    open spec fn view(&self) -> Seq<Seq<char>> {
        self.components@.map_values(|component: String| component@)
    }
}

/// Whether `path` is `root` or lies below it: whether the components of
/// `root` are the first components of `path`.
pub open spec fn within(root: Seq<Seq<char>>, path: Seq<Seq<char>>) -> bool {
    root.is_prefix_of(path)
}

impl ServedPath {
    /// The path with the given components.
    pub fn new(components: Vec<String>) -> (out: ServedPath)
        ensures
            out.components == components,
    {
        ServedPath { components }
    }

    /// Whether the two paths have the same components.
    pub fn same_as(&self, other: &ServedPath) -> (out: bool)
        ensures
            out == (self@ == other@),
    {
        if self.components.len() != other.components.len() {
            assert(self@.len() != other@.len());
            return false;
        }
        let mut i: usize = 0;
        while i < self.components.len()
            invariant
                i <= self.components@.len(),
                self.components@.len() == other.components@.len(),
                forall|j: int| 0 <= j < i ==> self@[j] == other@[j],
            decreases self.components@.len() - i,
        {
            if self.components[i] != other.components[i] {
                assert(self@[i as int] != other@[i as int]);
                return false;
            }
            i += 1;
        }
        assert(self@ =~= other@);
        true
    }

    /// Whether this path is `base` or lies below it.
    pub fn starts_with(&self, base: &ServedPath) -> (out: bool)
        ensures
            out == within(base@, self@),
    {
        if base.components.len() > self.components.len() {
            return false;
        }
        let mut i: usize = 0;
        while i < base.components.len()
            invariant
                i <= base.components@.len(),
                base.components@.len() <= self.components@.len(),
                forall|j: int| 0 <= j < i ==> self@[j] == base@[j],
            decreases base.components@.len() - i,
        {
            if self.components[i] != base.components[i] {
                assert(self@.subrange(0, base@.len() as int)[i as int] != base@[i as int]);
                return false;
            }
            i += 1;
        }
        assert(base@ =~= self@.subrange(0, base@.len() as int));
        true
    }

    /// A copy of the path.
    pub fn duplicate(&self) -> (out: ServedPath)
        ensures
            out@ == self@,
    {
        let mut components: Vec<String> = Vec::new();
        let mut i: usize = 0;
        while i < self.components.len()
            invariant
                i <= self.components@.len(),
                components@.len() == i,
                forall|j: int| 0 <= j < i ==> components@[j]@ == self@[j],
            decreases self.components@.len() - i,
        {
            components.push(self.components[i].clone());
            i += 1;
        }
        let out = ServedPath { components };
        assert(out@ =~= self@);
        out
    }
}

/// Whether a byte separates the components of a path: a slash or a
/// backslash. In UTF-8 such a byte is never part of another character.
pub open spec fn is_separator(byte: u8) -> bool {
    byte == 0x2f || byte == 0x5c
}

/// Whether a name can only name an entry of the directory it is used in: it
/// is not empty, holds no separator of path components, and is neither the
/// directory itself nor its parent.
pub open spec fn plain_name(name: Seq<u8>) -> bool {
    &&& name.len() > 0
    &&& forall|i: int| 0 <= i < name.len() ==> !is_separator(#[trigger] name[i])
    &&& name != seq![0x2eu8]
    &&& name != seq![0x2eu8, 0x2eu8]
}

/// Whether a name can only name an entry of the directory it is used in.
pub fn is_plain_name(name: &str) -> (out: bool)
    ensures
        out == plain_name(encode_utf8(name@)),
{
    let bytes = name.as_bytes();
    if bytes.len() == 0 {
        return false;
    }
    if bytes.len() == 1 && bytes[0] == 0x2e {
        assert(bytes@ =~= seq![0x2eu8]);
        return false;
    }
    if bytes.len() == 2 && bytes[0] == 0x2e && bytes[1] == 0x2e {
        assert(bytes@ =~= seq![0x2eu8, 0x2eu8]);
        return false;
    }
    let mut i: usize = 0;
    while i < bytes.len()
        invariant
            i <= bytes@.len(),
            bytes@ == encode_utf8(name@),
            forall|j: int| 0 <= j < i ==> !is_separator(#[trigger] bytes@[j]),
        decreases bytes@.len() - i,
    {
        if bytes[i] == 0x2f || bytes[i] == 0x5c {
            assert(is_separator(bytes@[i as int]));
            return false;
        }
        i += 1;
    }
    assert(bytes@ != seq![0x2eu8]) by {
        if bytes@.len() == 1 {
            assert(seq![0x2eu8][0] == 0x2e);
        }
    }
    assert(bytes@ != seq![0x2eu8, 0x2eu8]) by {
        if bytes@.len() == 2 {
            assert(seq![0x2eu8, 0x2eu8][0] == 0x2e);
            assert(seq![0x2eu8, 0x2eu8][1] == 0x2e);
        }
    }
    true
}

/// What the file system says of a path that a request names.
#[derive(Clone, Debug, PartialEq, Eq)]
pub enum PathProbe {
    /// Nothing is there.
    Missing,
    /// A file is there, with this canonical path.
    File(ServedPath),
    /// A directory is there, with this canonical path.
    Directory(ServedPath),
}

/// A probe, with its path as sequences.
pub enum PathProbeView {
    Missing,
    File(Seq<Seq<char>>),
    Directory(Seq<Seq<char>>),
}

impl View for PathProbe {
    type V = PathProbeView;

    open spec fn view(&self) -> PathProbeView {
        match *self {
            PathProbe::Missing => PathProbeView::Missing,
            PathProbe::File(path) => PathProbeView::File(path@),
            PathProbe::Directory(path) => PathProbeView::Directory(path@),
        }
    }
}

/// What the file system says of a path at which an entry is to be made.
#[derive(Clone, Debug, PartialEq, Eq)]
pub enum CreationProbe {
    /// Something is there already.
    Exists,
    /// Nothing is there, and the directory that would hold the entry cannot
    /// be resolved.
    Unresolvable,
    /// Nothing is there; the entry would have this canonical path.
    Resolved(ServedPath),
}

/// A probe for a new entry, with its path as sequences.
pub enum CreationProbeView {
    Exists,
    Unresolvable,
    Resolved(Seq<Seq<char>>),
}

impl View for CreationProbe {
    type V = CreationProbeView;

    open spec fn view(&self) -> CreationProbeView {
        match *self {
            CreationProbe::Exists => CreationProbeView::Exists,
            CreationProbe::Unresolvable => CreationProbeView::Unresolvable,
            CreationProbe::Resolved(path) => CreationProbeView::Resolved(path@),
        }
    }
}

/// Why a change of directory is refused, if it is: the target must be a
/// directory, lie within the root, and differ from the current directory.
pub open spec fn cd_refusal(
    current: Seq<Seq<char>>,
    root: Seq<Seq<char>>,
    probe: PathProbeView,
) -> Option<CdAnswer> {
    match probe {
        PathProbeView::Directory(path) => if !within(root, path) || path == current {
            Some(CdAnswer::IllegalDirectory)
        } else {
            None
        },
        _ => Some(CdAnswer::DirectoryDoesNotExist),
    }
}

/// The current directory after a request to change it.
pub open spec fn cd_target(
    current: Seq<Seq<char>>,
    root: Seq<Seq<char>>,
    probe: PathProbeView,
) -> Seq<Seq<char>> {
    match probe {
        PathProbeView::Directory(path) => if cd_refusal(current, root, probe) is None {
            path
        } else {
            current
        },
        _ => current,
    }
}

/// The current directory after a sequence of requests to change it.
pub open spec fn after_cds(
    current: Seq<Seq<char>>,
    root: Seq<Seq<char>>,
    probes: Seq<PathProbeView>,
) -> Seq<Seq<char>>
    decreases probes.len(),
{
    if probes.len() == 0 {
        current
    } else {
        cd_target(after_cds(current, root, probes.drop_last()), root, probes.last())
    }
}

/// Whatever directories a client asks for, one after another and starting at
/// the root, and whatever the file system says of them, the current
/// directory stays within the root.
pub proof fn lemma_cd_sequence_stays_within_root(
    root: Seq<Seq<char>>,
    probes: Seq<PathProbeView>,
)
    ensures
        within(root, after_cds(root, root, probes)),
    decreases probes.len(),
{
    if probes.len() == 0 {
        assert(root =~= root.subrange(0, root.len() as int));
    } else {
        lemma_cd_sequence_stays_within_root(root, probes.drop_last());
    }
}

/// A request to enter a directory outside the root, such as the parent of
/// the root, is answered as illegal and changes nothing.
pub proof fn lemma_cd_outside_root_is_illegal(
    current: Seq<Seq<char>>,
    root: Seq<Seq<char>>,
    path: Seq<Seq<char>>,
)
    requires
        !within(root, path),
    ensures
        cd_refusal(current, root, PathProbeView::Directory(path)) == Some(
            CdAnswer::IllegalDirectory,
        ),
        cd_target(current, root, PathProbeView::Directory(path)) == current,
{
}

/// Why a download is refused, if it is: containment is looked at first, then
/// whether a file is there.
pub open spec fn download_refusal(root: Seq<Seq<char>>, probe: PathProbeView) -> Option<FileFail> {
    match probe {
        PathProbeView::Missing => Some(FileFail::FileDoesNotExist),
        PathProbeView::File(path) => if !within(root, path) {
            Some(FileFail::IllegalFile)
        } else {
            None
        },
        PathProbeView::Directory(path) => if !within(root, path) {
            Some(FileFail::IllegalFile)
        } else {
            Some(FileFail::FileDoesNotExist)
        },
    }
}

/// Why a directory is not made, if it is not: nothing may be there yet, and
/// the new directory must lie within the root and differ from the current
/// directory.
pub open spec fn mkdir_refusal(
    current: Seq<Seq<char>>,
    root: Seq<Seq<char>>,
    probe: CreationProbeView,
) -> Option<MkdirAnswer> {
    match probe {
        CreationProbeView::Exists => Some(MkdirAnswer::DirectoryAlreadyExists),
        CreationProbeView::Unresolvable => Some(MkdirAnswer::ErrorCreatingDirectory),
        CreationProbeView::Resolved(path) => if !within(root, path) || path == current {
            Some(MkdirAnswer::IllegalDirectory)
        } else {
            None
        },
    }
}

/// Why an entry is not renamed, if it is not: the source must exist and lie
/// within the root, and so must the place it is to move to.
pub open spec fn rename_refusal(
    root: Seq<Seq<char>>,
    source: PathProbeView,
    destination: Option<Seq<Seq<char>>>,
) -> Option<RenameAnswer> {
    match source {
        PathProbeView::Missing => Some(RenameAnswer::FileDirDoesNotExist),
        PathProbeView::File(path) | PathProbeView::Directory(path) => if !within(root, path) {
            Some(RenameAnswer::IllegalFileDir)
        } else {
            match destination {
                None => Some(RenameAnswer::ErrorRenaming),
                Some(target) => if !within(root, target) {
                    Some(RenameAnswer::IllegalFileDir)
                } else {
                    None
                },
            }
        },
    }
}

/// Why an entry is not removed, if it is not: it must exist and lie within
/// the root.
pub open spec fn remove_refusal(root: Seq<Seq<char>>, probe: PathProbeView) -> Option<
    RemoveAnswer,
> {
    match probe {
        PathProbeView::Missing => Some(RemoveAnswer::FileDirDoesNotExist),
        PathProbeView::File(path) | PathProbeView::Directory(path) => if !within(root, path) {
            Some(RemoveAnswer::IllegalFileDir)
        } else {
            None
        },
    }
}

/// The answer after the file system was asked to remove an entry. A
/// directory that still has entries is never emptied for the client.
pub open spec fn removal_answer(was_directory: bool, failure: Option<IoErrorKind>) -> RemoveAnswer {
    match failure {
        None => RemoveAnswer::Success,
        Some(kind) => if was_directory && kind == IoErrorKind::DirectoryNotEmpty {
            RemoveAnswer::DirectoryNotEmpty
        } else {
            RemoveAnswer::ErrorRemoving
        },
    }
}

/// The path of a resolved destination, as sequences.
pub open spec fn destination_view(destination: Option<ServedPath>) -> Option<Seq<Seq<char>>> {
    match destination {
        Some(path) => Some(path@),
        None => None,
    }
}

/// Where a session stands in the served tree. The current directory is the
/// root or lies below it, at all times.
#[derive(Debug)]
pub struct FilesystemCursor {
    current_path: ServedPath,
    root_path: ServedPath,
}

impl FilesystemCursor {
    #[verifier::type_invariant]
    spec fn contained(&self) -> bool {
        within(self.root_path@, self.current_path@)
    }

    /// The current directory.
    pub closed spec fn current(&self) -> Seq<Seq<char>> {
        self.current_path@
    }

    /// The root of the served tree.
    pub closed spec fn root(&self) -> Seq<Seq<char>> {
        self.root_path@
    }

    /// A cursor that stands at the root.
    pub fn new(root: ServedPath) -> (out: FilesystemCursor)
        ensures
            out.root() == root@,
            out.current() == root@,
    {
        let current_path = root.duplicate();
        assert(root@ =~= root@.subrange(0, root@.len() as int));
        FilesystemCursor { current_path, root_path: root }
    }

    /// The current directory, which lies within the root.
    pub fn current_path(&self) -> (out: &ServedPath)
        ensures
            out@ == self.current(),
            within(self.root(), self.current()),
    {
        proof {
            use_type_invariant(self);
        }
        &self.current_path
    }

    /// The root of the served tree.
    pub fn root_path(&self) -> (out: &ServedPath)
        ensures
            out@ == self.root(),
    {
        &self.root_path
    }

    /// Decides a request to change the directory. The target is entered
    /// where it is a directory within the root other than the current one;
    /// else the request is refused with the answer returned, and the cursor
    /// stays where it is.
    pub fn change_directory(&mut self, probe: PathProbe) -> (out: Option<CdAnswer>)
        ensures
            out == cd_refusal(old(self).current(), old(self).root(), probe@),
            final(self).current() == cd_target(old(self).current(), old(self).root(), probe@),
            final(self).root() == old(self).root(),
            within(final(self).root(), final(self).current()),
    {
        proof {
            use_type_invariant(&*self);
        }
        match probe {
            PathProbe::Directory(path) => {
                if !path.starts_with(&self.root_path) || path.same_as(&self.current_path) {
                    Some(CdAnswer::IllegalDirectory)
                } else {
                    self.current_path = path;
                    None
                }
            },
            _ => Some(CdAnswer::DirectoryDoesNotExist),
        }
    }

    /// The path of an entry of the current directory: the current directory
    /// with `name` as one more component, which lies within the root.
    /// Nothing where `name` could name anything but such an entry.
    pub fn entry(&self, name: String) -> (out: Option<ServedPath>)
        ensures
            out is Some <==> plain_name(encode_utf8(name@)),
            out matches Some(path) ==> path@ == self.current().push(name@) && within(
                self.root(),
                path@,
            ),
    {
        proof {
            use_type_invariant(self);
        }
        if !is_plain_name(name.as_str()) {
            return None;
        }
        let mut path = self.current_path.duplicate();
        let ghost before = path@;
        path.components.push(name);
        assert(path@ =~= before.push(name@));
        assert(self.root_path@ =~= path@.subrange(0, self.root_path@.len() as int));
        Some(path)
    }

    /// Decides a request to download: the refusal to answer with, or nothing
    /// where the file may be opened.
    pub fn download(&self, probe: &PathProbe) -> (out: Option<FileFail>)
        ensures
            out == download_refusal(self.root(), probe@),
    {
        match probe {
            PathProbe::Missing => Some(FileFail::FileDoesNotExist),
            PathProbe::File(path) => if !path.starts_with(&self.root_path) {
                Some(FileFail::IllegalFile)
            } else {
                None
            },
            PathProbe::Directory(path) => if !path.starts_with(&self.root_path) {
                Some(FileFail::IllegalFile)
            } else {
                Some(FileFail::FileDoesNotExist)
            },
        }
    }

    /// Decides a request to make a directory: the refusal to answer with, or
    /// nothing where the directory may be made.
    pub fn mkdir(&self, probe: &CreationProbe) -> (out: Option<MkdirAnswer>)
        ensures
            out == mkdir_refusal(self.current(), self.root(), probe@),
    {
        match probe {
            CreationProbe::Exists => Some(MkdirAnswer::DirectoryAlreadyExists),
            CreationProbe::Unresolvable => Some(MkdirAnswer::ErrorCreatingDirectory),
            CreationProbe::Resolved(path) => if !path.starts_with(&self.root_path) || path.same_as(
                &self.current_path,
            ) {
                Some(MkdirAnswer::IllegalDirectory)
            } else {
                None
            },
        }
    }

    /// Decides a request to rename: the refusal to answer with, or nothing
    /// where the entry may be renamed. `destination` is the canonical path
    /// that the entry would have, if it can be resolved.
    pub fn rename(&self, source: &PathProbe, destination: &Option<ServedPath>) -> (out: Option<
        RenameAnswer,
    >)
        ensures
            out == rename_refusal(self.root(), source@, destination_view(*destination)),
    {
        let path = match source {
            PathProbe::Missing => {
                return Some(RenameAnswer::FileDirDoesNotExist);
            },
            PathProbe::File(path) => path,
            PathProbe::Directory(path) => path,
        };
        if !path.starts_with(&self.root_path) {
            return Some(RenameAnswer::IllegalFileDir);
        }
        match destination {
            None => Some(RenameAnswer::ErrorRenaming),
            Some(target) => if !target.starts_with(&self.root_path) {
                Some(RenameAnswer::IllegalFileDir)
            } else {
                None
            },
        }
    }

    /// Decides a request to remove: the refusal to answer with, or nothing
    /// where the entry may be removed.
    pub fn remove(&self, probe: &PathProbe) -> (out: Option<RemoveAnswer>)
        ensures
            out == remove_refusal(self.root(), probe@),
    {
        let path = match probe {
            PathProbe::Missing => {
                return Some(RemoveAnswer::FileDirDoesNotExist);
            },
            PathProbe::File(path) => path,
            PathProbe::Directory(path) => path,
        };
        if !path.starts_with(&self.root_path) {
            Some(RemoveAnswer::IllegalFileDir)
        } else {
            None
        }
    }

    /// Describes the current directory from what the file system listed.
    pub fn describe(&self, entries: &Option<Vec<DirectoryEntryProbe>>) -> (out: Result<
        MessageDirectoryContents,
        QuickTransferError,
    >)
        ensures
            description_is(out, self.current(), self.root(), *entries),
            (out is Ok) == listing_readable(*entries),
    {
        proof {
            use_type_invariant(self);
        }
        directory_description(&self.current_path, &self.root_path, entries)
    }
}

/// The answer to a request to change the directory, once the target was
/// entered and listed.
pub fn cd_answer(description: Result<MessageDirectoryContents, QuickTransferError>) -> (out:
    CdAnswer)
    ensures
        out == match description {
            Ok(contents) => CdAnswer::Success(contents),
            Err(_) => CdAnswer::ReadingDirectoryError,
        },
{
    match description {
        Ok(contents) => CdAnswer::Success(contents),
        Err(_) => CdAnswer::ReadingDirectoryError,
    }
}

/// The body of a listing message for a description that may have failed.
pub fn listing_answer(description: Result<MessageDirectoryContents, QuickTransferError>) -> (out:
    MessageDirectoryContents)
    ensures
        out == match description {
            Ok(contents) => contents,
            Err(_) => MessageDirectoryContents::ReadingDirectoryError,
        },
{
    match description {
        Ok(contents) => contents,
        Err(_) => MessageDirectoryContents::ReadingDirectoryError,
    }
}

/// The start of a download once the file was opened, or not: its size, or
/// the refusal to answer with.
pub fn download_start(opened_size: Option<u64>) -> (out: Result<u64, FileFail>)
    ensures
        out == match opened_size {
            Some(size) => Ok::<u64, FileFail>(size),
            None => Err::<u64, FileFail>(FileFail::ErrorOpeningFile),
        },
{
    match opened_size {
        Some(size) => Ok(size),
        None => Err(FileFail::ErrorOpeningFile),
    }
}

/// The answer after the file system was asked to make a directory.
pub fn mkdir_answer(created: bool) -> (out: MkdirAnswer)
    ensures
        out == if created {
            MkdirAnswer::Success
        } else {
            MkdirAnswer::ErrorCreatingDirectory
        },
{
    if created {
        MkdirAnswer::Success
    } else {
        MkdirAnswer::ErrorCreatingDirectory
    }
}

/// The answer after the file system was asked to rename an entry.
pub fn rename_answer(renamed: bool, old_name: String, new_name: String) -> (out: RenameAnswer)
    ensures
        out == if renamed {
            RenameAnswer::Success { old_name, new_name }
        } else {
            RenameAnswer::ErrorRenaming
        },
{
    if renamed {
        RenameAnswer::Success { old_name, new_name }
    } else {
        RenameAnswer::ErrorRenaming
    }
}

/// The answer after the file system was asked to remove an entry.
pub fn remove_answer(was_directory: bool, failure: Option<IoErrorKind>) -> (out: RemoveAnswer)
    ensures
        out == removal_answer(was_directory, failure),
{
    match failure {
        None => RemoveAnswer::Success,
        Some(IoErrorKind::DirectoryNotEmpty) => if was_directory {
            RemoveAnswer::DirectoryNotEmpty
        } else {
            RemoveAnswer::ErrorRemoving
        },
        Some(_) => RemoveAnswer::ErrorRemoving,
    }
}

/// What the file system says of one entry of a directory.
#[derive(Clone, Debug, PartialEq, Eq)]
pub enum DirectoryEntryProbe {
    /// The entry could not be read.
    Unreadable,
    /// The entry's name is no text.
    NotText,
    /// The entry, with its name.
    Entry(DirectoryPosition),
}

/// Whether a directory was listed and every entry of it is shown.
pub open spec fn listing_readable(entries: Option<Vec<DirectoryEntryProbe>>) -> bool {
    entries matches Some(list) && forall|i: int|
        0 <= i < list@.len() ==> #[trigger] list@[i] is Entry
}

/// The entries of a directory that was listed in full, in the order in
/// which the file system gave them.
pub open spec fn listed_positions(list: Seq<DirectoryEntryProbe>) -> Seq<DirectoryPosition> {
    list.map_values(|probe: DirectoryEntryProbe| probe->Entry_0)
}

/// How a directory is shown to the client: a dot for the root, followed by
/// a slash and the name for each step below it.
pub open spec fn location_text(below_root: Seq<Seq<char>>) -> Seq<char>
    decreases below_root.len(),
{
    if below_root.len() == 0 {
        "."@
    } else {
        location_text(below_root.drop_last()) + "/"@ + below_root.last()
    }
}

/// A description as the client sees it: the place and the entries, or
/// nothing where the description failed.
pub open spec fn description_view(
    out: Result<MessageDirectoryContents, QuickTransferError>,
) -> Option<(Seq<char>, Seq<DirectoryPosition>)> {
    match out {
        Ok(MessageDirectoryContents::Success(contents)) => Some(
            (contents.location@, contents.positions@),
        ),
        _ => None,
    }
}

/// What holds of the description of a directory: it fails exactly where the
/// directory does not lie within the root or was not listed in full, and
/// else shows the directory's place below the root and its entries in order.
pub open spec fn description_is(
    out: Result<MessageDirectoryContents, QuickTransferError>,
    directory: Seq<Seq<char>>,
    root: Seq<Seq<char>>,
    entries: Option<Vec<DirectoryEntryProbe>>,
) -> bool {
    if within(root, directory) && listing_readable(entries) {
        &&& out matches Ok(MessageDirectoryContents::Success(contents))
        &&& contents.location@ == location_text(
            directory.subrange(root.len() as int, directory.len() as int),
        )
        &&& contents.positions@ == listed_positions(entries->0@)
    } else {
        out == Err::<MessageDirectoryContents, QuickTransferError>(
            QuickTransferError::ReadingDirectoryContents,
        )
    }
}

/// Listing is idempotent: a listing changes nothing of the session, and two
/// descriptions of the same directory below the same root, made from the
/// same enumeration by the file system, show the client the same place and
/// the same entries in the same order, or both fail.
pub proof fn lemma_listing_is_idempotent(
    first: Result<MessageDirectoryContents, QuickTransferError>,
    second: Result<MessageDirectoryContents, QuickTransferError>,
    directory: Seq<Seq<char>>,
    root: Seq<Seq<char>>,
    entries: Option<Vec<DirectoryEntryProbe>>,
)
    requires
        description_is(first, directory, root, entries),
        description_is(second, directory, root, entries),
    ensures
        description_view(first) == description_view(second),
        first is Ok == second is Ok,
{
}

/// Describes a directory for the client from what the file system listed:
/// `entries` is nothing where the directory could not be opened.
pub fn directory_description(
    directory_path: &ServedPath,
    root_directory_path: &ServedPath,
    entries: &Option<Vec<DirectoryEntryProbe>>,
) -> (out: Result<MessageDirectoryContents, QuickTransferError>)
    ensures
        description_is(out, directory_path@, root_directory_path@, *entries),
{
    if !directory_path.starts_with(root_directory_path) {
        return Err(QuickTransferError::ReadingDirectoryContents);
    }
    let list = match entries {
        Some(list) => list,
        None => {
            return Err(QuickTransferError::ReadingDirectoryContents);
        },
    };
    let ghost below = directory_path@.subrange(
        root_directory_path@.len() as int,
        directory_path@.len() as int,
    );
    let mut location = String::from_str(".");
    let mut i: usize = root_directory_path.components.len();
    while i < directory_path.components.len()
        invariant
            root_directory_path.components@.len() <= i <= directory_path.components@.len(),
            below == directory_path@.subrange(
                root_directory_path@.len() as int,
                directory_path@.len() as int,
            ),
            location@ == location_text(below.subrange(0, i - root_directory_path@.len())),
        decreases directory_path.components@.len() - i,
    {
        location.append("/");
        location.append(directory_path.components[i].as_str());
        proof {
            let k = i - root_directory_path@.len();
            let next = below.subrange(0, k + 1);
            assert(next.drop_last() =~= below.subrange(0, k));
            assert(next.last() == directory_path@[i as int]);
        }
        i += 1;
    }
    assert(below.subrange(0, below.len() as int) =~= below);
    let mut positions: Vec<DirectoryPosition> = Vec::new();
    let mut j: usize = 0;
    while j < list.len()
        invariant
            j <= list@.len(),
            *entries == Some(*list),
            within(root_directory_path@, directory_path@),
            positions@.len() == j,
            forall|k: int| 0 <= k < j ==> #[trigger] list@[k] is Entry,
            forall|k: int| 0 <= k < j ==> positions@[k] == list@[k]->Entry_0,
        decreases list@.len() - j,
    {
        match &list[j] {
            DirectoryEntryProbe::Entry(position) => {
                positions.push(
                    DirectoryPosition {
                        name: position.name.clone(),
                        is_directory: position.is_directory,
                    },
                );
            },
            _ => {
                assert(!(list@[j as int] is Entry));
                return Err(QuickTransferError::ReadingDirectoryContents);
            },
        }
        j += 1;
    }
    assert(positions@ =~= listed_positions(list@));
    Ok(MessageDirectoryContents::Success(DirectoryContents { location, positions }))
}

} // verus!
