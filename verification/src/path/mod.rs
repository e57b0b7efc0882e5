//! Safe path handling: tilde expansion, canonical form, remote-path refusal,
//! and joining of single components.
use vstd::prelude::*;

use crate::text::{
    all_white_space, all_whitespace, chars_of, concat2, concat3, contains_char, octal_digits, same_chars,
    starts_with, starts_with_at, u32_to_octal,
};

verus! {

/// Why a path was refused.
#[derive(Debug, Clone, Copy, PartialEq, Eq, Structural)]
pub enum PathError {
    /// Empty, or nothing but white space.
    Empty,
    /// A Windows network (UNC) path, `\\server\share`.
    UncPath,
    /// An SSH-style remote path, holding both `@` and `:`.
    SshPath,
    /// A remote URL: `ssh://`, `sftp://`, `smb://` or `nfs://`.
    RemoteUrl,
    /// The path does not exist.
    NotFound,
    /// The path exists but is no directory.
    NotADirectory,
    /// A component to join holds `/` or `\`.
    ComponentHasSeparator,
    /// A component to join is `.` or `..`.
    ComponentIsDot,
    /// The owner lacks one of read, write and execute on the directory.
    InsufficientPermissions { mode: u32 },
    /// The directory is marked read-only.
    ReadOnly,
    /// A probe file could not be written in the directory.
    NotWritable,
}

/// How a refusal of the path `input` reads to the user.
pub open spec fn path_error_text(e: PathError, input: Seq<char>) -> Seq<char> {
    match e {
        PathError::Empty => "Path cannot be empty"@,
        PathError::UncPath => "Network UNC paths not yet supported: "@ + input
            + "\nRemote execution is planned for a future release."@,
        PathError::SshPath => "SSH/remote paths not yet supported: "@ + input
            + "\nRemote execution is planned for a future release."@,
        PathError::RemoteUrl => "Remote URL paths not yet supported: "@ + input
            + "\nRemote execution is planned for a future release."@,
        PathError::NotFound => "Path does not exist: "@ + input,
        PathError::NotADirectory => "Path is not a directory: "@ + input,
        PathError::ComponentHasSeparator => "Path component cannot contain separators: '"@ + input
            + "'\nUse multiple join() calls or from_user_input() for complex paths."@,
        PathError::ComponentIsDot => "Path component cannot be '.' or '..': '"@ + input
            + "'\nUse from_user_input() for relative paths."@,
        PathError::InsufficientPermissions { mode } => "Insufficient permissions on: "@ + input
            + " (need owner rwx)\nCurrent mode: "@ + octal_digits(mode as nat),
        PathError::ReadOnly => "Directory is read-only: "@ + input,
        PathError::NotWritable => "Cannot write to directory: "@ + input,
    }
}

impl PathError {
    /// The message of the refusal of the path `input`.
    pub fn message(&self, input: &str) -> (r: String)
        ensures
            r@ == path_error_text(*self, input@),
    {
        match self {
            PathError::Empty => String::from_str("Path cannot be empty"),
            PathError::UncPath => concat3(
                "Network UNC paths not yet supported: ",
                input,
                "\nRemote execution is planned for a future release.",
            ),
            PathError::SshPath => concat3(
                "SSH/remote paths not yet supported: ",
                input,
                "\nRemote execution is planned for a future release.",
            ),
            PathError::RemoteUrl => concat3(
                "Remote URL paths not yet supported: ",
                input,
                "\nRemote execution is planned for a future release.",
            ),
            PathError::NotFound => concat2("Path does not exist: ", input),
            PathError::NotADirectory => concat2("Path is not a directory: ", input),
            PathError::ComponentHasSeparator => concat3(
                "Path component cannot contain separators: '",
                input,
                "'\nUse multiple join() calls or from_user_input() for complex paths.",
            ),
            PathError::ComponentIsDot => concat3(
                "Path component cannot be '.' or '..': '",
                input,
                "'\nUse from_user_input() for relative paths.",
            ),
            PathError::InsufficientPermissions { mode } => {
                let mut out = concat3("Insufficient permissions on: ", input, " (need owner rwx)\nCurrent mode: ");
                let o = u32_to_octal(*mode);
                out.append(o.as_str());
                out
            },
            PathError::ReadOnly => concat2("Directory is read-only: ", input),
            PathError::NotWritable => concat2("Cannot write to directory: ", input),
        }
    }
}

/// A path given by the user, kept in three forms: as typed, with the tilde
/// expanded, and canonical (symlinks resolved, absolute) when the path exists.
#[derive(Debug, Clone)]
pub struct SafePath {
    original: String,
    expanded: String,
    canonical: Option<String>,
}

pub struct SafePathView {
    pub original: Seq<char>,
    pub expanded: Seq<char>,
    pub canonical: Option<Seq<char>>,
}

impl View for SafePath {
    type V = SafePathView;

    closed spec fn view(&self) -> SafePathView {
        SafePathView {
            original: self.original@,
            expanded: self.expanded@,
            canonical: match self.canonical {
                Some(c) => Some(c@),
                None => None,
            },
        }
    }
}

/// A `~` alone or followed by `/` (or, on Windows, by `\`): the forms that
/// tilde expansion may replace.
pub open spec fn has_home_tilde(s: Seq<char>) -> bool {
    s.len() > 0 && s[0] == '~' && (s.len() == 1 || s[1] == '/' || s[1] == '\\')
}

/// What tilde expansion may give for `input`: `input` itself when it does not
/// start with a home tilde; otherwise `input` itself (no home directory known)
/// or some home directory followed by what comes after the `~`.
pub open spec fn tilde_expansion_of(input: Seq<char>, out: Seq<char>) -> bool {
    if !has_home_tilde(input) {
        out == input
    } else {
        out == input || (out.len() >= input.len() - 1 && out.subrange(
            out.len() - (input.len() - 1),
            out.len() as int,
        ) == input.drop_first())
    }
}

/// What `std::path::Path::parent` gives for a path.
pub uninterp spec fn parent_of(p: Seq<char>) -> Option<Seq<char>>;

/// What `std::path::Path::file_name` gives for a path (as text).
pub uninterp spec fn file_name_of(p: Seq<char>) -> Option<Seq<char>>;

/// `std::path::Path::parent`, lossily made UTF-8. Claimed: the result is
/// `parent_of` the path, which depends on the path alone.
#[verifier::external_body]
pub(crate) fn path_parent(p: &str) -> (r: Option<String>)
    ensures
        match r {
            Some(s) => parent_of(p@) == Some(s@),
            None => parent_of(p@) is None,
        },
{
    std::path::Path::new(p).parent().map(|q| q.to_string_lossy().into_owned())
}

/// `std::path::Path::file_name`, where it is valid UTF-8. Claimed: the result
/// is `file_name_of` the path, which depends on the path alone.
#[verifier::external_body]
pub(crate) fn path_file_name(p: &str) -> (r: Option<String>)
    ensures
        match r {
            Some(s) => file_name_of(p@) == Some(s@),
            None => file_name_of(p@) is None,
        },
{
    std::path::Path::new(p).file_name().and_then(|s| s.to_str()).map(|s| s.to_string())
}

/// What `std::path::Path::extension` gives for a path (as text).
pub uninterp spec fn extension_of(p: Seq<char>) -> Option<Seq<char>>;

/// `std::path::Path::extension`, where it is valid UTF-8. Claimed: the result
/// is `extension_of` the path, which depends on the path alone.
#[verifier::external_body]
pub(crate) fn path_extension(p: &str) -> (r: Option<String>)
    ensures
        match r {
            Some(s) => extension_of(p@) == Some(s@),
            None => extension_of(p@) is None,
        },
{
    std::path::Path::new(p).extension().and_then(|s| s.to_str()).map(|s| s.to_string())
}

/// Whether two paths are equal as `std::path::Path` compares them (component by component).
pub uninterp spec fn same_path(a: Seq<char>, b: Seq<char>) -> bool;

/// Expands a leading `~` to the home directory with `shellexpand::tilde`.
/// Claimed: an input that does not start with `~` alone, `~/` or `~\` comes
/// back unchanged; otherwise the result is the input itself or ends with the
/// input after its `~` (`~\` is expanded on Windows only, so either outcome
/// is allowed there). Which home directory is used is not stated: it comes
/// from the environment.
#[verifier::external_body]
pub(crate) fn expand_tilde(input: &str) -> (r: String)
    ensures
        tilde_expansion_of(input@, r@),
{
    shellexpand::tilde(input).to_string()
}

/// The canonical form of a path, from `std::path::Path::canonicalize` (lossily
/// made UTF-8), or `None` where that fails. Nothing is stated of it: it
/// depends on what is on disk.
#[verifier::external_body]
fn canonicalize(p: &str) -> (r: Option<String>) {
    std::path::Path::new(p).canonicalize().ok().map(|b| b.to_string_lossy().into_owned())
}

/// `std::path::Path::exists`. Nothing is stated of the result: it depends on what is on disk.
#[verifier::external_body]
fn path_exists(p: &str) -> (r: bool) {
    std::path::Path::new(p).exists()
}

/// `std::path::Path::is_dir`. Nothing is stated of the result: it depends on what is on disk.
#[verifier::external_body]
fn path_is_dir(p: &str) -> (r: bool) {
    std::path::Path::new(p).is_dir()
}

/// `==` on `std::path::Path`. Claimed: it is `same_path`, it does not depend on
/// the order of its arguments, and equal strings are equal paths.
#[verifier::external_body]
pub(crate) fn paths_equal(a: &str, b: &str) -> (r: bool)
    ensures
        r == same_path(a@, b@),
        r == same_path(b@, a@),
        a@ == b@ ==> r,
{
    std::path::Path::new(a) == std::path::Path::new(b)
}

pub open spec fn pat_unc() -> Seq<char> {
    seq!['\\', '\\']
}

pub open spec fn pat_ssh() -> Seq<char> {
    seq!['s', 's', 'h', ':', '/', '/']
}

pub open spec fn pat_sftp() -> Seq<char> {
    seq!['s', 'f', 't', 'p', ':', '/', '/']
}

pub open spec fn pat_smb() -> Seq<char> {
    seq!['s', 'm', 'b', ':', '/', '/']
}

pub open spec fn pat_nfs() -> Seq<char> {
    seq!['n', 'f', 's', ':', '/', '/']
}

/// How a path given by the user is refused before it is expanded, if it is.
pub open spec fn remote_path_verdict(input: Seq<char>) -> Result<(), PathError> {
    if starts_with(input, pat_unc()) {
        Err(PathError::UncPath)
    } else if input.contains('@') && input.contains(':') {
        Err(PathError::SshPath)
    } else if starts_with(input, pat_ssh()) || starts_with(input, pat_sftp()) || starts_with(
        input,
        pat_smb(),
    ) || starts_with(input, pat_nfs()) {
        Err(PathError::RemoteUrl)
    } else {
        Ok(())
    }
}

/// How `from_user_input` judges an input (the checks made before expansion).
pub open spec fn input_verdict(input: Seq<char>) -> Result<(), PathError> {
    if all_white_space(input) {
        Err(PathError::Empty)
    } else {
        remote_path_verdict(input)
    }
}

/// The path that `std::path::PathBuf::join` gives on Unix: an absolute
/// component replaces the base; otherwise the component follows the base,
/// after a `/` unless the base is empty or already ends with one.
pub open spec fn joined(base: Seq<char>, component: Seq<char>) -> Seq<char> {
    if component.len() > 0 && component[0] == '/' {
        component
    } else if base.len() == 0 || base.last() == '/' {
        base + component
    } else {
        base + seq!['/'] + component
    }
}

/// Joins a path component to a base path as `std::path::PathBuf::join` does on Unix.
pub fn join_path(base: &str, component: &str) -> (r: String)
    ensures
        r@ == joined(base@, component@),
{
    proof {
        reveal_strlit("/");
    }
    let comp = chars_of(component);
    if comp.len() > 0 && comp[0] == '/' {
        return component.to_string();
    }
    let b = chars_of(base);
    let mut out = base.to_string();
    if !(b.len() == 0 || b[b.len() - 1] == '/') {
        out.append("/");
    }
    out.append(component);
    out
}

/// How `join` judges a component.
pub open spec fn component_verdict(component: Seq<char>) -> Result<(), PathError> {
    if component.contains('/') || component.contains('\\') {
        Err(PathError::ComponentHasSeparator)
    } else if component == seq!['.', '.'] || component == seq!['.'] {
        Err(PathError::ComponentIsDot)
    } else {
        Ok(())
    }
}

/// Two path views are equal as `SafePath::equals` compares them: by their
/// canonical forms where both have one, by their expanded forms otherwise.
pub open spec fn equal_paths(a: SafePathView, b: SafePathView) -> bool {
    match (a.canonical, b.canonical) {
        (Some(x), Some(y)) => same_path(x, y),
        _ => same_path(a.expanded, b.expanded),
    }
}

fn reject_remote_paths(input: &str) -> (r: Result<(), PathError>)
    ensures
        r == remote_path_verdict(input@),
{
    let chars = chars_of(input);
    let unc = vec!['\\', '\\'];
    assert(unc@ == pat_unc());
    if starts_with_at(&chars, 0, &unc) {
        return Err(PathError::UncPath);
    }
    if contains_char(&chars, '@') && contains_char(&chars, ':') {
        return Err(PathError::SshPath);
    }
    let ssh = vec!['s', 's', 'h', ':', '/', '/'];
    let sftp = vec!['s', 'f', 't', 'p', ':', '/', '/'];
    let smb = vec!['s', 'm', 'b', ':', '/', '/'];
    let nfs = vec!['n', 'f', 's', ':', '/', '/'];
    assert(ssh@ == pat_ssh());
    assert(sftp@ == pat_sftp());
    assert(smb@ == pat_smb());
    assert(nfs@ == pat_nfs());
    if starts_with_at(&chars, 0, &ssh) || starts_with_at(&chars, 0, &sftp) || starts_with_at(
        &chars,
        0,
        &smb,
    ) || starts_with_at(&chars, 0, &nfs) {
        return Err(PathError::RemoteUrl);
    }
    Ok(())
}

/// The checks made on a path typed by the user before it is expanded: it may
/// not be empty or white space, nor a remote path.
pub fn check_input(input: &str) -> (r: Result<(), PathError>)
    ensures
        r == input_verdict(input@),
{
    let chars = chars_of(input);
    if all_whitespace(&chars) {
        return Err(PathError::Empty);
    }
    reject_remote_paths(input)
}

impl SafePath {
    /// Create SafePath from user input: refuses empty and remote paths,
    /// expands the tilde, and records the canonical form if the path exists.
    pub fn from_user_input(input: &str) -> (r: Result<SafePath, PathError>)
        ensures
            r is Err <==> input_verdict(input@) is Err,
            r matches Err(e) ==> input_verdict(input@) == Err::<(), PathError>(e),
            r matches Ok(p) ==> p@.original == input@ && tilde_expansion_of(input@, p@.expanded),
    {
        check_input(input)?;
        let expanded = expand_tilde(input);
        let canonical = canonicalize(expanded.as_str());
        Ok(SafePath { original: input.to_string(), expanded, canonical })
    }

    /// Get the expanded path (tilde replaced)
    pub fn expanded(&self) -> (r: &str)
        ensures
            r@ == self@.expanded,
    {
        self.expanded.as_str()
    }

    /// Get the canonical path if available (symlinks resolved, absolute)
    pub fn canonical(&self) -> (r: Option<&str>)
        ensures
            r matches Some(c) ==> self@.canonical == Some(c@),
            r is None ==> self@.canonical is None,
    {
        match &self.canonical {
            Some(c) => Some(c.as_str()),
            None => None,
        }
    }

    /// Get the original user input
    pub fn original(&self) -> (r: &str)
        ensures
            r@ == self@.original,
    {
        self.original.as_str()
    }

    /// Get the best available path representation: canonical if available,
    /// otherwise expanded.
    pub fn as_path(&self) -> (r: &str)
        ensures
            r@ == match self@.canonical {
                Some(c) => c,
                None => self@.expanded,
            },
    {
        match &self.canonical {
            Some(c) => c.as_str(),
            None => self.expanded.as_str(),
        }
    }

    /// Check if path exists (on disk, so nothing is stated of the answer).
    pub fn exists_on_disk(&self) -> bool {
        path_exists(self.expanded.as_str())
    }

    /// Validate that path exists and is a directory: `NotFound` where the
    /// probe found nothing, `NotADirectory` where it found something else.
    pub fn validate_directory(&self) -> (r: Result<(), PathError>)
        ensures
            r is Ok || r == Err::<(), PathError>(PathError::NotFound) || r == Err::<
                (),
                PathError,
            >(PathError::NotADirectory),
    {
        let exists = self.exists_on_disk();
        let is_dir = path_is_dir(self.expanded.as_str());
        directory_verdict(exists, is_dir)
    }

    /// Compare two paths by their canonical form (or expanded if not canonical).
    /// The comparison does not depend on the order of the two paths, and a
    /// path is equal to a path of the same three forms.
    pub fn equals(&self, other: &SafePath) -> (r: bool)
        ensures
            r == equal_paths(self@, other@),
            r == equal_paths(other@, self@),
            self@ == other@ ==> r,
    {
        match (&self.canonical, &other.canonical) {
            (Some(a), Some(b)) => paths_equal(a.as_str(), b.as_str()),
            _ => paths_equal(self.expanded.as_str(), other.expanded.as_str()),
        }
    }

    /// Join with a relative path component. The component may not hold a path
    /// separator, nor be `.` or `..` (prevents traversal).
    pub fn join(&self, component: &str) -> (r: Result<SafePath, PathError>)
        ensures
            r is Err <==> component_verdict(component@) is Err,
            r matches Err(e) ==> component_verdict(component@) == Err::<(), PathError>(e),
            r matches Ok(p) ==> p@.original == self@.original + seq!['/'] + component@
                && p@.expanded == joined(self@.expanded, component@),
    {
        let chars = chars_of(component);
        if contains_char(&chars, '/') || contains_char(&chars, '\\') {
            return Err(PathError::ComponentHasSeparator);
        }
        let dd = vec!['.', '.'];
        let d = vec!['.'];
        assert(dd@ == seq!['.', '.']);
        assert(d@ == seq!['.']);
        if same_chars(&chars, &dd) || same_chars(&chars, &d) {
            return Err(PathError::ComponentIsDot);
        }
        proof {
            reveal_strlit("/");
        }
        let mut original = self.original.clone();
        original.append("/");
        original.append(component);
        assert(chars@ == component@);
        let new_path = join_path(self.expanded.as_str(), component);
        let canonical = canonicalize(new_path.as_str());
        Ok(SafePath { original, expanded: new_path, canonical })
    }

    /// Create SafePath for a project root (must be an existing directory).
    pub fn project_root(path: &str) -> (r: Result<SafePath, PathError>)
        ensures
            input_verdict(path@) matches Err(e) ==> r == Err::<SafePath, PathError>(e),
            r matches Ok(p) ==> p@.original == path@ && tilde_expansion_of(path@, p@.expanded),
            r matches Err(e) ==> input_verdict(path@) is Err || e == PathError::NotFound || e
                == PathError::NotADirectory,
    {
        let safe = Self::from_user_input(path)?;
        safe.validate_directory()?;
        Ok(safe)
    }
}

/// The verdict on a directory from the two disk probes: `NotFound` when the
/// path does not exist, `NotADirectory` when it exists but is no directory.
pub open spec fn directory_verdict_of(exists: bool, is_dir: bool) -> Result<(), PathError> {
    if !exists {
        Err(PathError::NotFound)
    } else if !is_dir {
        Err(PathError::NotADirectory)
    } else {
        Ok(())
    }
}

pub fn directory_verdict(exists: bool, is_dir: bool) -> (r: Result<(), PathError>)
    ensures
        r == directory_verdict_of(exists, is_dir),
{
    if !exists {
        return Err(PathError::NotFound);
    }
    if !is_dir {
        return Err(PathError::NotADirectory);
    }
    Ok(())
}

/// The permission bits that a writable directory needs: read, write and
/// execute for its owner.
pub const OWNER_RWX: u32 = 0o700;

/// The verdict on a directory's permissions, once it is known to be a
/// directory: the owner must hold read, write and execute, and the directory
/// may not be marked read-only.
pub open spec fn permission_verdict_of(mode: u32, readonly: bool) -> Result<(), PathError> {
    if mode & OWNER_RWX != OWNER_RWX {
        Err(PathError::InsufficientPermissions { mode })
    } else if readonly {
        Err(PathError::ReadOnly)
    } else {
        Ok(())
    }
}

/// Check the permission bits (`mode`) and read-only flag read from a
/// directory's metadata.
pub fn permission_verdict(mode: u32, readonly: bool) -> (r: Result<(), PathError>)
    ensures
        r == permission_verdict_of(mode, readonly),
{
    if mode & OWNER_RWX != OWNER_RWX {
        return Err(PathError::InsufficientPermissions { mode });
    }
    if readonly {
        return Err(PathError::ReadOnly);
    }
    Ok(())
}

} // verus!
