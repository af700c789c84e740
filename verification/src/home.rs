//! The on-disk layout of a `CODEX_HOME` directory and the decisions taken while seeding
//! authentication files into it.

use vstd::prelude::*;
use crate::text::{chars_of, push_all, string_of};

verus! {

/// `Path::join` of a root with a relative, non-empty file name: the name alone under an
/// empty root, appended directly after a trailing `/`, otherwise after a `/` separator.
pub open spec fn join_path(root: Seq<char>, name: Seq<char>) -> Seq<char> {
    if root.len() == 0 {
        name
    } else if root.last() == '/' {
        root + name
    } else {
        root + seq!['/'] + name
    }
}

/// Joins a relative file name onto a root path.
pub fn join(root: &str, name: &str) -> (r: String)
    ensures
        r@ == join_path(root@, name@),
{
    let mut v = chars_of(root);
    let n = chars_of(name);
    if v.len() == 0 {
        return string_of(n.as_slice());
    }
    if v[v.len() - 1] != '/' {
        v.push('/');
    }
    push_all(&mut v, n.as_slice());
    string_of(v.as_slice())
}

/// Describes the on-disk layout used by the Codex CLI when `CODEX_HOME` is set.
#[derive(Debug)]
pub struct CodexHomeLayout {
    root: String,
}

impl Clone for CodexHomeLayout {
    fn clone(&self) -> (r: Self)
        ensures
            r == *self,
    {
        CodexHomeLayout { root: self.root.clone() }
    }
}

impl CodexHomeLayout {
    pub closed spec fn root_view(&self) -> Seq<char> {
        self.root@
    }

    /// A layout rooted at `root`.
    pub fn new(root: &str) -> (r: Self)
        ensures
            r.root_view() == root@,
    {
        CodexHomeLayout { root: root.to_owned() }
    }

    /// The `CODEX_HOME` root.
    pub fn root(&self) -> (r: &str)
        ensures
            r@ == self.root_view(),
    {
        self.root.as_str()
    }

    /// Path to `config.toml` under `CODEX_HOME`.
    pub fn config_path(&self) -> (r: String)
        ensures
            r@ == join_path(self.root_view(), "config.toml"@),
    {
        join(self.root.as_str(), "config.toml")
    }

    /// Path to `auth.json` under `CODEX_HOME`.
    pub fn auth_path(&self) -> (r: String)
        ensures
            r@ == join_path(self.root_view(), "auth.json"@),
    {
        join(self.root.as_str(), "auth.json")
    }

    /// Path to `.credentials.json` under `CODEX_HOME`.
    pub fn credentials_path(&self) -> (r: String)
        ensures
            r@ == join_path(self.root_view(), ".credentials.json"@),
    {
        join(self.root.as_str(), ".credentials.json")
    }

    /// Path to `history.jsonl` under `CODEX_HOME`.
    pub fn history_path(&self) -> (r: String)
        ensures
            r@ == join_path(self.root_view(), "history.jsonl"@),
    {
        join(self.root.as_str(), "history.jsonl")
    }

    /// Directory containing conversation transcripts.
    pub fn conversations_dir(&self) -> (r: String)
        ensures
            r@ == join_path(self.root_view(), "conversations"@),
    {
        join(self.root.as_str(), "conversations")
    }

    /// Directory containing Codex log files.
    pub fn logs_dir(&self) -> (r: String)
        ensures
            r@ == join_path(self.root_view(), "logs"@),
    {
        join(self.root.as_str(), "logs")
    }

    /// The directories `materialize` creates when enabled, in order: the root, then the
    /// conversations and logs directories; none when disabled.
    pub fn materialize_dirs(&self, create_home_dirs: bool) -> (r: Vec<String>)
        ensures
            !create_home_dirs ==> r@.len() == 0,
            create_home_dirs ==> r@.len() == 3 && r@[0]@ == self.root_view() && r@[1]@
                == join_path(self.root_view(), "conversations"@) && r@[2]@ == join_path(
                self.root_view(),
                "logs"@,
            ),
    {
        let mut dirs: Vec<String> = Vec::new();
        if create_home_dirs {
            dirs.push(self.root.clone());
            dirs.push(self.conversations_dir());
            dirs.push(self.logs_dir());
        }
        dirs
    }
}

/// Options controlling `seed_auth_from`.
#[derive(Clone, Copy, Debug, PartialEq, Eq, Structural)]
pub struct AuthSeedOptions {
    /// Fail when `auth.json` is missing from the seed home.
    pub require_auth: bool,
    /// Fail when `.credentials.json` is missing from the seed home.
    pub require_credentials: bool,
    /// Create parent directories of the destination files.
    pub create_target_dirs: bool,
}

impl Default for AuthSeedOptions {
    fn default() -> (r: Self)
        ensures
            !r.require_auth && !r.require_credentials && r.create_target_dirs,
    {
        AuthSeedOptions { require_auth: false, require_credentials: false, create_target_dirs: true }
    }
}

/// Which files were copied by `seed_auth_from`.
#[derive(Clone, Copy, Debug, PartialEq, Eq, Structural)]
pub struct AuthSeedOutcome {
    pub copied_auth: bool,
    pub copied_credentials: bool,
}

impl Default for AuthSeedOutcome {
    fn default() -> (r: Self)
        ensures
            !r.copied_auth && !r.copied_credentials,
    {
        AuthSeedOutcome { copied_auth: false, copied_credentials: false }
    }
}

/// Errors while seeding authentication files; `message` carries the I/O error text.
#[derive(Debug)]
pub enum AuthSeedError {
    SeedHomeUnreadable { seed_home: String, message: String },
    SeedHomeNotDirectory { seed_home: String },
    SeedFileMissing { path: String },
    SeedFileNotFile { path: String },
    SeedFileUnreadable { path: String, message: String },
    CreateTargetDir { path: String, message: String },
    Copy { source: String, destination: String, message: String },
}

/// What the file system reports for one seed file.
#[derive(Debug)]
pub enum SeedFileStatus {
    /// A regular file.
    File,
    /// Something other than a regular file.
    NotFile,
    /// Nothing at the path.
    Missing,
    /// The metadata could not be read.
    Unreadable { message: String },
}

/// What to do with one seed file.
#[derive(Clone, Copy, Debug, PartialEq, Eq, Structural)]
pub enum SeedFileAction {
    /// Copy it to its destination.
    Copy,
    /// Leave it: it is missing and not required.
    Skip,
}

/// The decision of `seed_auth_from` for one file: copy regular files, skip missing optional
/// ones, and fail on required missing files, non-files and unreadable metadata.
pub fn plan_seed_file(source: &str, status: SeedFileStatus, required: bool) -> (r: Result<SeedFileAction, AuthSeedError>)
    ensures
        match status {
            SeedFileStatus::File => r == Ok::<SeedFileAction, AuthSeedError>(SeedFileAction::Copy),
            SeedFileStatus::NotFile => r matches Err(AuthSeedError::SeedFileNotFile { path }) && path@ == source@,
            SeedFileStatus::Missing => if required {
                r matches Err(AuthSeedError::SeedFileMissing { path }) && path@ == source@
            } else {
                r == Ok::<SeedFileAction, AuthSeedError>(SeedFileAction::Skip)
            },
            SeedFileStatus::Unreadable { message } => r matches Err(
                AuthSeedError::SeedFileUnreadable { path, message: m },
            ) && path@ == source@ && m == message,
        },
{
    match status {
        SeedFileStatus::File => Ok(SeedFileAction::Copy),
        SeedFileStatus::NotFile => Err(AuthSeedError::SeedFileNotFile { path: source.to_owned() }),
        SeedFileStatus::Missing => {
            if required {
                Err(AuthSeedError::SeedFileMissing { path: source.to_owned() })
            } else {
                Ok(SeedFileAction::Skip)
            }
        },
        SeedFileStatus::Unreadable { message } => Err(
            AuthSeedError::SeedFileUnreadable { path: source.to_owned(), message },
        ),
    }
}

/// The seed files, in the order `seed_auth_from` handles them: source path under the seed
/// home, destination path under this layout, and whether the options require it.
pub fn seed_targets(layout: &CodexHomeLayout, seed_home: &str, options: AuthSeedOptions) -> (r: Vec<(String, String, bool)>)
    ensures
        r@.len() == 2,
        r@[0].0@ == join_path(seed_home@, "auth.json"@),
        r@[0].1@ == join_path(layout.root_view(), "auth.json"@),
        r@[0].2 == options.require_auth,
        r@[1].0@ == join_path(seed_home@, ".credentials.json"@),
        r@[1].1@ == join_path(layout.root_view(), ".credentials.json"@),
        r@[1].2 == options.require_credentials,
{
    let mut r: Vec<(String, String, bool)> = Vec::new();
    r.push((join(seed_home, "auth.json"), layout.auth_path(), options.require_auth));
    r.push((join(seed_home, ".credentials.json"), layout.credentials_path(), options.require_credentials));
    r
}

} // verus!
