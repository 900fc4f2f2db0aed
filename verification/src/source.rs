//! State sources: how the state record of a workspace is named in each kind of
//! storage, and which workspaces a listing of the storage shows.

use vstd::prelude::*;
use vstd::string::StringExecFns;
use crate::config::Storage;
use crate::text::{
    ends_with, opt_view, strip_prefix, strip_suffix, trim_end, trim_end_matches, trim_start,
    trim_start_matches, without_prefix, without_suffix,
};

verus! {

/// Where a state source looks for state records.
#[derive(Clone, Debug, PartialEq, Eq)]
pub enum Source {
    /// A directory of state files on this machine.
    Mock { root: String },
    /// A bucket of an S3 object store.
    S3 { bucket: String, prefix: Option<String> },
    /// A bucket of Google Cloud Storage.
    Gcs { bucket: String, prefix: Option<String> },
    /// A container of Azure blob storage.
    Azure { container: String, prefix: Option<String> },
}

/// Why a state source failed.
#[derive(Clone, Debug, PartialEq, Eq)]
pub enum SourceError {
    /// The workspace has no state record.
    NotFound(String),
    /// Anything else: transport, credentials, the storage's own errors.
    Other(String),
}

/// The ending that marks an entry of the storage as a state record.
pub open spec fn state_suffix() -> Seq<char> {
    ".tfstate"@
}

/// An optional prefix as a mathematical value.
pub open spec fn prefix_text(prefix: Option<String>) -> Option<Seq<char>> {
    match prefix {
        Some(p) => Some(p@),
        None => None,
    }
}

/// The workspace that a file of a state directory records: the file name
/// without the ending, where something is left in front of it.
pub open spec fn file_workspace(file_name: Seq<char>) -> Option<Seq<char>> {
    match without_suffix(file_name, state_suffix()) {
        Some(stem) => if stem.len() > 0 {
            Some(stem)
        } else {
            None
        },
        None => None,
    }
}

/// What stands in front of the workspace in the key of a record that lies
/// under a prefix: the prefix without the slashes at its end, and one `/`.
pub open spec fn key_lead(prefix: Seq<char>) -> Seq<char> {
    trim_end(prefix, '/') + seq!['/']
}

/// The workspace that an object key of a bucket records: the key must end with
/// the ending; what stands in front of the workspace in a key under the prefix
/// is taken from its front where it starts with that.
pub open spec fn key_workspace(key: Seq<char>, prefix: Option<Seq<char>>) -> Option<Seq<char>> {
    if state_suffix().is_suffix_of(key) {
        let trimmed = match prefix {
            Some(p) => match without_prefix(key, key_lead(p)) {
                Some(rest) => rest,
                None => key,
            },
            None => key,
        };
        without_suffix(trimmed, state_suffix())
    } else {
        None
    }
}

/// The workspace that a blob name of a container records: the name must end
/// with the ending; the prefix is taken from its front where it starts with it,
/// and then every leading `/`.
pub open spec fn blob_workspace(name: Seq<char>, prefix: Option<Seq<char>>) -> Option<Seq<char>> {
    if state_suffix().is_suffix_of(name) {
        let p = match prefix {
            Some(p) => p,
            None => Seq::empty(),
        };
        let trimmed = match without_prefix(name, p) {
            Some(rest) => rest,
            None => name,
        };
        match without_suffix(trimmed, state_suffix()) {
            Some(stem) => Some(trim_start(stem, '/')),
            None => None,
        }
    } else {
        None
    }
}

/// The name of the state file of a workspace in a state directory.
pub open spec fn state_file(workspace: Seq<char>) -> Seq<char> {
    workspace + state_suffix()
}

/// The key of the state record of a workspace in a bucket or container: under
/// the prefix, without the slashes at its end, where there is one.
pub open spec fn state_key(prefix: Option<Seq<char>>, workspace: Seq<char>) -> Seq<char> {
    match prefix {
        Some(p) => key_lead(p) + workspace + state_suffix(),
        None => workspace + state_suffix(),
    }
}

/// The state source as a mathematical value.
pub enum SourceView {
    Mock { root: Seq<char> },
    S3 { bucket: Seq<char>, prefix: Option<Seq<char>> },
    Gcs { bucket: Seq<char>, prefix: Option<Seq<char>> },
    Azure { container: Seq<char>, prefix: Option<Seq<char>> },
}

impl View for Source {
    type V = SourceView;

    open spec fn view(&self) -> SourceView {
        match self {
            Source::Mock { root } => SourceView::Mock { root: root@ },
            Source::S3 { bucket, prefix } => SourceView::S3 {
                bucket: bucket@,
                prefix: prefix_text(*prefix),
            },
            Source::Gcs { bucket, prefix } => SourceView::Gcs {
                bucket: bucket@,
                prefix: prefix_text(*prefix),
            },
            Source::Azure { container, prefix } => SourceView::Azure {
                container: container@,
                prefix: prefix_text(*prefix),
            },
        }
    }
}

/// The state source that a storage of the configuration asks for.
pub open spec fn source_of(storage: Storage) -> SourceView {
    match storage {
        Storage::Mock { path } => SourceView::Mock { root: path@ },
        Storage::S3 { bucket, prefix } => SourceView::S3 {
            bucket: bucket@,
            prefix: prefix_text(prefix),
        },
        Storage::Gcs { bucket, prefix } => SourceView::Gcs {
            bucket: bucket@,
            prefix: prefix_text(prefix),
        },
        Storage::Azure { container, prefix } => SourceView::Azure {
            container: container@,
            prefix: prefix_text(prefix),
        },
    }
}

impl SourceView {
    /// The workspace that an entry of a listing records, if it is a state
    /// record: a file name for a directory, an object key for a bucket, a blob
    /// name for a container.
    pub open spec fn workspace_of(self, entry: Seq<char>) -> Option<Seq<char>> {
        match self {
            SourceView::Mock { root } => file_workspace(entry),
            SourceView::S3 { bucket, prefix } => key_workspace(entry, prefix),
            SourceView::Gcs { bucket, prefix } => key_workspace(entry, prefix),
            SourceView::Azure { container, prefix } => blob_workspace(entry, prefix),
        }
    }

    /// Where the state record of a workspace lies: the file name under the
    /// root for a directory, else the key.
    pub open spec fn location_of(self, workspace: Seq<char>) -> Seq<char> {
        match self {
            SourceView::Mock { root } => state_file(workspace),
            SourceView::S3 { bucket, prefix } => state_key(prefix, workspace),
            SourceView::Gcs { bucket, prefix } => state_key(prefix, workspace),
            SourceView::Azure { container, prefix } => state_key(prefix, workspace),
        }
    }

    /// The workspaces that a listing shows: those of its state records, in the
    /// order of the listing.
    pub open spec fn workspaces_in(self, entries: Seq<Seq<char>>) -> Seq<Seq<char>>
        decreases entries.len(),
    {
        if entries.len() == 0 {
            Seq::empty()
        } else {
            let front = self.workspaces_in(entries.drop_last());
            match self.workspace_of(entries.last()) {
                Some(workspace) => front.push(workspace),
                None => front,
            }
        }
    }
}

fn copy_prefix(prefix: &Option<String>) -> (r: Option<String>)
    ensures
        r == *prefix,
{
    match prefix {
        Some(p) => Some(p.clone()),
        None => None,
    }
}

fn prefix_str(prefix: &Option<String>) -> (r: Option<&str>)
    ensures
        opt_view(r) == prefix_text(*prefix),
{
    match prefix {
        Some(p) => Some(p.as_str()),
        None => None,
    }
}

/// The state source for a storage of the configuration.
pub fn source_from_storage(storage: &Storage) -> (source: Source)
    ensures
        source@ == source_of(*storage),
{
    match storage {
        Storage::Mock { path } => Source::Mock { root: path.clone() },
        Storage::S3 { bucket, prefix } => Source::S3 {
            bucket: bucket.clone(),
            prefix: copy_prefix(prefix),
        },
        Storage::Gcs { bucket, prefix } => Source::Gcs {
            bucket: bucket.clone(),
            prefix: copy_prefix(prefix),
        },
        Storage::Azure { container, prefix } => Source::Azure {
            container: container.clone(),
            prefix: copy_prefix(prefix),
        },
    }
}

/// The workspace that a file of a state directory records.
pub fn workspace_from_file_name(file_name: &str) -> (r: Option<String>)
    ensures
        match r {
            Some(workspace) => file_workspace(file_name@) == Some(workspace@),
            None => file_workspace(file_name@) is None,
        },
{
    match strip_suffix(file_name, ".tfstate") {
        Some(stem) => if stem.unicode_len() > 0 {
            Some(String::from_str(stem))
        } else {
            None
        },
        None => None,
    }
}

/// What stands in front of the workspace in the key of a record under
/// `prefix`.
pub fn key_lead_of(prefix: &str) -> (lead: String)
    ensures
        lead@ == key_lead(prefix@),
{
    let mut lead = String::from_str(trim_end_matches(prefix, '/'));
    lead.append("/");
    proof {
        reveal_strlit("/");
        assert("/"@ =~= seq!['/']);
    }
    lead
}

/// The workspace that an object key of a bucket records.
pub fn workspace_from_key(key: &str, prefix: Option<&str>) -> (r: Option<String>)
    ensures
        match r {
            Some(workspace) => key_workspace(key@, opt_view(prefix)) == Some(workspace@),
            None => key_workspace(key@, opt_view(prefix)) is None,
        },
{
    if !ends_with(key, ".tfstate") {
        return None;
    }
    let trimmed = match prefix {
        Some(p) => {
            let lead = key_lead_of(p);
            match strip_prefix(key, lead.as_str()) {
                Some(rest) => rest,
                None => key,
            }
        },
        None => key,
    };
    match strip_suffix(trimmed, ".tfstate") {
        Some(stem) => Some(String::from_str(stem)),
        None => None,
    }
}

/// The workspace that a blob name of a container records.
pub fn workspace_from_blob(name: &str, prefix: Option<&str>) -> (r: Option<String>)
    ensures
        match r {
            Some(workspace) => blob_workspace(name@, opt_view(prefix)) == Some(workspace@),
            None => blob_workspace(name@, opt_view(prefix)) is None,
        },
{
    if !ends_with(name, ".tfstate") {
        return None;
    }
    let p = match prefix {
        Some(p) => p,
        None => {
            proof {
                reveal_strlit("");
                assert(""@ =~= Seq::<char>::empty());
            }
            ""
        },
    };
    let trimmed = match strip_prefix(name, p) {
        Some(rest) => rest,
        None => name,
    };
    match strip_suffix(trimmed, ".tfstate") {
        Some(stem) => Some(String::from_str(trim_start_matches(stem, '/'))),
        None => None,
    }
}

/// The name of the state file of a workspace in a state directory.
pub fn state_file_name(workspace: &str) -> (r: String)
    ensures
        r@ == state_file(workspace@),
{
    let mut name = String::from_str(workspace);
    name.append(".tfstate");
    name
}

/// The key of the state record of a workspace in a bucket or container.
pub fn state_object_key(prefix: Option<&str>, workspace: &str) -> (r: String)
    ensures
        r@ == state_key(opt_view(prefix), workspace@),
{
    match prefix {
        Some(p) => {
            let mut key = key_lead_of(p);
            key.append(workspace);
            key.append(".tfstate");
            key
        },
        None => state_file_name(workspace),
    }
}

impl Source {
    /// The workspace that an entry of a listing records, if it is a state
    /// record.
    pub fn workspace_of(&self, entry: &str) -> (r: Option<String>)
        ensures
            match r {
                Some(workspace) => self@.workspace_of(entry@) == Some(workspace@),
                None => self@.workspace_of(entry@) is None,
            },
    {
        match self {
            Source::Mock { root } => workspace_from_file_name(entry),
            Source::S3 { bucket, prefix } => workspace_from_key(entry, prefix_str(prefix)),
            Source::Gcs { bucket, prefix } => workspace_from_key(entry, prefix_str(prefix)),
            Source::Azure { container, prefix } => workspace_from_blob(entry, prefix_str(prefix)),
        }
    }

    /// Where the state record of a workspace lies.
    pub fn state_location(&self, workspace: &str) -> (r: String)
        ensures
            r@ == self@.location_of(workspace@),
    {
        match self {
            Source::Mock { root } => state_file_name(workspace),
            Source::S3 { bucket, prefix } => state_object_key(prefix_str(prefix), workspace),
            Source::Gcs { bucket, prefix } => state_object_key(prefix_str(prefix), workspace),
            Source::Azure { container, prefix } => state_object_key(prefix_str(prefix), workspace),
        }
    }
}

} // verus!
