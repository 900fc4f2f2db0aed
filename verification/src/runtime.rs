//! The tool's binary: where it is looked for, where it is kept, where it is
//! downloaded from, and what it says of its version.

use vstd::prelude::*;
use vstd::string::StringExecFns;
use crate::json::{json_document, Document, Json};
use crate::text::{opt_view, same_text};

verus! {

/// The mode of the installed binary: its owner may write it, everyone may
/// read and run it.
pub const EXECUTABLE_MODE: u32 = 0o755;

/// Why a release archive did not give the binary.
#[derive(Clone, Debug, PartialEq, Eq)]
pub enum RuntimeError {
    /// The release archive cannot be read.
    Archive,
    /// The release archive holds no binary of the tool.
    MissingExecutable,
}

/// Where the binary is kept on this machine: a base directory, and the path
/// components to join to it one after the other.
#[derive(Clone, Debug, PartialEq, Eq)]
pub struct BinaryLocation {
    pub base: String,
    pub components: Vec<String>,
}

/// What has to be done to have the binary.
#[derive(Clone, Debug, PartialEq, Eq)]
pub enum Resolution {
    /// Nothing: the binary is on the search path, here.
    OnSearchPath(String),
    /// Nothing: the binary is in the cache, here.
    Cached(BinaryLocation),
    /// Download the release archive from `url`, take the binary out of it, and
    /// install it at `destination`.
    Download { url: String, destination: BinaryLocation },
}

/// The name of the tool's binary, on the search path, in the cache and in the
/// release archive.
pub open spec fn tool() -> Seq<char> {
    "terraform"@
}

/// The version that is taken where none is asked for.
pub open spec fn baseline_version() -> Seq<char> {
    "1.7.5"@
}

/// The version to take.
pub open spec fn chosen_version(version: Option<Seq<char>>) -> Seq<char> {
    match version {
        Some(v) => v,
        None => baseline_version(),
    }
}

/// The name under which releases know an operating system.
pub open spec fn release_os(os: Seq<char>) -> Seq<char> {
    if os == "macos"@ {
        "darwin"@
    } else {
        os
    }
}

/// The name under which releases know an instruction set.
pub open spec fn release_arch(arch: Seq<char>) -> Seq<char> {
    if arch == "x86_64"@ {
        "amd64"@
    } else if arch == "aarch64"@ {
        "arm64"@
    } else {
        arch
    }
}

/// The name of the release archive of a version for a platform.
pub open spec fn archive_name(version: Seq<char>, os: Seq<char>, arch: Seq<char>) -> Seq<char> {
    "terraform_"@ + version + "_"@ + release_os(os) + "_"@ + release_arch(arch) + ".zip"@
}

/// The address of the release archive of a version for a platform.
pub open spec fn release_url(version: Seq<char>, os: Seq<char>, arch: Seq<char>) -> Seq<char> {
    "https://releases.hashicorp.com/terraform/"@ + version + "/"@ + archive_name(version, os, arch)
}

/// The base directory of the cache: the override where there is one, else the
/// user's cache directory, else `/tmp`.
pub open spec fn cache_base(cache_override: Option<Seq<char>>, user_cache: Option<Seq<char>>)
    -> Seq<char> {
    match cache_override {
        Some(root) => root,
        None => match user_cache {
            Some(dir) => dir,
            None => "/tmp"@,
        },
    }
}

/// The components that lead from the base directory to the binary of a
/// version. Under an override the binaries lie directly by version; elsewhere
/// they have a directory of their own.
pub open spec fn cache_components(cache_override: Option<Seq<char>>, version: Seq<char>) -> Seq<
    Seq<char>,
> {
    match cache_override {
        Some(_) => seq![version, tool()],
        None => seq!["terradrift/terraform"@, version, tool()],
    }
}

/// What has to be done to have the binary, as a mathematical value.
pub enum ResolutionView {
    OnSearchPath(Seq<char>),
    Cached(Seq<char>, Seq<Seq<char>>),
    Download { url: Seq<char>, base: Seq<char>, components: Seq<Seq<char>> },
}

impl View for Resolution {
    type V = ResolutionView;

    open spec fn view(&self) -> ResolutionView {
        match self {
            Resolution::OnSearchPath(path) => ResolutionView::OnSearchPath(path@),
            Resolution::Cached(location) => ResolutionView::Cached(
                location.base@,
                location.components.deep_view(),
            ),
            Resolution::Download { url, destination } => ResolutionView::Download {
                url: url@,
                base: destination.base@,
                components: destination.components.deep_view(),
            },
        }
    }
}

/// How the binary is resolved: one on the search path is taken as it is; else
/// the one in the cache for the chosen version; else that version is
/// downloaded for this platform and installed in the cache.
pub open spec fn resolution(
    on_search_path: Option<Seq<char>>,
    version: Option<Seq<char>>,
    cache_override: Option<Seq<char>>,
    user_cache: Option<Seq<char>>,
    cached: bool,
    os: Seq<char>,
    arch: Seq<char>,
) -> ResolutionView {
    let v = chosen_version(version);
    match on_search_path {
        Some(path) => ResolutionView::OnSearchPath(path),
        None => if cached {
            ResolutionView::Cached(
                cache_base(cache_override, user_cache),
                cache_components(cache_override, v),
            )
        } else {
            ResolutionView::Download {
                url: release_url(v, os, arch),
                base: cache_base(cache_override, user_cache),
                components: cache_components(cache_override, v),
            }
        },
    }
}

/// The version that a document of the tool's version query names: the text
/// under `terraform_version`, or the empty text where there is none.
pub open spec fn version_in(doc: Document) -> Seq<char> {
    match doc.member("terraform_version"@) {
        Some(v) => match v.text() {
            Some(t) => t,
            None => Seq::empty(),
        },
        None => Seq::empty(),
    }
}

/// The names of the entries of the zip archive `archive`, as
/// `zip::ZipArchive` finds them in its directory; `None` where it cannot open
/// the archive.
pub uninterp spec fn zip_names(archive: Seq<u8>) -> Option<Set<Seq<char>>>;

/// The content of the entry `name` of the zip archive `archive`, as
/// `zip::ZipArchive` reads it; `None` where it reports an error.
pub uninterp spec fn zip_entry(archive: Seq<u8>, name: Seq<char>) -> Option<Seq<u8>>;

/// What taking the tool's binary out of a release archive gives: an archive
/// that cannot be opened is unreadable; one without an entry of the tool's
/// name misses the binary; else the entry's content, or, where that cannot be
/// read, an unreadable archive again.
pub open spec fn extracted(archive: Seq<u8>) -> Result<Seq<u8>, RuntimeError> {
    match zip_names(archive) {
        None => Err(RuntimeError::Archive),
        Some(names) => if !names.contains(tool()) {
            Err(RuntimeError::MissingExecutable)
        } else {
            match zip_entry(archive, tool()) {
                Some(content) => Ok(content),
                None => Err(RuntimeError::Archive),
            }
        },
    }
}

/// Opens `archive` with `zip::ZipArchive::new` and collects what `file_names`
/// yields. The contract gives the set of names its name; the order in which
/// they come is left open, as the archive keeps them in a hash map.
#[verifier::external_body]
fn entry_names(archive: &[u8]) -> (r: Option<Vec<String>>)
    ensures
        match r {
            Some(names) => zip_names(archive@) == Some(names.deep_view().to_set()),
            None => zip_names(archive@) is None,
        },
{
    let zip = zip::ZipArchive::new(std::io::Cursor::new(archive)).ok()?;
    Some(zip.file_names().map(String::from).collect())
}

/// Opens `archive` with `zip::ZipArchive::new` and reads the entry `name` to
/// its end. The entry is looked up through `by_name_decrypt` with an empty
/// password: an entry that needs no password is read as `by_name` reads it,
/// and an entry that `by_name` would panic on (one marked for AES without the
/// encryption flag) comes back as an error. The contract gives the outcome its
/// name: the same archive and name give the same bytes, or an error, every
/// time.
#[verifier::external_body]
fn read_entry(archive: &[u8], name: &str) -> (r: Option<Vec<u8>>)
    ensures
        match r {
            Some(content) => zip_entry(archive@, name@) == Some(content@),
            None => zip_entry(archive@, name@) is None,
        },
{
    let mut zip = zip::ZipArchive::new(std::io::Cursor::new(archive)).ok()?;
    let mut file = zip.by_name_decrypt(name, b"").ok()?.ok()?;
    let mut content = Vec::new();
    std::io::Read::read_to_end(&mut file, &mut content).ok()?;
    Some(content)
}

/// Whether one of `names` is `name`.
pub fn has_name(names: &Vec<String>, name: &str) -> (r: bool)
    ensures
        r == names.deep_view().to_set().contains(name@),
{
    let mut i: usize = 0;
    while i < names.len()
        invariant
            i <= names.len(),
            forall|j: int| 0 <= j < i ==> names[j]@ != name@,
        decreases names.len() - i,
    {
        if same_text(names[i].as_str(), name) {
            assert(names.deep_view()[i as int] == name@);
            assert(names.deep_view().contains(name@));
            return true;
        }
        i += 1;
    }
    assert(!names.deep_view().contains(name@)) by {
        if names.deep_view().contains(name@) {
            let k = choose|k: int| 0 <= k < names.deep_view().len() && names.deep_view()[k] == name@;
            assert(names[k]@ == name@);
        }
    }
    false
}

/// Takes the tool's binary out of a release archive.
pub fn extract_terraform(archive: &[u8]) -> (r: Result<Vec<u8>, RuntimeError>)
    ensures
        match r {
            Ok(content) => extracted(archive@) == Ok::<Seq<u8>, RuntimeError>(content@),
            Err(error) => extracted(archive@) == Err::<Seq<u8>, RuntimeError>(error),
        },
{
    let names = match entry_names(archive) {
        Some(names) => names,
        None => { return Err(RuntimeError::Archive); },
    };
    if !has_name(&names, "terraform") {
        return Err(RuntimeError::MissingExecutable);
    }
    match read_entry(archive, "terraform") {
        Some(content) => Ok(content),
        None => Err(RuntimeError::Archive),
    }
}

/// The name of the tool's binary.
pub fn tool_name() -> (name: &'static str)
    ensures
        name@ == tool(),
{
    "terraform"
}

/// The name of the environment variable that overrides the root of the cache.
pub fn cache_variable() -> (name: &'static str)
    ensures
        name@ == "TERRADRIFT_TF_CACHE"@,
{
    "TERRADRIFT_TF_CACHE"
}

/// The version that is taken where none is asked for.
pub fn default_version() -> (v: &'static str)
    ensures
        v@ == baseline_version(),
{
    "1.7.5"
}

/// The names under which releases know the operating system and the
/// instruction set of a platform. A name that releases do not know under
/// another one is handed on as it is.
pub fn platform_triple<'a>(os: &'a str, arch: &'a str) -> (r: (&'a str, &'a str))
    ensures
        r.0@ == release_os(os@),
        r.1@ == release_arch(arch@),
{
    let release_os = if same_text(os, "macos") {
        "darwin"
    } else {
        os
    };
    let release_arch = if same_text(arch, "x86_64") {
        "amd64"
    } else if same_text(arch, "aarch64") {
        "arm64"
    } else {
        arch
    };
    (release_os, release_arch)
}

/// The name of the release archive of `version` for a platform.
pub fn archive_file_name(version: &str, os: &str, arch: &str) -> (name: String)
    ensures
        name@ == archive_name(version@, os@, arch@),
{
    let (release_os, release_arch) = platform_triple(os, arch);
    let mut name = String::from_str("terraform_");
    name.append(version);
    name.append("_");
    name.append(release_os);
    name.append("_");
    name.append(release_arch);
    name.append(".zip");
    name
}

/// The address of the release archive of `version` for a platform.
pub fn download_url(version: &str, os: &str, arch: &str) -> (url: String)
    ensures
        url@ == release_url(version@, os@, arch@),
{
    let file_name = archive_file_name(version, os, arch);
    let mut url = String::from_str("https://releases.hashicorp.com/terraform/");
    url.append(version);
    url.append("/");
    url.append(file_name.as_str());
    assert(url@ =~= release_url(version@, os@, arch@));
    url
}

/// Where the binary of a version is kept on this machine.
pub fn cache_location(
    version: Option<&str>,
    cache_override: Option<&str>,
    user_cache_dir: Option<&str>,
) -> (location: BinaryLocation)
    ensures
        location.base@ == cache_base(opt_view(cache_override), opt_view(user_cache_dir)),
        location.components.deep_view() == cache_components(
            opt_view(cache_override),
            chosen_version(opt_view(version)),
        ),
{
    let v = match version {
        Some(v) => v,
        None => default_version(),
    };
    let mut components: Vec<String> = Vec::new();
    let base = match cache_override {
        Some(root) => String::from_str(root),
        None => {
            components.push(String::from_str("terradrift/terraform"));
            match user_cache_dir {
                Some(dir) => String::from_str(dir),
                None => String::from_str("/tmp"),
            }
        },
    };
    components.push(String::from_str(v));
    components.push(String::from_str("terraform"));
    assert(components.deep_view() =~= cache_components(
        opt_view(cache_override),
        chosen_version(opt_view(version)),
    ));
    BinaryLocation { base, components }
}

/// Resolves the binary of the tool. `on_search_path` is where the search path
/// has it, if it does; `cached` says whether the binary of the chosen version
/// lies at its place in the cache.
pub fn ensure_terraform(
    on_search_path: Option<&str>,
    version: Option<&str>,
    cache_override: Option<&str>,
    user_cache_dir: Option<&str>,
    cached: bool,
    os: &str,
    arch: &str,
) -> (r: Resolution)
    ensures
        r@ == resolution(
            opt_view(on_search_path),
            opt_view(version),
            opt_view(cache_override),
            opt_view(user_cache_dir),
            cached,
            os@,
            arch@,
        ),
{
    match on_search_path {
        Some(path) => Resolution::OnSearchPath(String::from_str(path)),
        None => {
            let destination = cache_location(version, cache_override, user_cache_dir);
            if cached {
                Resolution::Cached(destination)
            } else {
                let v = match version {
                    Some(v) => v,
                    None => default_version(),
                };
                Resolution::Download { url: download_url(v, os, arch), destination }
            }
        },
    }
}

/// The arguments with which the tool is asked for its version.
pub fn version_arguments() -> (args: Vec<String>)
    ensures
        args.deep_view() == seq!["version"@, "-json"@],
{
    let mut args: Vec<String> = Vec::new();
    args.push(String::from_str("version"));
    args.push(String::from_str("-json"));
    assert(args.deep_view() =~= seq!["version"@, "-json"@]);
    args
}

/// The version that a document of the tool's version query names.
pub fn version_of(doc: &Json) -> (v: String)
    ensures
        v@ == version_in(doc@),
{
    match doc.get("terraform_version") {
        Some(field) => match field.as_str() {
            Some(text) => String::from_str(text),
            None => String::new(),
        },
        None => String::new(),
    }
}

/// The version that the output of the tool's version query names; `None`
/// where the output is not a JSON document.
pub fn terraform_version(output: &[u8]) -> (r: Option<String>)
    ensures
        match json_document(output@) {
            Some(doc) => r is Some && r->0@ == version_in(doc),
            None => r is None,
        },
{
    match Json::parse(output) {
        Some(doc) => Some(version_of(&doc)),
        None => None,
    }
}

/// Resolving twice does not download twice: where the first resolution asks
/// for a download and the binary has been installed at its destination, the
/// second resolution with the same version finds it there, at the same place,
/// and asks for nothing. A binary on the search path is taken both times.
pub proof fn lemma_resolve_twice(
    on_search_path: Option<Seq<char>>,
    version: Option<Seq<char>>,
    cache_override: Option<Seq<char>>,
    user_cache: Option<Seq<char>>,
    os: Seq<char>,
    arch: Seq<char>,
)
    ensures
        ({
            let first = resolution(
                on_search_path,
                version,
                cache_override,
                user_cache,
                false,
                os,
                arch,
            );
            let second = resolution(
                on_search_path,
                version,
                cache_override,
                user_cache,
                true,
                os,
                arch,
            );
            &&& !(second is Download)
            &&& first is OnSearchPath ==> second == first
            &&& first is Download ==> second == ResolutionView::Cached(
                first->Download_base,
                first->Download_components,
            )
        }),
{
}

} // verus!
