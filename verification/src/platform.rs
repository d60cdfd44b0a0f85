//! The host platform the engine runs against: a file system rooted at the
//! game directory, the renderer, the audio queue and the clock.
//!
//! The file system's decisions live here: which paths a game may name, how a
//! file found while walking a directory is named and whether it is wanted,
//! and how file-system outcomes map to engine errors. Reading and writing
//! files is the caller's part.
use crate::audio::HostAudio;
use crate::host_types::{RfvpError, RfvpFileInfo, RfvpFileKind};
use crate::renderer::{HostClock, HostRenderer};
use vstd::prelude::*;

verus! {

/// One component of a path, as `std::path` splits it.
#[derive(Clone, Copy, Debug, PartialEq, Eq, Structural)]
pub enum PathPart {
    /// A Windows prefix such as a drive letter.
    Prefix,
    Root,
    Current,
    Parent,
    Normal,
}

/// Whether `std::path` takes `path` as absolute on the target the library is built for.
pub uninterp spec fn path_is_absolute_spec(path: Seq<char>) -> bool;

/// `path` with the leading path `base` taken off, as `std::path` does it,
/// when `base` is a leading path of it.
pub uninterp spec fn path_strip_prefix_spec(path: Seq<char>, base: Seq<char>) -> Option<Seq<char>>;

/// The components `std::path` splits `path` into.
pub uninterp spec fn path_components_spec(path: Seq<char>) -> Seq<PathPart>;

/// `path` joined onto `base`, as `std::path` does it.
pub uninterp spec fn path_join_spec(base: Seq<char>, path: Seq<char>) -> Seq<char>;

/// The extension `std::path` finds in `path`, if any.
pub uninterp spec fn path_extension_spec(path: Seq<char>) -> Option<Seq<char>>;

/// Calls `Path::is_absolute`. Its result depends on the text of `path`
/// alone, by the path rules of the target the library is built for.
#[verifier::external_body]
fn path_is_absolute(path: &str) -> (b: bool)
    ensures
        b == path_is_absolute_spec(path@),
{
    std::path::Path::new(path).is_absolute()
}

/// Calls `Path::strip_prefix`: `None` when `base` is not a leading path of
/// `path`, else the rest of `path`, as text.
#[verifier::external_body]
fn path_strip_prefix(path: &str, base: &str) -> (r: Option<String>)
    ensures
        match r {
            Some(s) => path_strip_prefix_spec(path@, base@) == Some(s@),
            None => path_strip_prefix_spec(path@, base@) is None,
        },
{
    match std::path::Path::new(path).strip_prefix(base) {
        Ok(rest) => Some(rest.to_string_lossy().into_owned()),
        Err(_) => None,
    }
}

/// Calls `Path::components`, naming each component by its kind.
#[verifier::external_body]
fn path_components(path: &str) -> (r: Vec<PathPart>)
    ensures
        r@ == path_components_spec(path@),
{
    std::path::Path::new(path).components().map(
        |c| match c {
            std::path::Component::Prefix(_) => PathPart::Prefix,
            std::path::Component::RootDir => PathPart::Root,
            std::path::Component::CurDir => PathPart::Current,
            std::path::Component::ParentDir => PathPart::Parent,
            std::path::Component::Normal(_) => PathPart::Normal,
        },
    ).collect()
}

/// Calls `Path::join`, giving the joined path as text.
#[verifier::external_body]
fn path_join(base: &str, path: &str) -> (r: String)
    ensures
        r@ == path_join_spec(base@, path@),
{
    std::path::Path::new(base).join(path).to_string_lossy().into_owned()
}

/// Calls `Path::extension`, giving the extension as text.
#[verifier::external_body]
fn path_extension(path: &str) -> (r: Option<String>)
    ensures
        match r {
            Some(s) => path_extension_spec(path@) == Some(s@),
            None => path_extension_spec(path@) is None,
        },
{
    std::path::Path::new(path).extension().map(|e| e.to_string_lossy().into_owned())
}

/// Calls `str::replace` to turn every backslash of `text` into a slash.
#[verifier::external_body]
fn backslashes_to_slashes(text: &str) -> (r: String)
    ensures
        r@ == text@.map_values(|c: char| if c == '\\' { '/' } else { c }),
{
    text.replace('\\', "/")
}

/// Whether `parts` holds a parent-directory component.
pub fn has_parent_part(parts: &[PathPart]) -> (b: bool)
    ensures
        b == parts@.contains(PathPart::Parent),
{
    let mut i: usize = 0;
    while i < parts.len()
        invariant
            i <= parts@.len(),
            forall|j: int| 0 <= j < i ==> parts@[j] != PathPart::Parent,
        decreases parts@.len() - i,
    {
        if parts[i] == PathPart::Parent {
            assert(parts@[i as int] == PathPart::Parent);
            return true;
        }
        i = i + 1;
    }
    false
}

/// The path under `root` that a game's `path` names: an absolute path must
/// lie under the root, and no path may climb out through a parent component.
pub open spec fn resolve_spec(root: Seq<char>, path: Seq<char>) -> Result<Seq<char>, RfvpError> {
    let relative = if path_is_absolute_spec(path) {
        path_strip_prefix_spec(path, root)
    } else {
        Some(path)
    };
    match relative {
        None => Err(RfvpError::InvalidArgument),
        Some(rel) => if path_components_spec(rel).contains(PathPart::Parent) {
            Err(RfvpError::InvalidArgument)
        } else {
            Ok(path_join_spec(root, rel))
        },
    }
}

/// ASCII lower case of one byte.
pub open spec fn ascii_lower(b: u8) -> u8 {
    if 65 <= b <= 90 {
        (b + 32) as u8
    } else {
        b
    }
}

/// Whether two byte strings match with ASCII letters compared case-insensitively.
pub open spec fn ascii_ci_eq(a: Seq<u8>, b: Seq<u8>) -> bool {
    a.len() == b.len() && forall|i: int| 0 <= i < a.len() ==> ascii_lower(a[i]) == ascii_lower(b[i])
}

/// Whether `a` and `b` are an ASCII case-insensitive match.
pub fn eq_ignore_ascii_case(a: &str, b: &str) -> (r: bool)
    ensures
        r == ascii_ci_eq(vstd::utf8::encode_utf8(a@), vstd::utf8::encode_utf8(b@)),
{
    let x = a.as_bytes();
    let y = b.as_bytes();
    if x.len() != y.len() {
        return false;
    }
    let mut i: usize = 0;
    while i < x.len()
        invariant
            i <= x@.len(),
            x@.len() == y@.len(),
            x@ == vstd::utf8::encode_utf8(a@),
            y@ == vstd::utf8::encode_utf8(b@),
            forall|j: int| 0 <= j < i ==> ascii_lower(x@[j]) == ascii_lower(y@[j]),
        decreases x@.len() - i,
    {
        let p = x[i];
        let q = y[i];
        let lp = if 65 <= p && p <= 90 {
            p + 32
        } else {
            p
        };
        let lq = if 65 <= q && q <= 90 {
            q + 32
        } else {
            q
        };
        assert(lp == ascii_lower(x@[i as int]) && lq == ascii_lower(y@[i as int]));
        if lp != lq {
            return false;
        }
        i = i + 1;
    }
    true
}

/// Whether a directory entry is one that an enumeration by extension
/// reports: a file whose extension matches the wanted one, ignoring ASCII case.
pub open spec fn wanted_entry(
    is_file: bool,
    extension: Option<Seq<char>>,
    wanted: Seq<char>,
) -> bool {
    is_file && match extension {
        Some(e) => ascii_ci_eq(vstd::utf8::encode_utf8(e), vstd::utf8::encode_utf8(wanted)),
        None => false,
    }
}

/// The kind of file system entry that the metadata flags describe.
pub fn file_kind(is_file: bool, is_dir: bool) -> (k: RfvpFileKind)
    ensures
        k == (if is_file {
            RfvpFileKind::File
        } else if is_dir {
            RfvpFileKind::Directory
        } else {
            RfvpFileKind::Other
        }),
{
    if is_file {
        RfvpFileKind::File
    } else if is_dir {
        RfvpFileKind::Directory
    } else {
        RfvpFileKind::Other
    }
}

/// The engine error for a file system failure: a missing entry is not
/// found, anything else is an I/O error.
pub fn io_failure(not_found: bool) -> (e: RfvpError)
    ensures
        e == (if not_found {
            RfvpError::NotFound
        } else {
            RfvpError::Io
        }),
{
    if not_found {
        RfvpError::NotFound
    } else {
        RfvpError::Io
    }
}

/// The game's file system: every path is taken relative to the game directory.
pub struct HostFileSystem {
    pub root: String,
}

impl HostFileSystem {
    pub fn new(root: &str) -> (fs: Self)
        ensures
            fs.root@ == root@,
    {
        HostFileSystem { root: root.to_owned() }
    }

    /// The path that a game's `path` names on the host (see `resolve_spec`).
    pub fn resolve(&self, path: &str) -> (r: Result<String, RfvpError>)
        ensures
            match r {
                Ok(p) => resolve_spec(self.root@, path@) == Ok::<Seq<char>, RfvpError>(p@),
                Err(e) => resolve_spec(self.root@, path@) == Err::<Seq<char>, RfvpError>(e),
            },
    {
        let relative = if path_is_absolute(path) {
            match path_strip_prefix(path, self.root.as_str()) {
                Some(rest) => rest,
                None => return Err(RfvpError::InvalidArgument),
            }
        } else {
            path.to_owned()
        };
        let parts = path_components(relative.as_str());
        if has_parent_part(parts.as_slice()) {
            return Err(RfvpError::InvalidArgument);
        }
        Ok(path_join(self.root.as_str(), relative.as_str()))
    }

    /// Whether the file at `path`, found while walking a directory, is one an
    /// enumeration for extension `wanted` reports.
    pub fn is_wanted_entry(&self, path: &str, is_file: bool, wanted: &str) -> (b: bool)
        ensures
            b == wanted_entry(is_file, path_extension_spec(path@), wanted@),
    {
        if !is_file {
            return false;
        }
        match path_extension(path) {
            Some(extension) => eq_ignore_ascii_case(extension.as_str(), wanted),
            None => false,
        }
    }

    /// The name under which a file found while walking a directory is
    /// reported: its path under the game directory (or the whole path when
    /// it lies elsewhere), with slashes as separators.
    pub fn entry_name(&self, path: &str) -> (name: String)
        ensures
            name@ == (match path_strip_prefix_spec(path@, self.root@) {
                Some(rest) => rest,
                None => path@,
            }).map_values(|c: char| if c == '\\' { '/' } else { c }),
    {
        let relative = match path_strip_prefix(path, self.root.as_str()) {
            Some(rest) => rest,
            None => path.to_owned(),
        };
        backslashes_to_slashes(relative.as_str())
    }

    /// What the metadata of the entry at a resolved path says about it.
    pub fn entry_info(&self, len: u64, is_file: bool, is_dir: bool) -> (info: RfvpFileInfo)
        ensures
            info.len == len,
            info.kind == (if is_file {
                RfvpFileKind::File
            } else if is_dir {
                RfvpFileKind::Directory
            } else {
                RfvpFileKind::Other
            }),
    {
        RfvpFileInfo { len, kind: file_kind(is_file, is_dir) }
    }
}

/// Everything the engine reaches the host through.
pub struct HostPlatform {
    pub filesystem: HostFileSystem,
    pub renderer: HostRenderer,
    pub audio: HostAudio,
    pub clock: HostClock,
}

impl HostPlatform {
    /// A platform whose file system is rooted at `game_root`, with a fresh
    /// renderer, an empty audio queue and the clock at zero.
    pub fn new(game_root: &str) -> (p: Self)
        ensures
            p.filesystem.root@ == game_root@,
            p.renderer.recorder().is_fresh(),
            p.renderer.generations() == Map::<u32, u64>::empty(),
            p.renderer.textures() == Map::<u32, crate::recording::CreateView>::empty(),
            !p.renderer.white_ready(),
            p.audio.queued().len() == 0,
            p.clock.now_us == 0,
    {
        HostPlatform {
            filesystem: HostFileSystem::new(game_root),
            renderer: HostRenderer::new(),
            audio: HostAudio::new(),
            clock: HostClock::new(),
        }
    }

    /// Moves the clock on for a step of `delta_ms` milliseconds; a step
    /// always advances it by at least one millisecond.
    pub fn advance_for_step(&mut self, delta_ms: u32)
        ensures
            ({
                let d: int = if delta_ms == 0 {
                    1
                } else {
                    delta_ms as int
                };
                final(self).clock.now_us == (if old(self).clock.now_us + d * 1000 > u64::MAX {
                    u64::MAX as int
                } else {
                    old(self).clock.now_us + d * 1000
                })
            }),
            final(self).filesystem == old(self).filesystem,
            final(self).renderer == old(self).renderer,
            final(self).audio == old(self).audio,
    {
        let delta = if delta_ms < 1 {
            1
        } else {
            delta_ms
        };
        self.clock.advance_ms(delta);
    }
}

} // verus!
