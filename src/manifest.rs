//! Flatpak manifests: the record that the pipeline reads from a manifest,
//! and the checks and choices made on it.

use vstd::prelude::*;
use vstd::string::StringSliceAdditionalSpecFns;
use vstd::utf8::encode_utf8;

use crate::stat::is_digit;
use crate::text::{occurs_at, occurs_at_index};

verus! {

/// A JSON value carried through unchanged (module sources, build options).
#[verifier::external_type_specification]
#[verifier::external_body]
pub struct ExJsonValue(serde_json::Value);

/// Longest D-Bus name, in bytes.
pub const DBUS_NAME_MAX_LEN: usize = 255;

/// A character allowed after the first of a D-Bus name element.
pub open spec fn is_element_char(c: char) -> bool {
    ('a' <= c && c <= 'z') || ('A' <= c && c <= 'Z') || ('0' <= c && c <= '9') || c == '-' || c
        == '_'
}

/// One dot-separated element of a D-Bus name: non-empty, not starting with a
/// digit, and made of ASCII letters, digits, `-` and `_` after its first
/// character.
pub open spec fn valid_element(e: Seq<char>) -> bool {
    &&& e.len() > 0
    &&& !is_digit(e[0])
    &&& forall|i: int| 1 <= i < e.len() ==> is_element_char(#[trigger] e[i])
}

/// The pieces of `s` between occurrences of `sep`, where `cur` is a piece
/// begun before `s`.
pub open spec fn pieces_from(s: Seq<char>, sep: char, cur: Seq<char>) -> Seq<Seq<char>>
    decreases s.len(),
{
    if s.len() == 0 {
        seq![cur]
    } else if s[0] == sep {
        seq![cur] + pieces_from(s.drop_first(), sep, seq![])
    } else {
        pieces_from(s.drop_first(), sep, cur.push(s[0]))
    }
}

/// The pieces of `s` between occurrences of `sep`, empty ones included.
pub open spec fn pieces(s: Seq<char>, sep: char) -> Seq<Seq<char>> {
    pieces_from(s, sep, seq![])
}

/// A valid application id: between 1 and 255 bytes long, holding at least
/// one dot, and every dot-separated element valid.
pub open spec fn is_valid_dbus_name_spec(name: Seq<char>) -> bool {
    &&& 0 < encode_utf8(name).len() <= DBUS_NAME_MAX_LEN
    &&& name.contains('.')
    &&& forall|k: int| 0 <= k < pieces(name, '.').len() ==> valid_element(#[trigger] pieces(name, '.')[k])
}

pub fn is_valid_dbus_name(name: &str) -> (r: bool)
    ensures
        r == is_valid_dbus_name_spec(name@),
{
    let bytes = name.as_bytes();
    let byte_len = bytes.len();
    if byte_len == 0 || byte_len > DBUS_NAME_MAX_LEN {
        return false;
    }
    let n = name.unicode_len();
    let mut i: usize = 0;
    let mut seen_dot = false;
    let mut cur_len: usize = 0;
    let mut cur_ok = false;
    let ghost mut cur: Seq<char> = seq![];
    let ghost mut done: Seq<Seq<char>> = seq![];
    assert(name@.skip(0) =~= name@);
    while i < n
        invariant
            i <= n,
            n == name@.len(),
            pieces(name@, '.') == done + pieces_from(name@.skip(i as int), '.', cur),
            forall|k: int| 0 <= k < done.len() ==> valid_element(#[trigger] done[k]),
            cur_len == cur.len(),
            cur_len <= i,
            cur_ok == valid_element(cur),
            seen_dot == name@.take(i as int).contains('.'),
            0 < name.spec_bytes().len() <= DBUS_NAME_MAX_LEN,
        decreases n - i,
    {
        let c = name.get_char(i);
        let ghost t = name@.skip(i as int);
        assert(t[0] == c);
        assert(t.drop_first() =~= name@.skip(i + 1));
        assert(name@.take(i + 1) =~= name@.take(i as int).push(c));
        proof {
            let p = name@.take(i as int);
            let q = name@.take(i + 1);
            if c == '.' {
                assert(q[i as int] == '.');
            } else {
                if p.contains('.') {
                    let j = choose|j: int| 0 <= j < p.len() && p[j] == '.';
                    assert(q[j] == '.');
                }
                if q.contains('.') {
                    let j = choose|j: int| 0 <= j < q.len() && q[j] == '.';
                    assert(j < i);
                    assert(p[j] == '.');
                }
            }
        }
        if c == '.' {
            assert(pieces_from(t, '.', cur) == seq![cur] + pieces_from(t.drop_first(), '.', seq![]));
            if !cur_ok {
                assert(pieces(name@, '.')[done.len() as int] == cur);
                assert(!valid_element(pieces(name@, '.')[done.len() as int]));
                return false;
            }
            proof {
                assert(done + (seq![cur] + pieces_from(t.drop_first(), '.', seq![])) =~= done.push(cur)
                    + pieces_from(t.drop_first(), '.', seq![]));
                done = done.push(cur);
                cur = seq![];
            }
            seen_dot = true;
            cur_len = 0;
            cur_ok = false;
        } else {
            assert(pieces_from(t, '.', cur) == pieces_from(t.drop_first(), '.', cur.push(c)));
            let char_ok = ('a' <= c && c <= 'z') || ('A' <= c && c <= 'Z') || ('0' <= c && c <= '9')
                || c == '-' || c == '_';
            if cur_len == 0 {
                cur_ok = !('0' <= c && c <= '9');
            } else {
                cur_ok = cur_ok && char_ok;
            }
            proof {
                let old_cur = cur;
                cur = cur.push(c);
                if old_cur.len() > 0 {
                    if valid_element(old_cur) && is_element_char(c) {
                        assert forall|j: int| 1 <= j < cur.len() implies is_element_char(
                            #[trigger] cur[j],
                        ) by {
                            if j < old_cur.len() {
                                assert(cur[j] == old_cur[j]);
                            }
                        }
                    }
                    if !is_element_char(c) {
                        assert(!is_element_char(cur[cur.len() - 1]));
                    }
                    if !valid_element(old_cur) {
                        if !is_digit(old_cur[0]) {
                            let j = choose|j: int|
                                1 <= j < old_cur.len() && !is_element_char(#[trigger] old_cur[j]);
                            assert(cur[j] == old_cur[j]);
                        }
                    }
                }
            }
            cur_len = cur_len + 1;
        }
        i = i + 1;
    }
    assert(name@.skip(i as int) =~= seq![]);
    assert(name@.take(i as int) =~= name@);
    assert(pieces(name@, '.') =~= done.push(cur));
    if !cur_ok {
        assert(pieces(name@, '.')[done.len() as int] == cur);
        return false;
    }
    seen_dot
}

/// A module of a manifest: a full build-module record, or a bare reference
/// to a module file.
pub enum Module {
    Object {
        name: String,
        buildsystem: Option<String>,
        config_opts: Option<Vec<String>>,
        build_commands: Option<Vec<String>>,
        post_install: Option<Vec<String>>,
        sources: Vec<serde_json::Value>,
    },
    Reference(String),
}

/// What the pipeline reads from a Flatpak manifest.
pub struct Manifest {
    pub id: String,
    pub sdk: String,
    pub runtime: String,
    pub runtime_version: String,
    pub command: String,
    pub x_run_args: Option<Vec<String>>,
    pub modules: Vec<Module>,
    pub finish_args: Vec<String>,
    pub build_options: serde_json::Value,
    pub cleanup: Vec<String>,
}

/// Why a manifest cannot be used.
#[derive(Debug, Clone, Copy, PartialEq, Eq, Structural)]
pub enum ManifestError {
    /// The file's extension is none of `json`, `yaml`, `yml`.
    UnsupportedFormat,
    /// The application id is not a valid D-Bus name.
    InvalidAppId,
    /// The manifest lists no module.
    NoModules,
    /// The application module names a build system that is not supported.
    UnsupportedBuildSystem,
}

/// How the application module is built.
#[derive(Debug, Clone, Copy, PartialEq, Eq, Structural)]
pub enum BuildSystem {
    Meson,
    CMake,
    /// The module's own build commands.
    Simple,
    Autotools,
}

/// The build system that a module's `buildsystem` entry selects: autotools
/// when the entry is absent or unknown; qmake is refused.
pub open spec fn build_system_spec(entry: Option<Seq<char>>) -> Result<BuildSystem, ManifestError> {
    match entry {
        Some(e) => if e == "meson"@ {
            Ok(BuildSystem::Meson)
        } else if e == "cmake"@ || e == "cmake-ninja"@ {
            Ok(BuildSystem::CMake)
        } else if e == "simple"@ {
            Ok(BuildSystem::Simple)
        } else if e == "qmake"@ {
            Err(ManifestError::UnsupportedBuildSystem)
        } else {
            Ok(BuildSystem::Autotools)
        },
        None => Ok(BuildSystem::Autotools),
    }
}

pub fn build_system_of(entry: &Option<String>) -> (r: Result<BuildSystem, ManifestError>)
    ensures
        r == build_system_spec(
            match entry {
                Some(e) => Some(e@),
                None => None,
            },
        ),
{
    match entry {
        None => Ok(BuildSystem::Autotools),
        Some(e) => {
            if *e == String::from_str("meson") {
                Ok(BuildSystem::Meson)
            } else if *e == String::from_str("cmake") || *e == String::from_str("cmake-ninja") {
                Ok(BuildSystem::CMake)
            } else if *e == String::from_str("simple") {
                Ok(BuildSystem::Simple)
            } else if *e == String::from_str("qmake") {
                Err(ManifestError::UnsupportedBuildSystem)
            } else {
                Ok(BuildSystem::Autotools)
            }
        },
    }
}

/// How a manifest file is encoded.
#[derive(Debug, Clone, Copy, PartialEq, Eq, Structural)]
pub enum ManifestFormat {
    Json,
    Yaml,
}

/// The last component of a `/`-separated path.
pub open spec fn file_name_of(path: Seq<char>) -> Seq<char>
    decreases path.len(),
{
    if path.len() == 0 {
        path
    } else if path.last() == '/' {
        seq![]
    } else {
        file_name_of(path.drop_last()).push(path.last())
    }
}

/// What follows the last dot of a file name, when that dot is not its first
/// character.
pub open spec fn extension_of(file_name: Seq<char>) -> Option<Seq<char>>
    decreases file_name.len(),
{
    if file_name.len() <= 1 {
        None
    } else if file_name.last() == '.' {
        Some(seq![])
    } else {
        match extension_of(file_name.drop_last()) {
            Some(e) => Some(e.push(file_name.last())),
            None => None,
        }
    }
}

pub open spec fn format_spec(path: Seq<char>) -> Result<ManifestFormat, ManifestError> {
    match extension_of(file_name_of(path)) {
        Some(e) => if e == "json"@ {
            Ok(ManifestFormat::Json)
        } else if e == "yaml"@ || e == "yml"@ {
            Ok(ManifestFormat::Yaml)
        } else {
            Err(ManifestError::UnsupportedFormat)
        },
        None => Err(ManifestError::UnsupportedFormat),
    }
}

/// Index in `path` where its last component starts.
fn file_name_start(path: &str) -> (r: usize)
    ensures
        r <= path@.len(),
        file_name_of(path@) == path@.subrange(r as int, path@.len() as int),
{
    let n = path.unicode_len();
    let mut start = n;
    assert(path@.take(n as int) =~= path@);
    assert(path@.subrange(n as int, n as int) =~= seq![]);
    assert(file_name_of(path@) =~= file_name_of(path@.take(n as int)) + path@.subrange(
        n as int,
        n as int,
    ));
    while start > 0
        invariant
            start <= n,
            n == path@.len(),
            file_name_of(path@) == file_name_of(path@.take(start as int)) + path@.subrange(
                start as int,
                n as int,
            ),
        decreases start,
    {
        let ghost p = path@.take(start as int);
        assert(p.drop_last() =~= path@.take(start - 1));
        if path.get_char(start - 1) == '/' {
            assert(file_name_of(p) == Seq::<char>::empty());
            assert(file_name_of(path@) =~= path@.subrange(start as int, n as int));
            return start;
        }
        assert(path@.subrange(start - 1, n as int) =~= seq![path@[start - 1]] + path@.subrange(
            start as int,
            n as int,
        ));
        assert(file_name_of(p) == file_name_of(path@.take(start - 1)).push(path@[start - 1]));
        assert(file_name_of(path@) =~= file_name_of(path@.take(start - 1)) + path@.subrange(
            start - 1,
            n as int,
        ));
        start = start - 1;
    }
    assert(path@.take(0) =~= seq![]);
    assert(file_name_of(path@) =~= path@.subrange(0, n as int));
    0
}

/// Index in `path` where the extension of the component starting at
/// `start` begins (one past its dot).
fn extension_start(path: &str, start: usize) -> (r: Option<usize>)
    requires
        start <= path@.len(),
    ensures
        match r {
            Some(d) => start < d <= path@.len() && extension_of(
                path@.subrange(start as int, path@.len() as int),
            ) == Some(path@.subrange(d as int, path@.len() as int)),
            None => extension_of(path@.subrange(start as int, path@.len() as int)) is None,
        },
{
    let n = path.unicode_len();
    let ghost name = path@.subrange(start as int, n as int);
    let mut dot = n;
    assert(path@.subrange(n as int, n as int) =~= seq![]);
    assert(path@.subrange(start as int, n as int) =~= name);
    proof {
        match extension_of(name) {
            Some(e) => {
                assert(e + path@.subrange(n as int, n as int) =~= e);
            },
            None => {},
        }
    }
    while dot - start > 1
        invariant
            start <= dot <= n,
            n == path@.len(),
            name == path@.subrange(start as int, n as int),
            extension_of(name) == match extension_of(path@.subrange(start as int, dot as int)) {
                Some(e) => Some(e + path@.subrange(dot as int, n as int)),
                None => None,
            },
        decreases dot,
    {
        let ghost f = path@.subrange(start as int, dot as int);
        assert(f.drop_last() =~= path@.subrange(start as int, dot - 1));
        if path.get_char(dot - 1) == '.' {
            assert(extension_of(f) == Some(Seq::<char>::empty()));
            assert(Seq::<char>::empty() + path@.subrange(dot as int, n as int) =~= path@.subrange(
                dot as int,
                n as int,
            ));
            return Some(dot);
        }
        assert(path@.subrange(dot - 1, n as int) =~= seq![path@[dot - 1]] + path@.subrange(
            dot as int,
            n as int,
        ));
        proof {
            match extension_of(f.drop_last()) {
                Some(e) => {
                    assert(e.push(path@[dot - 1]) + path@.subrange(dot as int, n as int) =~= e
                        + path@.subrange(dot - 1, n as int));
                },
                None => {},
            }
        }
        dot = dot - 1;
    }
    None
}

/// The encoding of the manifest at `path`, told by its extension.
pub fn manifest_format(path: &str) -> (r: Result<ManifestFormat, ManifestError>)
    ensures
        r == format_spec(path@),
{
    let n = path.unicode_len();
    let start = file_name_start(path);
    match extension_start(path, start) {
        None => Err(ManifestError::UnsupportedFormat),
        Some(d) => {
            let ext = String::from_str(path.substring_char(d, n));
            if ext == String::from_str("json") {
                Ok(ManifestFormat::Json)
            } else if ext == String::from_str("yaml") || ext == String::from_str("yml") {
                Ok(ManifestFormat::Yaml)
            } else {
                Err(ManifestError::UnsupportedFormat)
            }
        },
    }
}

/// Marks a development manifest when it occurs in its path.
pub const DEVEL_MARKER: &'static str = ".Devel.";

pub open spec fn is_devel_path(path: Seq<char>) -> bool {
    exists|i: int| occurs_at(path, DEVEL_MARKER@, i)
}

/// How many of `pieces` name something: non-empty and other than `.`.
pub open spec fn named_count(pieces: Seq<Seq<char>>) -> nat
    decreases pieces.len(),
{
    if pieces.len() == 0 {
        0
    } else {
        named_count(pieces.drop_last()) + if pieces.last().len() > 0 && pieces.last() != seq![
            '.',
        ] {
            1nat
        } else {
            0nat
        }
    }
}

/// The number of components of a Unix path: the root for a leading `/`, the
/// current directory for a leading `.` piece, then every piece between
/// slashes other than an empty one or `.`.
pub open spec fn component_count(path: Seq<char>) -> nat {
    (if path.len() > 0 && path[0] == '/' {
        1nat
    } else {
        0nat
    }) + (if path.len() > 0 && path[0] == '.' && (path.len() == 1 || path[1] == '/') {
        1nat
    } else {
        0nat
    }) + named_count(pieces(path, '/'))
}

fn contains_devel_marker(path: &str) -> (r: bool)
    ensures
        r == is_devel_path(path@),
{
    let n = path.unicode_len();
    let mut i: usize = 0;
    while i <= n
        invariant
            n == path@.len(),
            forall|k: int| 0 <= k < i ==> !occurs_at(path@, DEVEL_MARKER@, k),
        decreases n + 1 - i,
    {
        if occurs_at_index(path, DEVEL_MARKER, i) {
            return true;
        }
        if i == n {
            assert forall|k: int| 0 <= k implies !occurs_at(path@, DEVEL_MARKER@, k) by {
                if k > n {
                    assert(k + DEVEL_MARKER@.len() > path@.len());
                }
            }
            return false;
        }
        i = i + 1;
    }
    false
}

fn path_component_count(path: &str) -> (r: usize)
    ensures
        r == component_count(path@),
{
    let n = path.unicode_len();
    let mut i: usize = 0;
    let mut count: usize = 0;
    let mut cur_len: usize = 0;
    let mut cur_is_dot = false;
    let ghost mut cur: Seq<char> = seq![];
    let ghost mut done: Seq<Seq<char>> = seq![];
    assert(path@.skip(0) =~= path@);
    while i < n
        invariant
            i <= n,
            n == path@.len(),
            pieces(path@, '/') == done + pieces_from(path@.skip(i as int), '/', cur),
            count == named_count(done),
            2 * count + cur_len <= i + 1,
            cur_len <= i,
            cur_len == cur.len(),
            cur_is_dot == (cur == seq!['.']),
        decreases n - i,
    {
        let c = path.get_char(i);
        let ghost t = path@.skip(i as int);
        assert(t[0] == c);
        assert(t.drop_first() =~= path@.skip(i + 1));
        if c == '/' {
            assert(pieces_from(t, '/', cur) == seq![cur] + pieces_from(t.drop_first(), '/', seq![]));
            proof {
                assert(done + (seq![cur] + pieces_from(t.drop_first(), '/', seq![])) =~= done.push(cur)
                    + pieces_from(t.drop_first(), '/', seq![]));
                assert(done.push(cur).drop_last() =~= done);
            }
            if cur_len > 0 && !cur_is_dot {
                count = count + 1;
            }
            proof {
                done = done.push(cur);
                cur = seq![];
                assert(cur != seq!['.']) by {
                    assert(seq!['.'].len() == 1);
                }
            }
            cur_len = 0;
            cur_is_dot = false;
        } else {
            assert(pieces_from(t, '/', cur) == pieces_from(t.drop_first(), '/', cur.push(c)));
            cur_is_dot = cur_len == 0 && c == '.';
            proof {
                let old_cur = cur;
                cur = cur.push(c);
                if old_cur.len() > 0 {
                    assert(cur.len() > 1);
                    assert(cur != seq!['.']) by {
                        assert(seq!['.'].len() == 1);
                    }
                } else {
                    assert(cur =~= seq![c]);
                    if c == '.' {
                        assert(cur =~= seq!['.']);
                    } else {
                        assert(cur[0] != seq!['.'][0]);
                    }
                }
            }
            cur_len = cur_len + 1;
        }
        i = i + 1;
    }
    assert(path@.skip(i as int) =~= seq![]);
    assert(pieces(path@, '/') =~= done.push(cur));
    assert(done.push(cur).drop_last() =~= done);
    if cur_len > 0 && !cur_is_dot {
        count = count + 1;
    }
    let root: usize = if n > 0 && path.get_char(0) == '/' {
        1
    } else {
        0
    };
    let current: usize = if n > 0 && path.get_char(0) == '.' && (n == 1 || path.get_char(1) == '/') {
        1
    } else {
        0
    };
    assert(root + current <= 1);
    count + root + current
}

/// Orders manifest paths for selection: development manifests (their path
/// holds `.Devel.`) before the others, then those with fewer components first.
pub open spec fn manifest_order(a: Seq<char>, b: Seq<char>) -> core::cmp::Ordering {
    if is_devel_path(a) != is_devel_path(b) {
        if is_devel_path(a) {
            core::cmp::Ordering::Less
        } else {
            core::cmp::Ordering::Greater
        }
    } else if component_count(a) < component_count(b) {
        core::cmp::Ordering::Less
    } else if component_count(a) > component_count(b) {
        core::cmp::Ordering::Greater
    } else {
        core::cmp::Ordering::Equal
    }
}

pub fn compare_manifest_paths(a: &str, b: &str) -> (r: core::cmp::Ordering)
    ensures
        r == manifest_order(a@, b@),
{
    let a_devel = contains_devel_marker(a);
    let b_devel = contains_devel_marker(b);
    if a_devel != b_devel {
        return if a_devel {
            core::cmp::Ordering::Less
        } else {
            core::cmp::Ordering::Greater
        };
    }
    let a_depth = path_component_count(a);
    let b_depth = path_component_count(b);
    if a_depth < b_depth {
        core::cmp::Ordering::Less
    } else if a_depth > b_depth {
        core::cmp::Ordering::Greater
    } else {
        core::cmp::Ordering::Equal
    }
}

impl Module {
    /// The name that `--stop-at` takes to stop before this module: the
    /// module's name, or the reference itself.
    pub fn stop_at_name(&self) -> (r: &String)
        ensures
            r == match self {
                Module::Object { name, .. } => name,
                Module::Reference(s) => s,
            },
    {
        match self {
            Module::Object { name, .. } => name,
            Module::Reference(s) => s,
        }
    }
}

impl Manifest {
    /// Accepts a decoded manifest only when its application id is a valid
    /// D-Bus name.
    pub fn check_app_id(self) -> (r: Result<Manifest, ManifestError>)
        ensures
            is_valid_dbus_name_spec(self.id@) ==> r == Ok::<Manifest, ManifestError>(self),
            !is_valid_dbus_name_spec(self.id@) ==> r == Err::<Manifest, ManifestError>(
                ManifestError::InvalidAppId,
            ),
    {
        if is_valid_dbus_name(self.id.as_str()) {
            Ok(self)
        } else {
            Err(ManifestError::InvalidAppId)
        }
    }

    /// The application's own module: the last one listed.
    pub fn application_module(&self) -> (r: Result<&Module, ManifestError>)
        ensures
            self.modules@.len() == 0 ==> r == Err::<&Module, ManifestError>(ManifestError::NoModules),
            self.modules@.len() > 0 ==> r == Ok::<&Module, ManifestError>(
                &self.modules@.last(),
            ),
    {
        let n = self.modules.len();
        if n == 0 {
            Err(ManifestError::NoModules)
        } else {
            Ok(&self.modules[n - 1])
        }
    }
}

} // verus!
