//! Where the helper executable and the CEF framework lie relative to the
//! extension's own shared library, and which permission bits make the
//! bundled executables runnable.
//!
//! The paths computed here are not yet resolved against the filesystem: the
//! caller canonicalizes them, which is where a missing file shows up as a
//! `CefError::PathError`.

use vstd::prelude::*;
use crate::error::{CefError, CefResult};
use crate::keycode::TargetOs;
use crate::mime::eq_literal;
use crate::text::{chars_of, concat, push_str, string_from_chars};

verus! {

/// Whether `c` separates path components on `os`.
pub open spec fn is_separator(os: TargetOs, c: char) -> bool {
    c == '/' || (os == TargetOs::Windows && c == '\\')
}

/// The separator that a join inserts on `os`.
pub open spec fn main_separator(os: TargetOs) -> char {
    if os == TargetOs::Windows {
        '\\'
    } else {
        '/'
    }
}

/// `rel` appended to `base` as a further component: a separator goes
/// between them unless `base` is empty or already ends with one.
pub open spec fn joined(os: TargetOs, base: Seq<char>, rel: Seq<char>) -> Seq<char> {
    if base.len() == 0 || is_separator(os, base.last()) {
        base + rel
    } else {
        base + seq![main_separator(os)] + rel
    }
}

/// Appends the relative path `rel` to `base` (see [`joined`]).
pub fn join_path(os: TargetOs, base: &str, rel: &str) -> (r: String)
    ensures
        r@ == joined(os, base@, rel@),
{
    let b = chars_of(base);
    let n = b.len();
    let sep: char = match os {
        TargetOs::Windows => '\\',
        _ => '/',
    };
    if n == 0 || b[n - 1] == '/' || (os == TargetOs::Windows && b[n - 1] == '\\') {
        concat(base, rel)
    } else {
        let mut out = b;
        out.push(sep);
        push_str(&mut out, rel);
        string_from_chars(&out)
    }
}

/// Where the helper executable lies relative to the library at `dylib`.
pub open spec fn subprocess_path_of(os: TargetOs, dylib: Seq<char>) -> Seq<char> {
    match os {
        TargetOs::MacOs => joined(
            os,
            joined(
                os,
                joined(os, joined(os, dylib, "../.."@), "Godot CEF.app/Contents/Frameworks"@),
                "Godot CEF Helper.app/Contents/MacOS"@,
            ),
            "Godot CEF Helper"@,
        ),
        TargetOs::Windows => joined(os, dylib, "../gdcef_helper.exe"@),
        TargetOs::Linux => joined(os, dylib, "../gdcef_helper"@),
    }
}

/// Where the macOS CEF framework lies relative to the library at `dylib`.
pub open spec fn framework_path_of(dylib: Seq<char>, framework: Seq<char>) -> Seq<char> {
    joined(
        TargetOs::MacOs,
        joined(
            TargetOs::MacOs,
            joined(TargetOs::MacOs, dylib, "../.."@),
            "Godot CEF.app/Contents/Frameworks"@,
        ),
        framework,
    )
}

/// Whether `r` is the error reported when the library's own path is unknown.
pub open spec fn is_missing_dylib_error<T>(r: CefResult<T>) -> bool {
    r matches Err(CefError::ResourceNotFound(m)) && m@ == "dylib path"@
}

/// The library's own path, or the error that says it could not be found.
fn get_dylib_path_checked<'a>(dylib_path: Option<&'a str>) -> (r: CefResult<&'a str>)
    ensures
        dylib_path matches Some(d) ==> r == Ok::<&'a str, CefError>(d),
        dylib_path is None ==> is_missing_dylib_error(r),
{
    match dylib_path {
        Some(d) => Ok(d),
        None => Err(CefError::ResourceNotFound("dylib path".to_string())),
    }
}

/// The path of the helper executable that CEF starts for its subprocesses,
/// given the path of this library (`None` where it could not be found).
///
/// - Linux: `<dylib>/../gdcef_helper`
/// - Windows: `<dylib>/../gdcef_helper.exe`
/// - macOS: `<dylib>/../../Godot CEF.app/Contents/Frameworks/Godot CEF
///   Helper.app/Contents/MacOS/Godot CEF Helper`
pub fn get_subprocess_path(os: TargetOs, dylib_path: Option<&str>) -> (r: CefResult<String>)
    ensures
        dylib_path is None ==> is_missing_dylib_error(r),
        dylib_path matches Some(d) ==> r matches Ok(p) && p@ == subprocess_path_of(os, d@),
{
    let dylib = get_dylib_path_checked(dylib_path)?;
    match os {
        TargetOs::MacOs => {
            let p = join_path(os, dylib, "../..");
            let p = join_path(os, p.as_str(), "Godot CEF.app/Contents/Frameworks");
            let p = join_path(os, p.as_str(), "Godot CEF Helper.app/Contents/MacOS");
            Ok(join_path(os, p.as_str(), "Godot CEF Helper"))
        },
        TargetOs::Windows => Ok(join_path(os, dylib, "../gdcef_helper.exe")),
        TargetOs::Linux => Ok(join_path(os, dylib, "../gdcef_helper")),
    }
}

/// The path of the macOS `Chromium Embedded Framework.framework` bundle,
/// given the path of this library.
pub fn get_framework_path(dylib_path: Option<&str>) -> (r: CefResult<String>)
    ensures
        dylib_path is None ==> is_missing_dylib_error(r),
        dylib_path matches Some(d) ==> r matches Ok(p) && p@ == framework_path_of(
            d@,
            "Chromium Embedded Framework.framework"@,
        ),
{
    let dylib = get_dylib_path_checked(dylib_path)?;
    let os = TargetOs::MacOs;
    let p = join_path(os, dylib, "../..");
    let p = join_path(os, p.as_str(), "Godot CEF.app/Contents/Frameworks");
    Ok(join_path(os, p.as_str(), "Chromium Embedded Framework.framework"))
}

/// The framework bundle built for a CPU architecture, as Rust names it.
pub open spec fn framework_name_of(arch: Seq<char>) -> Option<Seq<char>> {
    if arch == "aarch64"@ {
        Some("Chromium Embedded Framework (ARM64).framework"@)
    } else if arch == "x86_64"@ {
        Some("Chromium Embedded Framework (X86_64).framework"@)
    } else {
        None
    }
}

/// The path of the architecture-specific macOS framework bundle, given the
/// CPU architecture (`aarch64` or `x86_64`) and the path of this library.
/// Any other architecture is reported as `Unsupported architecture: <arch>`.
pub fn get_arch_framework_path(arch: &str, dylib_path: Option<&str>) -> (r: CefResult<String>)
    ensures
        dylib_path is None ==> is_missing_dylib_error(r),
        dylib_path matches Some(d) ==> match framework_name_of(arch@) {
            Some(name) => r matches Ok(p) && p@ == framework_path_of(d@, name),
            None => r matches Err(CefError::ResourceNotFound(m)) && m@
                == "Unsupported architecture: "@ + arch@,
        },
{
    let dylib = get_dylib_path_checked(dylib_path)?;
    let a = chars_of(arch);
    let name = if eq_literal(&a, "aarch64") {
        "Chromium Embedded Framework (ARM64).framework"
    } else if eq_literal(&a, "x86_64") {
        "Chromium Embedded Framework (X86_64).framework"
    } else {
        return Err(CefError::ResourceNotFound(concat("Unsupported architecture: ", arch)));
    };
    let os = TargetOs::MacOs;
    let p = join_path(os, dylib, "../..");
    let p = join_path(os, p.as_str(), "Godot CEF.app/Contents/Frameworks");
    Ok(join_path(os, p.as_str(), name))
}

/// The index of the last `c` in `p`, or -1 where there is none.
pub open spec fn last_index_of(p: Seq<char>, c: char) -> int
    decreases p.len(),
{
    if p.len() == 0 {
        -1
    } else if p.last() == c {
        p.len() - 1
    } else {
        last_index_of(p.drop_last(), c)
    }
}

/// The directory that holds `p`, for a path written with `/` and without
/// trailing or repeated separators (a canonical Unix path): everything
/// before its last `/`; `/` itself for a top-level entry; `None` for the
/// root and the empty path.
pub open spec fn parent_path(p: Seq<char>) -> Option<Seq<char>> {
    let i = last_index_of(p, '/');
    if i < 0 {
        if p.len() == 0 {
            None
        } else {
            Some(Seq::<char>::empty())
        }
    } else if i == 0 {
        if p.len() == 1 {
            None
        } else {
            Some(seq!['/'])
        }
    } else {
        Some(p.take(i))
    }
}

pub(crate) proof fn lemma_last_index_of_prefix(p: Seq<char>, c: char, j: int)
    requires
        0 <= j <= p.len(),
        forall|k: int| j <= k < p.len() ==> p[k] != c,
    ensures
        last_index_of(p, c) == last_index_of(p.take(j), c),
        -1 <= last_index_of(p, c) < p.len(),
        last_index_of(p, c) >= 0 ==> p[last_index_of(p, c)] == c,
    decreases p.len(),
{
    if p.len() == 0 {
        assert(p.take(j) =~= p);
    } else if j == p.len() {
        assert(p.take(j) =~= p);
        if p.last() != c {
            lemma_last_index_of_prefix(p.drop_last(), c, j - 1);
            assert(p.drop_last().take(j - 1) =~= p.drop_last());
        }
    } else {
        assert(p.last() != c);
        assert(p.drop_last().take(j) =~= p.take(j));
        lemma_last_index_of_prefix(p.drop_last(), c, j);
    }
}

/// The directory that holds the path `p` (see `parent_path`).
fn parent_of(p: &Vec<char>) -> (r: Option<Vec<char>>)
    ensures
        match parent_path(p@) {
            Some(q) => r matches Some(v) && v@ == q,
            None => r is None,
        },
{
    let n = p.len();
    let mut j: usize = n;
    while j > 0 && p[j - 1] != '/'
        invariant
            j <= n == p@.len(),
            forall|k: int| j <= k < n ==> p@[k] != '/',
        decreases j,
    {
        j = j - 1;
    }
    proof {
        lemma_last_index_of_prefix(p@, '/', j as int);
        if j > 0 {
            lemma_last_index_of_prefix(p@, '/', j as int);
            assert(p@.take(j as int).last() == '/');
            assert(last_index_of(p@.take(j as int), '/') == j - 1);
        } else {
            assert(p@.take(0) =~= Seq::<char>::empty());
        }
    }
    if j == 0 {
        if n == 0 {
            None
        } else {
            Some(Vec::new())
        }
    } else if j == 1 {
        if n == 1 {
            None
        } else {
            let mut v: Vec<char> = Vec::new();
            v.push('/');
            Some(v)
        }
    } else {
        let mut v: Vec<char> = Vec::new();
        let mut i: usize = 0;
        while i < j - 1
            invariant
                i <= j - 1,
                j <= n == p@.len(),
                v@ == p@.take(i as int),
            decreases j - 1 - i,
        {
            v.push(p[i]);
            i = i + 1;
            assert(v@ =~= p@.take(i as int));
        }
        Some(v)
    }
}

/// The helper variants that macOS starts for particular kinds of subprocess.
pub open spec fn helper_variants() -> Seq<Seq<char>> {
    seq![
        "Godot CEF Helper (GPU)"@,
        "Godot CEF Helper (Renderer)"@,
        "Godot CEF Helper (Plugin)"@,
        "Godot CEF Helper (Alerts)"@,
    ]
}

/// The executable of a macOS helper variant inside the frameworks directory.
pub open spec fn helper_variant_path(frameworks: Seq<char>, variant: Seq<char>) -> Seq<char> {
    joined(
        TargetOs::MacOs,
        joined(TargetOs::MacOs, joined(TargetOs::MacOs, frameworks, variant + ".app"@), "Contents/MacOS"@),
        variant,
    )
}

/// The directory four levels above `p`, where there is one.
pub open spec fn fourth_parent(p: Seq<char>) -> Option<Seq<char>> {
    match parent_path(p) {
        Some(a) => match parent_path(a) {
            Some(b) => match parent_path(b) {
                Some(c) => parent_path(c),
                None => None,
            },
            None => None,
        },
        None => None,
    }
}

/// The further executables that must be runnable besides the helper at
/// `subprocess` (a resolved path): on Linux the Chrome sandbox and the helper
/// beside the library at `dylib`; on macOS the helper variants in the
/// frameworks directory four levels above `subprocess`; on Windows none.
pub open spec fn executable_candidates_of(
    os: TargetOs,
    dylib: Seq<char>,
    subprocess: Seq<char>,
) -> Seq<Seq<char>> {
    match os {
        TargetOs::Linux => seq![
            joined(os, dylib, "../chrome-sandbox"@),
            joined(os, dylib, "../gdcef_helper"@),
        ],
        TargetOs::MacOs => match fourth_parent(subprocess) {
            Some(f) => helper_variants().map_values(|v: Seq<char>| helper_variant_path(f, v)),
            None => Seq::empty(),
        },
        TargetOs::Windows => Seq::empty(),
    }
}

/// The path of a macOS helper variant inside the frameworks directory.
fn helper_variant(frameworks: &str, variant: &str) -> (r: String)
    ensures
        r@ == helper_variant_path(frameworks@, variant@),
{
    let app = concat(variant, ".app");
    let p = join_path(TargetOs::MacOs, frameworks, app.as_str());
    let p = join_path(TargetOs::MacOs, p.as_str(), "Contents/MacOS");
    join_path(TargetOs::MacOs, p.as_str(), variant)
}

/// The further executables to make runnable, in the order in which they are
/// checked; which of them exist is for the caller to find out.
pub fn executable_candidates(os: TargetOs, dylib: &str, subprocess: &str) -> (r: Vec<String>)
    ensures
        r@.map_values(|s: String| s@) == executable_candidates_of(os, dylib@, subprocess@),
{
    let mut out: Vec<String> = Vec::new();
    match os {
        TargetOs::Linux => {
            out.push(join_path(os, dylib, "../chrome-sandbox"));
            out.push(join_path(os, dylib, "../gdcef_helper"));
            assert(out@.map_values(|s: String| s@) =~= executable_candidates_of(os, dylib@, subprocess@));
        },
        TargetOs::MacOs => {
            let p = chars_of(subprocess);
            let frameworks = match parent_of(&p) {
                Some(a) => match parent_of(&a) {
                    Some(b) => match parent_of(&b) {
                        Some(c) => parent_of(&c),
                        None => None,
                    },
                    None => None,
                },
                None => None,
            };
            match frameworks {
                Some(f) => {
                    let f = string_from_chars(&f);
                    out.push(helper_variant(f.as_str(), "Godot CEF Helper (GPU)"));
                    out.push(helper_variant(f.as_str(), "Godot CEF Helper (Renderer)"));
                    out.push(helper_variant(f.as_str(), "Godot CEF Helper (Plugin)"));
                    out.push(helper_variant(f.as_str(), "Godot CEF Helper (Alerts)"));
                    assert(out@.map_values(|s: String| s@) =~= executable_candidates_of(os, dylib@, subprocess@));
                },
                None => {
                    assert(out@.map_values(|s: String| s@) =~= executable_candidates_of(os, dylib@, subprocess@));
                },
            }
        },
        TargetOs::Windows => {
            assert(out@.map_values(|s: String| s@) =~= executable_candidates_of(os, dylib@, subprocess@));
        },
    }
    out
}

/// The permission bits after making a file executable by everyone who may
/// read it: each read bit (user, group, other) adds the execute bit of the
/// same class.
pub open spec fn executable_mode_of(mode: u32) -> u32 {
    mode | ((mode & 0o444u32) >> 2u32)
}

/// The permission bits that make a file executable wherever it is readable.
pub fn executable_mode(mode: u32) -> (r: u32)
    ensures
        r == executable_mode_of(mode),
{
    mode | ((mode & 0o444) >> 2)
}

/// The permission bits to set on a file whose bits are `mode`, or `None`
/// where they already make it executable wherever it is readable.
pub fn permission_update(mode: u32) -> (r: Option<u32>)
    ensures
        executable_mode_of(mode) == mode ==> r is None,
        executable_mode_of(mode) != mode ==> r == Some(executable_mode_of(mode)),
{
    let new_mode = executable_mode(mode);
    if new_mode != mode {
        Some(new_mode)
    } else {
        None
    }
}

/// Making a file executable keeps every bit it had, adds only execute bits,
/// adds the execute bit of each class that may read it, and needs doing at
/// most once.
pub proof fn lemma_executable_mode(mode: u32)
    ensures
        executable_mode_of(mode) & mode == mode,
        executable_mode_of(mode) & !mode & !0o111u32 == 0,
        mode & 0o400u32 != 0 ==> executable_mode_of(mode) & 0o100u32 != 0,
        mode & 0o040u32 != 0 ==> executable_mode_of(mode) & 0o010u32 != 0,
        mode & 0o004u32 != 0 ==> executable_mode_of(mode) & 0o001u32 != 0,
        executable_mode_of(executable_mode_of(mode)) == executable_mode_of(mode),
{
    assert(
        (mode | ((mode & 0o444u32) >> 2u32)) & mode == mode
        && (mode | ((mode & 0o444u32) >> 2u32)) & !mode & !0o111u32 == 0
        && (mode & 0o400u32 != 0 ==> (mode | ((mode & 0o444u32) >> 2u32)) & 0o100u32 != 0)
        && (mode & 0o040u32 != 0 ==> (mode | ((mode & 0o444u32) >> 2u32)) & 0o010u32 != 0)
        && (mode & 0o004u32 != 0 ==> (mode | ((mode & 0o444u32) >> 2u32)) & 0o001u32 != 0)
    ) by (bit_vector);
    let m2 = mode | ((mode & 0o444u32) >> 2u32);
    assert(m2 | ((m2 & 0o444u32) >> 2u32) == m2) by (bit_vector)
        requires
            m2 == mode | ((mode & 0o444u32) >> 2u32),
    ;
}

/// Where the helper finds the CEF framework, given its own executable path
/// (a macOS bundle): from the main app's `Contents/MacOS/Godot CEF`, two
/// levels up into `Frameworks`; from a helper app inside `Frameworks`, four
/// levels up.
pub open spec fn helper_framework_path_of(exe: Seq<char>) -> Seq<char> {
    let os = TargetOs::MacOs;
    if crate::resource::last_name(crate::text::split(exe, '/')) == Some("Godot CEF"@) {
        joined(os, joined(os, exe, "../../Frameworks"@), "Chromium Embedded Framework.framework"@)
    } else {
        joined(os, joined(os, exe, "../../../.."@), "Chromium Embedded Framework.framework"@)
    }
}

/// The CEF framework path for the helper process, from the path of its
/// executable; the caller resolves it.
pub fn helper_framework_path(exe_path: &str) -> (r: String)
    ensures
        r@ == helper_framework_path_of(exe_path@),
{
    let os = TargetOs::MacOs;
    let c = chars_of(exe_path);
    let n = c.len();
    let b = crate::text::split_bounds(&c, 0, n, '/');
    assert(c@.subrange(0, n as int) =~= c@);
    let is_main_app = match crate::resource::last_name_bounds(&c, &b) {
        Some((s, e)) => crate::resource::eq_range(&c, s, e, "Godot CEF"),
        None => false,
    };
    let p = if is_main_app {
        join_path(os, exe_path, "../../Frameworks")
    } else {
        join_path(os, exe_path, "../../../..")
    };
    join_path(os, p.as_str(), "Chromium Embedded Framework.framework")
}

/// Where CEF keeps its cache: `Godot CEF/Cache` inside Godot's user data
/// directory.
pub fn root_cache_path(os: TargetOs, user_data_dir: &str) -> (r: String)
    ensures
        r@ == joined(os, user_data_dir@, "Godot CEF/Cache"@),
{
    join_path(os, user_data_dir, "Godot CEF/Cache")
}

/// The main bundle of the macOS app, three levels above the helper
/// executable; the caller resolves it.
pub fn main_bundle_path(subprocess_path: &str) -> (r: String)
    ensures
        r@ == joined(TargetOs::MacOs, subprocess_path@, "../../.."@),
{
    join_path(TargetOs::MacOs, subprocess_path, "../../..")
}

} // verus!
