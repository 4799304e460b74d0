//! What differs between Windows and the other systems: the suffix of an
//! executable file and the separator between the entries of a search path.

use crate::paths::path_with_extension;
use crate::text::{chars_of, ends_with, has_suffix, string_of};
use vstd::prelude::*;

verus! {

/// The family of system that the library runs on.
#[derive(Clone, Copy, Debug, PartialEq, Eq, Structural)]
pub enum Platform {
    Windows,
    Unix,
}

/// `std::path::MAIN_SEPARATOR`, the separator of path components on the
/// system that runs the program. Nothing is stated of it: it differs from
/// one system to another.
#[verifier::external_body]
fn main_separator() -> char {
    std::path::MAIN_SEPARATOR
}

/// The name of the executable file that `path` stands for on `platform`:
/// with the suffix `.exe` on Windows, without it elsewhere.
pub open spec fn resolved_exe_or_elf(platform: Platform, path: Seq<char>) -> Seq<char> {
    match platform {
        Platform::Windows => if ends_with(path, ".exe"@) {
            path
        } else {
            path + ".exe"@
        },
        Platform::Unix => if ends_with(path, ".exe"@) {
            path.subrange(0, path.len() - 4)
        } else {
            path
        },
    }
}

/// The separator between the entries of a search path such as `PATH`.
pub open spec fn search_path_separator(platform: Platform) -> char {
    match platform {
        Platform::Windows => ';',
        Platform::Unix => ':',
    }
}

/// The value of a search path variable after `value` is added behind what
/// it held before, if it held anything.
pub open spec fn appended_env_var(
    platform: Platform,
    origin: Option<Seq<char>>,
    value: Seq<char>,
) -> Seq<char> {
    match origin {
        Some(o) => o.push(search_path_separator(platform)) + value,
        None => value,
    }
}

impl Platform {
    /// The platform whose paths are written with `separator`: the
    /// backslash is that of Windows.
    pub fn of_separator(separator: char) -> (platform: Platform)
        ensures
            platform == (if separator == '\\' {
                Platform::Windows
            } else {
                Platform::Unix
            }),
    {
        if separator == '\\' {
            Platform::Windows
        } else {
            Platform::Unix
        }
    }

    /// The platform that the program runs on, told by its path separator.
    pub fn current() -> Platform {
        Platform::of_separator(main_separator())
    }

    /// Whether `self` is Windows.
    pub fn is_windows(&self) -> (b: bool)
        ensures
            b == (*self == Platform::Windows),
    {
        match self {
            Platform::Windows => true,
            Platform::Unix => false,
        }
    }

    /// The extension of an executable file, without the dot.
    pub fn executable_extension(&self) -> (e: &'static str)
        ensures
            e@ == (if *self == Platform::Windows {
                "exe"@
            } else {
                ""@
            }),
    {
        match self {
            Platform::Windows => "exe",
            Platform::Unix => "",
        }
    }
}

/// The name of the executable file that `path` stands for on `platform`.
pub fn resolve_exe_or_elf_str_on(platform: Platform, path: &str) -> (r: String)
    ensures
        r@ == resolved_exe_or_elf(platform, path@),
{
    let v = chars_of(path);
    let suffixed = has_suffix(&v, ".exe");
    proof {
        reveal_strlit(".exe");
        assert(".exe"@.len() == 4);
        assert(v@.subrange(0, v@.len() as int) == v@);
    }
    match platform {
        Platform::Windows => {
            let mut r = string_of(&v, 0, v.len());
            if !suffixed {
                r.append(".exe");
            }
            r
        },
        Platform::Unix => {
            if suffixed {
                string_of(&v, 0, v.len() - 4)
            } else {
                string_of(&v, 0, v.len())
            }
        },
    }
}

/// The name of the executable file that `path` stands for on the platform
/// that the program runs on.
pub fn resolve_exe_or_elf_str(path: &str) -> (r: String)
    ensures
        r@ == resolved_exe_or_elf(Platform::Windows, path@) || r@ == resolved_exe_or_elf(
            Platform::Unix,
            path@,
        ),
{
    resolve_exe_or_elf_str_on(Platform::current(), path)
}

/// `path` with its extension set to that of an executable file on the
/// platform that the program runs on: `exe` on Windows, none elsewhere.
pub fn resolve_exe_or_elf(path: &str) -> String {
    let platform = Platform::current();
    let extension = platform.executable_extension();
    proof {
        reveal_strlit("exe");
        reveal_strlit("");
    }
    path_with_extension(path, extension)
}

/// The value of a search path variable that held `origin` after `value`
/// is added behind it.
pub fn append_env_var(platform: Platform, origin: Option<String>, value: String) -> (r: String)
    ensures
        r@ == appended_env_var(
            platform,
            match origin {
                Some(o) => Some(o@),
                None => None,
            },
            value@,
        ),
{
    match origin {
        Some(o) => {
            let mut r = o;
            match platform {
                Platform::Windows => r.push(';'),
                Platform::Unix => r.push(':'),
            }
            r.append(value.as_str());
            r
        },
        None => value,
    }
}

} // verus!
