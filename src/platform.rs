use vstd::prelude::*;

verus! {

/// The platform the library is asked to act on.
///
/// Exactly one variant describes a given host: `Windows` has a real notion of
/// elevation, `MacOs` and `Linux` are handled without modelling elevation, and
/// every other host is `Unsupported`, carrying the host's OS identifier.
pub enum Platform {
    Windows,
    MacOs,
    Linux,
    Unsupported(String),
}

/// The platform that an OS identifier (as Rust's `std::env::consts::OS`
/// spells it) stands for.
pub open spec fn platform_spec(os: Seq<char>, p: Platform) -> bool {
    if os == "windows"@ {
        p is Windows
    } else if os == "macos"@ {
        p is MacOs
    } else if os == "linux"@ {
        p is Linux
    } else {
        p matches Platform::Unsupported(name) && name@ == os
    }
}

/// The text that opens the error reported on an unsupported platform.
pub open spec fn unsupported_prefix() -> Seq<char> {
    "不支持的操作系统: "@
}

/// The error message reported on an unsupported platform named `os`.
pub open spec fn unsupported_message(os: Seq<char>) -> Seq<char> {
    unsupported_prefix() + os
}

/// Selects the platform for the OS identifier `os`.
pub fn platform_from_os(os: &str) -> (p: Platform)
    ensures
        platform_spec(os@, p),
{
    let name = String::from_str(os);
    if name == String::from_str("windows") {
        Platform::Windows
    } else if name == String::from_str("macos") {
        Platform::MacOs
    } else if name == String::from_str("linux") {
        Platform::Linux
    } else {
        Platform::Unsupported(name)
    }
}

/// Builds the error message reported on the unsupported platform `os`.
pub fn unsupported_platform_message(os: &str) -> (r: String)
    ensures
        r@ == unsupported_message(os@),
{
    let mut r = String::from_str("不支持的操作系统: ");
    r.append(os);
    r
}

} // verus!
