use vstd::prelude::*;

use crate::text::{after_last, decimal, decimal_of, last_segment, push_char, same_text};

verus! {

/// The operating-system name the runtime catalog uses for a platform's `std::env::consts::OS`.
pub open spec fn api_os_of(os: Seq<char>) -> Seq<char> {
    if os == "windows"@ {
        "windows"@
    } else if os == "linux"@ {
        "linux"@
    } else if os == "macos"@ {
        "mac"@
    } else {
        "unknown"@
    }
}

/// The architecture name the runtime catalog uses for a platform's `std::env::consts::ARCH`;
/// unknown architectures fall back to `x64`.
pub open spec fn api_arch_of(arch: Seq<char>) -> Seq<char> {
    if arch == "x86_64"@ {
        "x64"@
    } else if arch == "aarch64"@ {
        "aarch64"@
    } else if arch == "x86"@ {
        "x32"@
    } else {
        "x64"@
    }
}

/// The catalog's names for the platform `os` / `arch`.
pub fn get_os_arch(os: &str, arch: &str) -> (r: (String, String))
    ensures
        r.0@ == api_os_of(os@),
        r.1@ == api_arch_of(arch@),
{
    let api_os = if same_text(os, "windows") {
        "windows"
    } else if same_text(os, "linux") {
        "linux"
    } else if same_text(os, "macos") {
        "mac"
    } else {
        "unknown"
    };
    let api_arch = if same_text(arch, "x86_64") {
        "x64"
    } else if same_text(arch, "aarch64") {
        "aarch64"
    } else if same_text(arch, "x86") {
        "x32"
    } else {
        "x64"
    };
    (String::from_str(api_os), String::from_str(api_arch))
}

pub open spec fn java_release_query_of(version: nat, os: Seq<char>, arch: Seq<char>) -> Seq<char> {
    "https://api.adoptium.net/v3/assets/latest/"@ + decimal_of(version)
        + "/hotspot?vendor=eclipse&os="@ + os + "&architecture="@ + arch + "&image_type=jre"@
}

/// The catalog query for the latest runtime image of major `version` on `os` / `arch`.
pub fn java_release_query_url(version: u8, os: &str, arch: &str) -> (r: String)
    ensures
        r@ == java_release_query_of(version as nat, os@, arch@),
{
    String::from_str("https://api.adoptium.net/v3/assets/latest/").concat(
        decimal(version as u64).as_str(),
    ).concat("/hotspot?vendor=eclipse&os=").concat(os).concat("&architecture=").concat(
        arch,
    ).concat("&image_type=jre")
}

/// The first release's download link, or an error when the catalog listed none.
pub fn first_release_link(links: &Vec<String>) -> (r: Result<String, String>)
    ensures
        links@.len() > 0 ==> (r matches Ok(l) && l@ == links@[0]@),
        links@.len() == 0 ==> (r matches Err(e) && e@ == "No binaries found"@),
{
    if links.len() > 0 {
        Ok(links[0].clone())
    } else {
        Err(String::from_str("No binaries found"))
    }
}

/// The local file name of a downloaded runtime archive: what follows the URL's last `/`.
pub fn archive_file_name(url: &str) -> (r: String)
    ensures
        r@ == last_segment(url@, '/'),
{
    after_last(url, '/')
}

/// The runtime's launcher binary name on Windows or elsewhere.
pub open spec fn java_binary_name(windows: bool) -> Seq<char> {
    if windows {
        "javaw.exe"@
    } else {
        "java"@
    }
}

/// Whether a file met while walking an install tree is the runtime launcher: it has the
/// launcher's name and sits in a directory named `bin` (`parent_name` is empty when the
/// directory has no name).
pub fn is_java_binary(file_name: &str, parent_name: &str, windows: bool) -> (r: bool)
    ensures
        r == (file_name@ == java_binary_name(windows) && parent_name@ == "bin"@),
{
    let binary = if windows {
        "javaw.exe"
    } else {
        "java"
    };
    same_text(file_name, binary) && same_text(parent_name, "bin")
}

pub open spec fn neoforge_installer_name_of(version: Seq<char>) -> Seq<char> {
    "neoforge-"@ + version + "-installer.jar"@
}

/// The file name of the mod-loader installer for `version`.
pub fn neoforge_installer_name(version: &str) -> (r: String)
    ensures
        r@ == neoforge_installer_name_of(version@),
{
    String::from_str("neoforge-").concat(version).concat("-installer.jar")
}

pub open spec fn neoforge_installer_url_of(version: Seq<char>) -> Seq<char> {
    "https://maven.neoforged.net/releases/net/neoforged/neoforge/"@ + version + "/"@
        + neoforge_installer_name_of(version)
}

/// Where the mod-loader installer for `version` is published.
pub fn neoforge_installer_url(version: &str) -> (r: String)
    ensures
        r@ == neoforge_installer_url_of(version@),
{
    let name = neoforge_installer_name(version);
    String::from_str("https://maven.neoforged.net/releases/net/neoforged/neoforge/").concat(
        version,
    ).concat("/").concat(name.as_str())
}

/// Whether an archive entry is a directory: the archive says so, or its name ends in a
/// path separator (`/` or `\`).
pub fn entry_is_directory(reported_dir: bool, name: &str) -> (r: bool)
    ensures
        r == (reported_dir || (name@.len() > 0 && (name@.last() == '/' || name@.last() == '\\'))),
{
    if reported_dir {
        return true;
    }
    let n = name.unicode_len();
    if n == 0 {
        return false;
    }
    let c = name.get_char(n - 1);
    c == '/' || c == '\\'
}

/// `s` without its leading `c` characters.
pub open spec fn trim_leading(s: Seq<char>, c: char) -> Seq<char>
    decreases s.len(),
{
    if s.len() > 0 && s[0] == c {
        trim_leading(s.drop_first(), c)
    } else {
        s
    }
}

/// Backslashes read as forward slashes.
pub open spec fn forward_slashes(s: Seq<char>) -> Seq<char> {
    s.map_values(|c: char| if c == '\\' { '/' } else { c })
}

/// The path, relative to the extraction directory, of an installer-payload entry: separators
/// made forward slashes, leading slashes dropped.
pub fn payload_entry_path(name: &str) -> (r: String)
    ensures
        r@ == trim_leading(forward_slashes(name@), '/'),
{
    let n = name.unicode_len();
    let ghost f = forward_slashes(name@);
    let mut i: usize = 0;
    assert(f.subrange(0, n as int) == f);
    while i < n && (name.get_char(i) == '/' || name.get_char(i) == '\\')
        invariant
            n == name@.len(),
            f == forward_slashes(name@),
            i <= n,
            trim_leading(f, '/') == trim_leading(f.subrange(i as int, n as int), '/'),
        decreases n - i,
    {
        assert(f.subrange(i as int, n as int).drop_first() == f.subrange(i + 1, n as int));
        i = i + 1;
    }
    let start = i;
    let mut r = String::new();
    while i < n
        invariant
            n == name@.len(),
            f == forward_slashes(name@),
            start <= i <= n,
            r@ == f.subrange(start as int, i as int),
        decreases n - i,
    {
        let c = name.get_char(i);
        let d = if c == '\\' {
            '/'
        } else {
            c
        };
        assert(f.subrange(start as int, i + 1) == f.subrange(start as int, i as int).push(d));
        push_char(&mut r, d);
        i = i + 1;
    }
    proof {
        if start < n {
            assert(f[start as int] != '/');
        }
    }
    r
}

pub open spec fn cleanup_script_of(dir: Seq<char>) -> Seq<char> {
    "@echo off\r\n:wait\r\ntimeout /t 1 /nobreak > nul\r\nif exist \""@ + dir
        + "\" (\r\n    rmdir /s /q \""@ + dir + "\"\r\n    if exist \""@ + dir
        + "\" goto wait\r\n)\r\ndel \"%~f0\""@
}

/// A batch script that waits until `install_dir` can be removed, removes it, then deletes itself.
pub fn cleanup_script(install_dir: &str) -> (r: String)
    ensures
        r@ == cleanup_script_of(install_dir@),
{
    String::from_str("@echo off\r\n:wait\r\ntimeout /t 1 /nobreak > nul\r\nif exist \"").concat(
        install_dir,
    ).concat("\" (\r\n    rmdir /s /q \"").concat(install_dir).concat(
        "\"\r\n    if exist \"",
    ).concat(install_dir).concat("\" goto wait\r\n)\r\ndel \"%~f0\"")
}

} // verus!
