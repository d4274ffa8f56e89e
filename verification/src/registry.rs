//! The catalog of packages: where each is downloaded from, and what its
//! executable is called, on each supported system.

use crate::text::{lowercase_of, same_text, to_lowercase};
use vstd::prelude::*;
use vstd::string::*;

verus! {

/// What is needed to fetch and run a package on one system.
#[derive(Debug, Clone, PartialEq, Eq)]
pub struct PackageInfo {
    pub name: String,
    pub url: String,
    pub bin_name: String,
}

pub struct PackageModel {
    pub name: Seq<char>,
    pub url: Seq<char>,
    pub bin_name: Seq<char>,
}

impl View for PackageInfo {
    type V = PackageModel;

    open spec fn view(&self) -> PackageModel {
        PackageModel { name: self.name@, url: self.url@, bin_name: self.bin_name@ }
    }
}

/// The download location and the executable's file name of the package
/// with the lower-case name `name`, for the operating system `os` and the
/// processor `arch`. On macOS every processor but `aarch64` gets the
/// x86_64 build.
pub open spec fn catalog(name: Seq<char>, os: Seq<char>, arch: Seq<char>) -> Option<
    (Seq<char>, Seq<char>),
> {
    if name == "php"@ {
        if os == "windows"@ {
            Some(
                (
                    "https://windows.php.net/downloads/releases/php-8.2.12-nts-Win32-vs16-x64.zip"@,
                    "php.exe"@,
                ),
            )
        } else if os == "macos"@ {
            if arch == "aarch64"@ {
                Some(
                    (
                        "https://dl.static-php.dev/static-php-cli/common/php-8.2.12-cli-macos-aarch64.tar.gz"@,
                        "php"@,
                    ),
                )
            } else {
                Some(
                    (
                        "https://dl.static-php.dev/static-php-cli/common/php-8.2.12-cli-macos-x86_64.tar.gz"@,
                        "php"@,
                    ),
                )
            }
        } else {
            None
        }
    } else if name == "mysql"@ {
        if os == "windows"@ {
            Some(
                (
                    "https://github.com/0xffructose/fampp-core/releases/download/BinaryUpdate/mysql-8.4.8-winx64.zip"@,
                    "mysqld.exe"@,
                ),
            )
        } else if os == "macos"@ {
            if arch == "aarch64"@ {
                Some(
                    (
                        "https://github.com/0xffructose/fampp-core/releases/download/BinaryUpdate/mysql-8.4.8-macos15-arm64.tar.gz"@,
                        "mysqld"@,
                    ),
                )
            } else {
                Some(
                    (
                        "https://github.com/0xffructose/fampp-core/releases/download/BinaryUpdate/mysql-8.4.8-macos15-x86_64.tar.gz"@,
                        "mysqld"@,
                    ),
                )
            }
        } else {
            None
        }
    } else if name == "adminer"@ {
        Some(
            (
                "https://github.com/vrana/adminer/releases/download/v4.8.1/adminer-4.8.1.php"@,
                "adminer.php"@,
            ),
        )
    } else {
        None
    }
}

/// Looks a lower-case package name up in the catalog.
pub fn lookup(name: &str, os: &str, arch: &str) -> (r: Option<(&'static str, &'static str)>)
    ensures
        match r {
            Some((url, bin_name)) => catalog(name@, os@, arch@) == Some((url@, bin_name@)),
            None => catalog(name@, os@, arch@) is None,
        },
{
    if same_text(name, "php") {
        if same_text(os, "windows") {
            Some(
                (
                    "https://windows.php.net/downloads/releases/php-8.2.12-nts-Win32-vs16-x64.zip",
                    "php.exe",
                ),
            )
        } else if same_text(os, "macos") {
            if same_text(arch, "aarch64") {
                Some(
                    (
                        "https://dl.static-php.dev/static-php-cli/common/php-8.2.12-cli-macos-aarch64.tar.gz",
                        "php",
                    ),
                )
            } else {
                Some(
                    (
                        "https://dl.static-php.dev/static-php-cli/common/php-8.2.12-cli-macos-x86_64.tar.gz",
                        "php",
                    ),
                )
            }
        } else {
            None
        }
    } else if same_text(name, "mysql") {
        if same_text(os, "windows") {
            Some(
                (
                    "https://github.com/0xffructose/fampp-core/releases/download/BinaryUpdate/mysql-8.4.8-winx64.zip",
                    "mysqld.exe",
                ),
            )
        } else if same_text(os, "macos") {
            if same_text(arch, "aarch64") {
                Some(
                    (
                        "https://github.com/0xffructose/fampp-core/releases/download/BinaryUpdate/mysql-8.4.8-macos15-arm64.tar.gz",
                        "mysqld",
                    ),
                )
            } else {
                Some(
                    (
                        "https://github.com/0xffructose/fampp-core/releases/download/BinaryUpdate/mysql-8.4.8-macos15-x86_64.tar.gz",
                        "mysqld",
                    ),
                )
            }
        } else {
            None
        }
    } else if same_text(name, "adminer") {
        Some(
            (
                "https://github.com/vrana/adminer/releases/download/v4.8.1/adminer-4.8.1.php",
                "adminer.php",
            ),
        )
    } else {
        None
    }
}

/// What `get_package_info` returns for a package whose lower-case name is
/// `lowered`: the catalog's entry, under the name as the caller wrote it.
pub open spec fn package_for(
    given: Seq<char>,
    lowered: Seq<char>,
    os: Seq<char>,
    arch: Seq<char>,
) -> Option<PackageModel> {
    match catalog(lowered, os, arch) {
        Some((url, bin_name)) => Some(PackageModel { name: given, url, bin_name }),
        None => None,
    }
}

/// The package with the name `package_name`, in any case, for the system
/// `os` on the processor `arch`. The version is not looked at: the
/// catalog holds one version of each package.
pub fn get_package_info(package_name: &str, _version: &str, os: &str, arch: &str) -> (r: Option<
    PackageInfo,
>)
    ensures
        match r {
            Some(info) => Some(info@) == package_for(
                package_name@,
                lowercase_of(package_name@),
                os@,
                arch@,
            ),
            None => package_for(package_name@, lowercase_of(package_name@), os@, arch@) is None,
        },
{
    let lowered = to_lowercase(package_name);
    match lookup(lowered.as_str(), os, arch) {
        Some((url, bin_name)) => Some(
            PackageInfo {
                name: String::from_str(package_name),
                url: String::from_str(url),
                bin_name: String::from_str(bin_name),
            },
        ),
        None => None,
    }
}

/// The catalog is closed: a name other than its three has no entry on any
/// system.
pub proof fn lemma_unknown_name_has_no_entry(name: Seq<char>, os: Seq<char>, arch: Seq<char>)
    requires
        name != "php"@,
        name != "mysql"@,
        name != "adminer"@,
    ensures
        catalog(name, os, arch) is None,
{
}

/// The runtimes are offered for Windows and macOS only.
pub proof fn lemma_unsupported_system_has_no_runtime(
    name: Seq<char>,
    os: Seq<char>,
    arch: Seq<char>,
)
    requires
        name == "php"@ || name == "mysql"@,
        os != "windows"@,
        os != "macos"@,
    ensures
        catalog(name, os, arch) is None,
{
    reveal_strlit("php");
    reveal_strlit("mysql");
    reveal_strlit("adminer");
}

} // verus!
