//! The static cross-compilation table: from a target's operating
//! system and architecture to the system name and processor that the
//! configure step should declare.  Pairs outside the table pass
//! through unchanged.

use crate::paths::str_eq;
use vstd::prelude::*;

verus! {

/// The mapping table as a total function: every listed
/// (operating-system, architecture) pair is sent to its system name
/// and processor, and every other pair is passed through unchanged.
pub open spec fn spec_system_pair(os: Seq<char>, arch: Seq<char>) -> (Seq<char>, Seq<char>) {
    if os == "android"@ {
        if arch == "arm"@ {
            ("Android"@, "armv7-a"@)
        } else if arch == "x86"@ {
            ("Android"@, "i686"@)
        } else {
            ("Android"@, arch)
        }
    } else if os == "dragonfly"@ {
        ("DragonFly"@, arch)
    } else if os == "macos"@ {
        if arch == "aarch64"@ {
            ("Darwin"@, "arm64"@)
        } else {
            ("Darwin"@, arch)
        }
    } else if os == "freebsd"@ {
        if arch == "x86_64"@ {
            ("FreeBSD"@, "amd64"@)
        } else {
            ("FreeBSD"@, arch)
        }
    } else if os == "fuchsia"@ {
        ("Fuchsia"@, arch)
    } else if os == "haiku"@ {
        ("Haiku"@, arch)
    } else if os == "ios"@ {
        if arch == "aarch64"@ {
            ("iOS"@, "arm64"@)
        } else {
            ("iOS"@, arch)
        }
    } else if os == "linux"@ {
        if arch == "powerpc"@ {
            ("Linux"@, "ppc"@)
        } else if arch == "powerpc64"@ {
            ("Linux"@, "ppc64"@)
        } else if arch == "powerpc64le"@ {
            ("Linux"@, "ppc64le"@)
        } else {
            ("Linux"@, arch)
        }
    } else if os == "netbsd"@ {
        ("NetBSD"@, arch)
    } else if os == "openbsd"@ {
        if arch == "x86_64"@ {
            ("OpenBSD"@, "amd64"@)
        } else {
            ("OpenBSD"@, arch)
        }
    } else if os == "solaris"@ {
        ("SunOS"@, arch)
    } else if os == "tvos"@ {
        if arch == "aarch64"@ {
            ("tvOS"@, "arm64"@)
        } else {
            ("tvOS"@, arch)
        }
    } else if os == "visionos"@ {
        if arch == "aarch64"@ {
            ("visionOS"@, "arm64"@)
        } else {
            ("visionOS"@, arch)
        }
    } else if os == "watchos"@ {
        if arch == "aarch64"@ {
            ("watchOS"@, "arm64"@)
        } else {
            ("watchOS"@, arch)
        }
    } else if os == "windows"@ {
        if arch == "x86_64"@ {
            ("Windows"@, "AMD64"@)
        } else if arch == "x86"@ {
            ("Windows"@, "X86"@)
        } else if arch == "aarch64"@ {
            ("Windows"@, "ARM64"@)
        } else {
            (os, arch)
        }
    } else if os == "emscripten"@ {
        if arch == "wasm32"@ {
            ("Emscripten"@, "x86"@)
        } else {
            (os, arch)
        }
    } else if os == "none"@ {
        ("Generic"@, arch)
    } else {
        (os, arch)
    }
}

/// The system name and processor to declare for a target, looked up
/// in the table; a pair the table does not list comes back unchanged.
pub fn system_pair(os: &str, arch: &str) -> (r: (String, String))
    ensures
        r.0@ == spec_system_pair(os@, arch@).0,
        r.1@ == spec_system_pair(os@, arch@).1,
{
    if str_eq(os, "android") {
        if str_eq(arch, "arm") {
            (String::from_str("Android"), String::from_str("armv7-a"))
        } else if str_eq(arch, "x86") {
            (String::from_str("Android"), String::from_str("i686"))
        } else {
            (String::from_str("Android"), String::from_str(arch))
        }
    } else if str_eq(os, "dragonfly") {
        (String::from_str("DragonFly"), String::from_str(arch))
    } else if str_eq(os, "macos") {
        if str_eq(arch, "aarch64") {
            (String::from_str("Darwin"), String::from_str("arm64"))
        } else {
            (String::from_str("Darwin"), String::from_str(arch))
        }
    } else if str_eq(os, "freebsd") {
        if str_eq(arch, "x86_64") {
            (String::from_str("FreeBSD"), String::from_str("amd64"))
        } else {
            (String::from_str("FreeBSD"), String::from_str(arch))
        }
    } else if str_eq(os, "fuchsia") {
        (String::from_str("Fuchsia"), String::from_str(arch))
    } else if str_eq(os, "haiku") {
        (String::from_str("Haiku"), String::from_str(arch))
    } else if str_eq(os, "ios") {
        if str_eq(arch, "aarch64") {
            (String::from_str("iOS"), String::from_str("arm64"))
        } else {
            (String::from_str("iOS"), String::from_str(arch))
        }
    } else if str_eq(os, "linux") {
        if str_eq(arch, "powerpc") {
            (String::from_str("Linux"), String::from_str("ppc"))
        } else if str_eq(arch, "powerpc64") {
            (String::from_str("Linux"), String::from_str("ppc64"))
        } else if str_eq(arch, "powerpc64le") {
            (String::from_str("Linux"), String::from_str("ppc64le"))
        } else {
            (String::from_str("Linux"), String::from_str(arch))
        }
    } else if str_eq(os, "netbsd") {
        (String::from_str("NetBSD"), String::from_str(arch))
    } else if str_eq(os, "openbsd") {
        if str_eq(arch, "x86_64") {
            (String::from_str("OpenBSD"), String::from_str("amd64"))
        } else {
            (String::from_str("OpenBSD"), String::from_str(arch))
        }
    } else if str_eq(os, "solaris") {
        (String::from_str("SunOS"), String::from_str(arch))
    } else if str_eq(os, "tvos") {
        if str_eq(arch, "aarch64") {
            (String::from_str("tvOS"), String::from_str("arm64"))
        } else {
            (String::from_str("tvOS"), String::from_str(arch))
        }
    } else if str_eq(os, "visionos") {
        if str_eq(arch, "aarch64") {
            (String::from_str("visionOS"), String::from_str("arm64"))
        } else {
            (String::from_str("visionOS"), String::from_str(arch))
        }
    } else if str_eq(os, "watchos") {
        if str_eq(arch, "aarch64") {
            (String::from_str("watchOS"), String::from_str("arm64"))
        } else {
            (String::from_str("watchOS"), String::from_str(arch))
        }
    } else if str_eq(os, "windows") {
        if str_eq(arch, "x86_64") {
            (String::from_str("Windows"), String::from_str("AMD64"))
        } else if str_eq(arch, "x86") {
            (String::from_str("Windows"), String::from_str("X86"))
        } else if str_eq(arch, "aarch64") {
            (String::from_str("Windows"), String::from_str("ARM64"))
        } else {
            (String::from_str(os), String::from_str(arch))
        }
    } else if str_eq(os, "emscripten") {
        if str_eq(arch, "wasm32") {
            (String::from_str("Emscripten"), String::from_str("x86"))
        } else {
            (String::from_str(os), String::from_str(arch))
        }
    } else if str_eq(os, "none") {
        (String::from_str("Generic"), String::from_str(arch))
    } else {
        (String::from_str(os), String::from_str(arch))
    }
}

/// Any operating system the table does not list passes through
/// unchanged, together with its architecture, whatever that
/// architecture is.
pub proof fn lemma_unlisted_target_passes_through(os: Seq<char>, arch: Seq<char>)
    requires
        os != "android"@,
        os != "dragonfly"@,
        os != "macos"@,
        os != "freebsd"@,
        os != "fuchsia"@,
        os != "haiku"@,
        os != "ios"@,
        os != "linux"@,
        os != "netbsd"@,
        os != "openbsd"@,
        os != "solaris"@,
        os != "tvos"@,
        os != "visionos"@,
        os != "watchos"@,
        os != "windows"@,
        os != "emscripten"@,
        os != "none"@,
    ensures
        spec_system_pair(os, arch) == (os, arch),
{
}

} // verus!
