use cmk::target_map::system_pair;

fn pair(os: &str, arch: &str) -> (String, String) {
    system_pair(os, arch)
}

#[test]
fn android_arm_is_armv7a() {
    assert_eq!(pair("android", "arm"), ("Android".to_string(), "armv7-a".to_string()));
}

#[test]
fn android_x86_is_i686() {
    assert_eq!(pair("android", "x86"), ("Android".to_string(), "i686".to_string()));
}

#[test]
fn android_other_arch_passes_through() {
    assert_eq!(pair("android", "aarch64"), ("Android".to_string(), "aarch64".to_string()));
}

#[test]
fn dragonfly_maps_name_only() {
    assert_eq!(pair("dragonfly", "x86_64"), ("DragonFly".to_string(), "x86_64".to_string()));
}

#[test]
fn macos_aarch64_is_arm64() {
    assert_eq!(pair("macos", "aarch64"), ("Darwin".to_string(), "arm64".to_string()));
}

#[test]
fn macos_other_arch_passes_through() {
    assert_eq!(pair("macos", "x86_64"), ("Darwin".to_string(), "x86_64".to_string()));
}

#[test]
fn freebsd_x86_64_is_amd64() {
    assert_eq!(pair("freebsd", "x86_64"), ("FreeBSD".to_string(), "amd64".to_string()));
}

#[test]
fn freebsd_other_arch_passes_through() {
    assert_eq!(pair("freebsd", "aarch64"), ("FreeBSD".to_string(), "aarch64".to_string()));
}

#[test]
fn fuchsia_maps_name_only() {
    assert_eq!(pair("fuchsia", "x86_64"), ("Fuchsia".to_string(), "x86_64".to_string()));
}

#[test]
fn haiku_maps_name_only() {
    assert_eq!(pair("haiku", "x86_64"), ("Haiku".to_string(), "x86_64".to_string()));
}

#[test]
fn ios_aarch64_is_arm64() {
    assert_eq!(pair("ios", "aarch64"), ("iOS".to_string(), "arm64".to_string()));
}

#[test]
fn ios_other_arch_passes_through() {
    assert_eq!(pair("ios", "x86_64"), ("iOS".to_string(), "x86_64".to_string()));
}

#[test]
fn linux_powerpc_is_ppc() {
    assert_eq!(pair("linux", "powerpc"), ("Linux".to_string(), "ppc".to_string()));
}

#[test]
fn linux_powerpc64_is_ppc64() {
    assert_eq!(pair("linux", "powerpc64"), ("Linux".to_string(), "ppc64".to_string()));
}

#[test]
fn linux_powerpc64le_is_ppc64le() {
    assert_eq!(pair("linux", "powerpc64le"), ("Linux".to_string(), "ppc64le".to_string()));
}

#[test]
fn linux_other_arch_passes_through() {
    assert_eq!(pair("linux", "x86_64"), ("Linux".to_string(), "x86_64".to_string()));
}

#[test]
fn netbsd_maps_name_only() {
    assert_eq!(pair("netbsd", "x86_64"), ("NetBSD".to_string(), "x86_64".to_string()));
}

#[test]
fn openbsd_x86_64_is_amd64() {
    assert_eq!(pair("openbsd", "x86_64"), ("OpenBSD".to_string(), "amd64".to_string()));
}

#[test]
fn openbsd_other_arch_passes_through() {
    assert_eq!(pair("openbsd", "aarch64"), ("OpenBSD".to_string(), "aarch64".to_string()));
}

#[test]
fn solaris_is_sunos() {
    assert_eq!(pair("solaris", "x86_64"), ("SunOS".to_string(), "x86_64".to_string()));
}

#[test]
fn tvos_aarch64_is_arm64() {
    assert_eq!(pair("tvos", "aarch64"), ("tvOS".to_string(), "arm64".to_string()));
}

#[test]
fn tvos_other_arch_passes_through() {
    assert_eq!(pair("tvos", "x86_64"), ("tvOS".to_string(), "x86_64".to_string()));
}

#[test]
fn visionos_aarch64_is_arm64() {
    assert_eq!(pair("visionos", "aarch64"), ("visionOS".to_string(), "arm64".to_string()));
}

#[test]
fn visionos_other_arch_passes_through() {
    assert_eq!(pair("visionos", "x86_64"), ("visionOS".to_string(), "x86_64".to_string()));
}

#[test]
fn watchos_aarch64_is_arm64() {
    assert_eq!(pair("watchos", "aarch64"), ("watchOS".to_string(), "arm64".to_string()));
}

#[test]
fn watchos_other_arch_passes_through() {
    assert_eq!(pair("watchos", "arm"), ("watchOS".to_string(), "arm".to_string()));
}

#[test]
fn windows_x86_64_is_amd64_upper() {
    assert_eq!(pair("windows", "x86_64"), ("Windows".to_string(), "AMD64".to_string()));
}

#[test]
fn windows_x86_is_x86_upper() {
    assert_eq!(pair("windows", "x86"), ("Windows".to_string(), "X86".to_string()));
}

#[test]
fn windows_aarch64_is_arm64_upper() {
    assert_eq!(pair("windows", "aarch64"), ("Windows".to_string(), "ARM64".to_string()));
}

#[test]
fn windows_other_arch_passes_both_through() {
    assert_eq!(pair("windows", "thumbv7a"), ("windows".to_string(), "thumbv7a".to_string()));
}

#[test]
fn emscripten_wasm32_is_x86() {
    assert_eq!(pair("emscripten", "wasm32"), ("Emscripten".to_string(), "x86".to_string()));
}

#[test]
fn emscripten_other_arch_passes_both_through() {
    assert_eq!(pair("emscripten", "wasm64"), ("emscripten".to_string(), "wasm64".to_string()));
}

#[test]
fn bare_metal_is_generic() {
    assert_eq!(pair("none", "riscv32"), ("Generic".to_string(), "riscv32".to_string()));
}

#[test]
fn unlisted_os_passes_both_through() {
    assert_eq!(pair("redox", "x86_64"), ("redox".to_string(), "x86_64".to_string()));
    assert_eq!(pair("vxworks", "powerpc"), ("vxworks".to_string(), "powerpc".to_string()));
    assert_eq!(pair("", ""), ("".to_string(), "".to_string()));
}

#[test]
fn lookup_is_pure() {
    let a = pair("android", "arm");
    let b = pair("android", "arm");
    assert_eq!(a, b);
}
