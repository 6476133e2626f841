use volta_layout::error::ErrorDetails;
use volta_layout::error::ExitCode;
use volta_layout::layout::archive_extension;
use volta_layout::layout::cache_dir;
use volta_layout::layout::default_volta_home;
use volta_layout::layout::env_paths;
use volta_layout::layout::image_dir;
use volta_layout::layout::inventory_dir;
use volta_layout::layout::log_dir;
use volta_layout::layout::node_archive_npm_package_json_path;
use volta_layout::layout::node_archive_root_dir_name;
use volta_layout::layout::node_cache_dir;
use volta_layout::layout::node_distro_file_name;
use volta_layout::layout::node_image_bin_dir;
use volta_layout::layout::node_image_dir;
use volta_layout::layout::node_index_expiry_file;
use volta_layout::layout::node_index_file;
use volta_layout::layout::node_inventory_dir;
use volta_layout::layout::node_npm_version_file;
use volta_layout::layout::package_distro_file;
use volta_layout::layout::package_distro_shasum;
use volta_layout::layout::package_image_dir;
use volta_layout::layout::package_inventory_dir;
use volta_layout::layout::shim_dir;
use volta_layout::layout::shim_file;
use volta_layout::layout::tools_dir;
use volta_layout::layout::user_hooks_file;
use volta_layout::layout::user_package_config_file;
use volta_layout::layout::user_package_dir;
use volta_layout::layout::user_platform_file;
use volta_layout::layout::user_tool_bin_config;
use volta_layout::layout::user_toolchain_dir;
use volta_layout::layout::volta_file;
use volta_layout::layout::volta_home_in;
use volta_layout::layout::yarn_image_dir;
use volta_layout::layout::yarn_image_root_dir;
use volta_layout::layout::yarn_inventory_dir;
use volta_layout::platform::parse_arch;
use volta_layout::platform::parse_os;
use volta_layout::platform::Arch;
use volta_layout::platform::Os;
use volta_layout::resolver::shim_executable;
use volta_layout::style::progress_bar_width;
use volta_layout::resolver::shim_executable_default;
use volta_layout::resolver::shim_executable_fallback;

const ROOT: &str = "/home/u/.volta";

#[test]
fn paths_are_deterministic() {
    assert_eq!(node_image_dir(ROOT, "10.13.0", "6.4.0"), node_image_dir(ROOT, "10.13.0", "6.4.0"));
    assert_eq!(shim_file(ROOT, "ember"), shim_file(ROOT, "ember"));
    assert_eq!(
        node_distro_file_name("10.13.0", Os::Linux, Arch::X64),
        node_distro_file_name("10.13.0", Os::Linux, Arch::X64)
    );
}

#[test]
fn fixed_directories() {
    assert_eq!(cache_dir(ROOT), "/home/u/.volta/cache");
    assert_eq!(node_cache_dir(ROOT), "/home/u/.volta/cache/node");
    assert_eq!(node_index_file(ROOT), "/home/u/.volta/cache/node/index.json");
    assert_eq!(node_index_expiry_file(ROOT), "/home/u/.volta/cache/node/index.json.expires");
    assert_eq!(shim_dir(ROOT), "/home/u/.volta/bin");
    assert_eq!(log_dir(ROOT), "/home/u/.volta/log");
    assert_eq!(tools_dir(ROOT), "/home/u/.volta/tools");
    assert_eq!(inventory_dir(ROOT), "/home/u/.volta/tools/inventory");
    assert_eq!(node_inventory_dir(ROOT), "/home/u/.volta/tools/inventory/node");
    assert_eq!(package_inventory_dir(ROOT), "/home/u/.volta/tools/inventory/packages");
    assert_eq!(yarn_inventory_dir(ROOT), "/home/u/.volta/tools/inventory/yarn");
    assert_eq!(image_dir(ROOT), "/home/u/.volta/tools/image");
}

#[test]
fn user_configuration_files() {
    assert_eq!(user_toolchain_dir(ROOT), "/home/u/.volta/tools/user");
    assert_eq!(user_tool_bin_config(ROOT, "tsc"), "/home/u/.volta/tools/user/bins/tsc.json");
    assert_eq!(user_package_dir(ROOT), "/home/u/.volta/tools/user/packages");
    assert_eq!(
        user_package_config_file(ROOT, "ember-cli"),
        "/home/u/.volta/tools/user/packages/ember-cli.json"
    );
    assert_eq!(user_platform_file(ROOT), "/home/u/.volta/tools/user/platform.json");
    assert_eq!(user_hooks_file(ROOT), "/home/u/.volta/hooks.json");
    assert_eq!(volta_file(ROOT), "/home/u/.volta/volta");
}

#[test]
fn image_directory_for_version_pair() {
    assert_eq!(
        node_image_dir(ROOT, "10.13.0", "6.4.0"),
        "/home/u/.volta/tools/image/node/10.13.0/6.4.0"
    );
    assert_eq!(
        node_image_bin_dir(ROOT, "10.13.0", "6.4.0"),
        "/home/u/.volta/tools/image/node/10.13.0/6.4.0/bin"
    );
}

#[test]
fn other_image_directories() {
    assert_eq!(yarn_image_root_dir(ROOT), "/home/u/.volta/tools/image/yarn");
    assert_eq!(yarn_image_dir(ROOT, "1.7.0"), "/home/u/.volta/tools/image/yarn/1.7.0");
    assert_eq!(
        package_image_dir(ROOT, "ember-cli", "3.7.1"),
        "/home/u/.volta/tools/image/packages/ember-cli/3.7.1"
    );
}

#[test]
fn distro_file_name_matches_published_convention() {
    assert_eq!(archive_extension(), "tar.gz");
    assert_eq!(
        node_distro_file_name("10.13.0", Os::Linux, Arch::X64),
        "node-v10.13.0-linux-x64.tar.gz"
    );
    assert_eq!(
        node_distro_file_name("4.8.4", Os::Macos, Arch::X86),
        "node-v4.8.4-darwin-x86.tar.gz"
    );
    assert_eq!(
        node_archive_root_dir_name("10.13.0", Os::Linux, Arch::X64),
        "node-v10.13.0-linux-x64"
    );
}

#[test]
fn archive_interior_paths() {
    assert_eq!(
        node_archive_npm_package_json_path("10.13.0", Os::Linux, Arch::X64),
        "node-v10.13.0-linux-x64/lib/node_modules/npm/package.json"
    );
    assert_eq!(
        node_npm_version_file(ROOT, "4.8.4"),
        "/home/u/.volta/tools/inventory/node/node-v4.8.4-npm"
    );
}

#[test]
fn package_inventory_files() {
    assert_eq!(
        package_distro_file(ROOT, "ember-cli", "3.7.1"),
        "/home/u/.volta/tools/inventory/packages/ember-cli-3.7.1.tgz"
    );
    assert_eq!(
        package_distro_shasum(ROOT, "ember-cli", "3.7.1"),
        "/home/u/.volta/tools/inventory/packages/ember-cli-3.7.1.shasum"
    );
}

#[test]
fn distinct_inputs_give_distinct_paths() {
    assert_ne!(node_image_dir(ROOT, "10.13.0", "6.4.0"), node_image_dir(ROOT, "10.13.0", "6.4.1"));
    assert_ne!(node_image_dir(ROOT, "10.13.0", "6.4.0"), node_image_dir(ROOT, "8.11.0", "6.4.0"));
    assert_ne!(
        package_image_dir(ROOT, "ember-cli", "3.7.1"),
        package_image_dir(ROOT, "ember-cli", "3.7.2")
    );
    assert_ne!(
        package_distro_file(ROOT, "ember-cli", "3.7.1"),
        package_distro_file(ROOT, "ember", "3.7.1")
    );
    assert_ne!(
        node_distro_file_name("10.13.0", Os::Linux, Arch::X64),
        node_distro_file_name("10.13.0", Os::Linux, Arch::X86)
    );
    assert_ne!(shim_file(ROOT, "node"), shim_file(ROOT, "npm"));
}

#[test]
fn shim_files_and_search_path() {
    assert_eq!(shim_file(ROOT, "node"), "/home/u/.volta/bin/node");
    let paths = env_paths(ROOT);
    assert_eq!(paths.len(), 1);
    assert_eq!(paths[0], "/home/u/.volta/bin");
}

#[test]
fn resolver_honors_override_verbatim() {
    let r = shim_executable(ROOT, Some(String::from("/tmp/custom-shim")), true, true);
    assert_eq!(r, Ok(String::from("/tmp/custom-shim")));
    let r = shim_executable(ROOT, Some(String::from("/nowhere/at/all")), false, false);
    assert_eq!(r, Ok(String::from("/nowhere/at/all")));
}

#[test]
fn resolver_takes_default_when_present() {
    let r = shim_executable(ROOT, None, true, true);
    assert_eq!(r, Ok(String::from("/home/u/.volta/shim")));
    assert_eq!(shim_executable_default(ROOT), "/home/u/.volta/shim");
}

#[test]
fn resolver_falls_back_when_default_absent() {
    let r = shim_executable(ROOT, None, false, true);
    assert_eq!(r, Ok(String::from("/usr/bin/volta-lib/shim")));
    assert_eq!(shim_executable_fallback(), "/usr/bin/volta-lib/shim");
}

#[test]
fn resolver_fails_when_nothing_is_found() {
    let r = shim_executable(ROOT, None, false, false);
    assert_eq!(r, Err(ErrorDetails::ShimExecutableNotFound));
}

#[test]
fn unknown_platform_identifiers_are_rejected() {
    assert_eq!(parse_os("linux"), Some(Os::Linux));
    assert_eq!(parse_os("darwin"), Some(Os::Macos));
    assert_eq!(parse_os("windows"), None);
    assert_eq!(parse_os(""), None);
    assert_eq!(parse_arch("x64"), Some(Arch::X64));
    assert_eq!(parse_arch("x86"), Some(Arch::X86));
    assert_eq!(parse_arch("armv7"), None);
    assert_eq!(parse_arch(""), None);
}

#[test]
fn platform_identifiers_are_never_empty() {
    assert_eq!(Os::Linux.identifier(), "linux");
    assert_eq!(Os::Macos.identifier(), "darwin");
    assert_eq!(Arch::X64.identifier(), "x64");
    assert_eq!(Arch::X86.identifier(), "x86");
}

#[test]
fn error_exit_codes_and_messages() {
    assert_eq!(ErrorDetails::NoHomeDirectory.exit_code(), ExitCode::EnvironmentError);
    assert_eq!(ErrorDetails::ShimExecutableNotFound.exit_code(), ExitCode::ExecutableNotFound);
    assert_eq!(ExitCode::Success.code(), 0);
    assert_eq!(ExitCode::UnknownError.code(), 1);
    assert_eq!(ExitCode::EnvironmentError.code(), 2);
    assert_eq!(ExitCode::ExecutableNotFound.code(), 127);
    assert_eq!(ErrorDetails::NoHomeDirectory.message(), "could not determine home directory");
    assert_eq!(
        ErrorDetails::ShimExecutableNotFound.message(),
        "could not locate the shim executable; please reinstall"
    );
}

#[test]
fn progress_bar_width_is_capped_and_never_underflows() {
    // "v1.23.4" is seven columns of details, so 31 columns of chrome.
    assert_eq!(progress_bar_width(80, 7), 40);
    assert_eq!(progress_bar_width(40, 7), 9);
    assert_eq!(progress_bar_width(31, 7), 0);
    assert_eq!(progress_bar_width(20, 7), 0);
    assert_eq!(progress_bar_width(0, 0), 0);
    assert_eq!(progress_bar_width(usize::MAX, usize::MAX), 0);
}

#[test]
fn root_is_derived_from_a_home_directory() {
    assert_eq!(volta_home_in("/home/u"), "/home/u/.volta");
    match default_volta_home() {
        Ok(root) => assert!(root.ends_with("/.volta")),
        Err(e) => assert_eq!(e, ErrorDetails::NoHomeDirectory),
    }
}
