//! The naming authority of the engine: every artifact location, derived from
//! a single root directory by pure string construction. Each function's
//! contract pins the returned path to a specification function of the inputs
//! alone, so repeated calls agree and installers and resolvers can never
//! disagree on where an artifact belongs. The uniqueness lemmas state that
//! the convention is collision-free.

use vstd::prelude::*;

use crate::error::ErrorDetails;
use crate::platform::Arch;
use crate::platform::Os;
use crate::strings::lemma_split_at_sep;
use crate::strings::lemma_strip_prefix;
use crate::strings::lemma_strip_suffix;

verus! {

// --- The root directory ---

/// The managed root inside a given home directory.
pub open spec fn spec_volta_home(home: Seq<char>) -> Seq<char> {
    home + "/.volta"@
}

pub fn volta_home_in(home: &str) -> (r: String)
    ensures
        r@ == spec_volta_home(home@),
{
    String::from_str(home).concat("/.volta")
}

/// Relies on `dirs::home_dir` for the host's home-directory lookup. The
/// result depends on the environment, so nothing is promised of it; a home
/// directory that is not valid Unicode counts as absent.
#[verifier::external_body]
fn home_dir_string() -> (r: Option<String>) {
    dirs::home_dir().and_then(|p| p.into_os_string().into_string().ok())
}

/// The default root: the managed directory inside the host's home directory.
/// Fails exactly when the host has no resolvable home location.
pub fn default_volta_home() -> (r: Result<String, ErrorDetails>)
    ensures
        r matches Ok(p) ==> exists|home: Seq<char>| p@ == spec_volta_home(home),
        r matches Err(e) ==> e == ErrorDetails::NoHomeDirectory,
{
    match home_dir_string() {
        Some(home) => Ok(volta_home_in(home.as_str())),
        None => Err(ErrorDetails::NoHomeDirectory),
    }
}

// --- Fixed directories under the root ---

pub open spec fn spec_cache_dir(root: Seq<char>) -> Seq<char> {
    root + "/cache"@
}

pub fn cache_dir(root: &str) -> (r: String)
    ensures
        r@ == spec_cache_dir(root@),
{
    String::from_str(root).concat("/cache")
}

pub open spec fn spec_node_cache_dir(root: Seq<char>) -> Seq<char> {
    spec_cache_dir(root) + "/node"@
}

pub fn node_cache_dir(root: &str) -> (r: String)
    ensures
        r@ == spec_node_cache_dir(root@),
{
    cache_dir(root).concat("/node")
}

pub open spec fn spec_node_index_file(root: Seq<char>) -> Seq<char> {
    spec_node_cache_dir(root) + "/index.json"@
}

pub fn node_index_file(root: &str) -> (r: String)
    ensures
        r@ == spec_node_index_file(root@),
{
    node_cache_dir(root).concat("/index.json")
}

pub open spec fn spec_node_index_expiry_file(root: Seq<char>) -> Seq<char> {
    spec_node_cache_dir(root) + "/index.json.expires"@
}

pub fn node_index_expiry_file(root: &str) -> (r: String)
    ensures
        r@ == spec_node_index_expiry_file(root@),
{
    node_cache_dir(root).concat("/index.json.expires")
}

pub open spec fn spec_shim_dir(root: Seq<char>) -> Seq<char> {
    root + "/bin"@
}

pub fn shim_dir(root: &str) -> (r: String)
    ensures
        r@ == spec_shim_dir(root@),
{
    String::from_str(root).concat("/bin")
}

pub open spec fn spec_log_dir(root: Seq<char>) -> Seq<char> {
    root + "/log"@
}

pub fn log_dir(root: &str) -> (r: String)
    ensures
        r@ == spec_log_dir(root@),
{
    String::from_str(root).concat("/log")
}

pub open spec fn spec_tools_dir(root: Seq<char>) -> Seq<char> {
    root + "/tools"@
}

pub fn tools_dir(root: &str) -> (r: String)
    ensures
        r@ == spec_tools_dir(root@),
{
    String::from_str(root).concat("/tools")
}

pub open spec fn spec_inventory_dir(root: Seq<char>) -> Seq<char> {
    spec_tools_dir(root) + "/inventory"@
}

pub fn inventory_dir(root: &str) -> (r: String)
    ensures
        r@ == spec_inventory_dir(root@),
{
    tools_dir(root).concat("/inventory")
}

pub open spec fn spec_node_inventory_dir(root: Seq<char>) -> Seq<char> {
    spec_inventory_dir(root) + "/node"@
}

pub fn node_inventory_dir(root: &str) -> (r: String)
    ensures
        r@ == spec_node_inventory_dir(root@),
{
    inventory_dir(root).concat("/node")
}

pub open spec fn spec_package_inventory_dir(root: Seq<char>) -> Seq<char> {
    spec_inventory_dir(root) + "/packages"@
}

pub fn package_inventory_dir(root: &str) -> (r: String)
    ensures
        r@ == spec_package_inventory_dir(root@),
{
    inventory_dir(root).concat("/packages")
}

pub open spec fn spec_yarn_inventory_dir(root: Seq<char>) -> Seq<char> {
    spec_inventory_dir(root) + "/yarn"@
}

pub fn yarn_inventory_dir(root: &str) -> (r: String)
    ensures
        r@ == spec_yarn_inventory_dir(root@),
{
    inventory_dir(root).concat("/yarn")
}

pub open spec fn spec_image_dir(root: Seq<char>) -> Seq<char> {
    spec_tools_dir(root) + "/image"@
}

pub fn image_dir(root: &str) -> (r: String)
    ensures
        r@ == spec_image_dir(root@),
{
    tools_dir(root).concat("/image")
}

// --- Image directories, keyed by version tuples ---

pub open spec fn spec_node_image_root_dir(root: Seq<char>) -> Seq<char> {
    spec_image_dir(root) + "/node"@
}

pub fn node_image_root_dir(root: &str) -> (r: String)
    ensures
        r@ == spec_node_image_root_dir(root@),
{
    image_dir(root).concat("/node")
}

pub open spec fn spec_node_image_dir(root: Seq<char>, node: Seq<char>, npm: Seq<char>) -> Seq<
    char,
> {
    spec_node_image_root_dir(root) + "/"@ + node + "/"@ + npm
}

/// The unpacked, runnable installation for a runtime version paired with a
/// package-manager version. The path is stable: an installer may populate a
/// temporary directory and atomically rename it to this target.
pub fn node_image_dir(root: &str, node: &str, npm: &str) -> (r: String)
    ensures
        r@ == spec_node_image_dir(root@, node@, npm@),
{
    node_image_root_dir(root).concat("/").concat(node).concat("/").concat(npm)
}

pub open spec fn spec_node_image_bin_dir(
    root: Seq<char>,
    node: Seq<char>,
    npm: Seq<char>,
) -> Seq<char> {
    spec_node_image_dir(root, node, npm) + "/bin"@
}

pub fn node_image_bin_dir(root: &str, node: &str, npm: &str) -> (r: String)
    ensures
        r@ == spec_node_image_bin_dir(root@, node@, npm@),
{
    node_image_dir(root, node, npm).concat("/bin")
}

pub open spec fn spec_yarn_image_root_dir(root: Seq<char>) -> Seq<char> {
    spec_image_dir(root) + "/yarn"@
}

pub fn yarn_image_root_dir(root: &str) -> (r: String)
    ensures
        r@ == spec_yarn_image_root_dir(root@),
{
    image_dir(root).concat("/yarn")
}

pub open spec fn spec_yarn_image_dir(root: Seq<char>, version: Seq<char>) -> Seq<char> {
    spec_yarn_image_root_dir(root) + "/"@ + version
}

pub fn yarn_image_dir(root: &str, version: &str) -> (r: String)
    ensures
        r@ == spec_yarn_image_dir(root@, version@),
{
    yarn_image_root_dir(root).concat("/").concat(version)
}

pub open spec fn spec_package_image_root_dir(root: Seq<char>) -> Seq<char> {
    spec_image_dir(root) + "/packages"@
}

pub fn package_image_root_dir(root: &str) -> (r: String)
    ensures
        r@ == spec_package_image_root_dir(root@),
{
    image_dir(root).concat("/packages")
}

pub open spec fn spec_package_image_dir(
    root: Seq<char>,
    name: Seq<char>,
    version: Seq<char>,
) -> Seq<char> {
    spec_package_image_root_dir(root) + "/"@ + name + "/"@ + version
}

pub fn package_image_dir(root: &str, name: &str, version: &str) -> (r: String)
    ensures
        r@ == spec_package_image_dir(root@, name@, version@),
{
    package_image_root_dir(root).concat("/").concat(name).concat("/").concat(version)
}

// --- Per-user configuration ---

pub open spec fn spec_user_toolchain_dir(root: Seq<char>) -> Seq<char> {
    spec_tools_dir(root) + "/user"@
}

pub fn user_toolchain_dir(root: &str) -> (r: String)
    ensures
        r@ == spec_user_toolchain_dir(root@),
{
    tools_dir(root).concat("/user")
}

pub open spec fn spec_user_tool_bin_config(root: Seq<char>, toolname: Seq<char>) -> Seq<char> {
    spec_user_toolchain_dir(root) + "/bins/"@ + toolname + ".json"@
}

pub fn user_tool_bin_config(root: &str, toolname: &str) -> (r: String)
    ensures
        r@ == spec_user_tool_bin_config(root@, toolname@),
{
    user_toolchain_dir(root).concat("/bins/").concat(toolname).concat(".json")
}

pub open spec fn spec_user_package_dir(root: Seq<char>) -> Seq<char> {
    spec_user_toolchain_dir(root) + "/packages"@
}

pub fn user_package_dir(root: &str) -> (r: String)
    ensures
        r@ == spec_user_package_dir(root@),
{
    user_toolchain_dir(root).concat("/packages")
}

pub open spec fn spec_user_package_config_file(root: Seq<char>, name: Seq<char>) -> Seq<char> {
    spec_user_package_dir(root) + "/"@ + name + ".json"@
}

pub fn user_package_config_file(root: &str, name: &str) -> (r: String)
    ensures
        r@ == spec_user_package_config_file(root@, name@),
{
    user_package_dir(root).concat("/").concat(name).concat(".json")
}

pub open spec fn spec_user_platform_file(root: Seq<char>) -> Seq<char> {
    spec_user_toolchain_dir(root) + "/platform.json"@
}

pub fn user_platform_file(root: &str) -> (r: String)
    ensures
        r@ == spec_user_platform_file(root@),
{
    user_toolchain_dir(root).concat("/platform.json")
}

pub open spec fn spec_user_hooks_file(root: Seq<char>) -> Seq<char> {
    root + "/hooks.json"@
}

pub fn user_hooks_file(root: &str) -> (r: String)
    ensures
        r@ == spec_user_hooks_file(root@),
{
    String::from_str(root).concat("/hooks.json")
}

// --- Shims and top-level files ---

pub open spec fn spec_shim_file(root: Seq<char>, toolname: Seq<char>) -> Seq<char> {
    spec_shim_dir(root) + "/"@ + toolname
}

/// The per-command shim file: its name must match the user-invocable command.
pub fn shim_file(root: &str, toolname: &str) -> (r: String)
    ensures
        r@ == spec_shim_file(root@, toolname@),
{
    shim_dir(root).concat("/").concat(toolname)
}

pub open spec fn spec_volta_file(root: Seq<char>) -> Seq<char> {
    root + "/volta"@
}

/// A reserved marker file at the root; no behavior is attached to it beyond
/// its place in the naming convention.
pub fn volta_file(root: &str) -> (r: String)
    ensures
        r@ == spec_volta_file(root@),
{
    String::from_str(root).concat("/volta")
}

/// The ordered list of directories to prepend to a process's executable
/// search path, highest priority first, so that shims win.
pub fn env_paths(root: &str) -> (r: Vec<String>)
    ensures
        r@.len() == 1,
        r@[0]@ == spec_shim_dir(root@),
{
    let mut paths: Vec<String> = Vec::new();
    paths.push(shim_dir(root));
    paths
}

// --- Distribution archive naming ---

/// The file extension used for runtime distribution archives.
pub fn archive_extension() -> (r: String)
    ensures
        r@ == "tar.gz"@,
{
    String::from_str("tar.gz")
}

pub open spec fn spec_node_archive_root_dir_name(
    version: Seq<char>,
    os: Os,
    arch: Arch,
) -> Seq<char> {
    "node-v"@ + version + "-"@ + os.spec_identifier() + "-"@ + arch.spec_identifier()
}

/// The root directory a runtime distribution archive unpacks to, which by
/// upstream convention equals the archive's name without its extension.
pub fn node_archive_root_dir_name(version: &str, os: Os, arch: Arch) -> (r: String)
    ensures
        r@ == spec_node_archive_root_dir_name(version@, os, arch),
{
    String::from_str("node-v").concat(version).concat("-").concat(os.identifier()).concat(
        "-",
    ).concat(arch.identifier())
}

pub open spec fn spec_node_distro_file_name(version: Seq<char>, os: Os, arch: Arch) -> Seq<
    char,
> {
    spec_node_archive_root_dir_name(version, os, arch) + ".tar.gz"@
}

/// The runtime distribution archive's file name, exactly as the upstream
/// registry publishes it for the given platform.
pub fn node_distro_file_name(version: &str, os: Os, arch: Arch) -> (r: String)
    ensures
        r@ == spec_node_distro_file_name(version@, os, arch),
{
    node_archive_root_dir_name(version, os, arch).concat(".tar.gz")
}

pub open spec fn spec_node_archive_npm_package_json_path(
    version: Seq<char>,
    os: Os,
    arch: Arch,
) -> Seq<char> {
    spec_node_archive_root_dir_name(version, os, arch) + "/lib/node_modules/npm/package.json"@
}

/// Where, inside an unpacked runtime archive, the bundled package manager's
/// manifest sits; read by the installer to learn the paired version.
pub fn node_archive_npm_package_json_path(version: &str, os: Os, arch: Arch) -> (r: String)
    ensures
        r@ == spec_node_archive_npm_package_json_path(version@, os, arch),
{
    node_archive_root_dir_name(version, os, arch).concat("/lib/node_modules/npm/package.json")
}

pub open spec fn spec_node_npm_version_file(root: Seq<char>, version: Seq<char>) -> Seq<char> {
    spec_node_inventory_dir(root) + "/node-v"@ + version + "-npm"@
}

/// The inventory file recording which package-manager version a fetched
/// runtime version is paired with.
pub fn node_npm_version_file(root: &str, version: &str) -> (r: String)
    ensures
        r@ == spec_node_npm_version_file(root@, version@),
{
    node_inventory_dir(root).concat("/node-v").concat(version).concat("-npm")
}

pub open spec fn spec_package_distro_file(
    root: Seq<char>,
    name: Seq<char>,
    version: Seq<char>,
) -> Seq<char> {
    spec_package_inventory_dir(root) + "/"@ + name + "-"@ + version + ".tgz"@
}

pub fn package_distro_file(root: &str, name: &str, version: &str) -> (r: String)
    ensures
        r@ == spec_package_distro_file(root@, name@, version@),
{
    package_inventory_dir(root).concat("/").concat(name).concat("-").concat(version).concat(
        ".tgz",
    )
}

pub open spec fn spec_package_distro_shasum(
    root: Seq<char>,
    name: Seq<char>,
    version: Seq<char>,
) -> Seq<char> {
    spec_package_inventory_dir(root) + "/"@ + name + "-"@ + version + ".shasum"@
}

/// The detached checksum that always accompanies a package archive.
pub fn package_distro_shasum(root: &str, name: &str, version: &str) -> (r: String)
    ensures
        r@ == spec_package_distro_shasum(root@, name@, version@),
{
    package_inventory_dir(root).concat("/").concat(name).concat("-").concat(version).concat(
        ".shasum",
    )
}

// --- Collision freedom of the naming convention ---

/// Distinct (runtime version, package-manager version) pairs yield distinct
/// image directories, as long as neither version contains the path
/// separator.
pub proof fn lemma_node_image_dir_unique(
    root: Seq<char>,
    node1: Seq<char>,
    npm1: Seq<char>,
    node2: Seq<char>,
    npm2: Seq<char>,
)
    requires
        !npm1.contains('/'),
        !npm2.contains('/'),
        node1 != node2 || npm1 != npm2,
    ensures
        spec_node_image_dir(root, node1, npm1) != spec_node_image_dir(root, node2, npm2),
{
    reveal_strlit("/");
    if spec_node_image_dir(root, node1, npm1) == spec_node_image_dir(root, node2, npm2) {
        let base = spec_node_image_root_dir(root);
        lemma_split_at_sep(base + "/"@ + node1, npm1, base + "/"@ + node2, npm2, "/"@);
        lemma_strip_prefix(base + "/"@, node1, node2);
        assert(false);
    }
}

/// Distinct (package name, version) pairs yield distinct package image
/// directories, as long as neither version contains the path separator.
pub proof fn lemma_package_image_dir_unique(
    root: Seq<char>,
    name1: Seq<char>,
    version1: Seq<char>,
    name2: Seq<char>,
    version2: Seq<char>,
)
    requires
        !version1.contains('/'),
        !version2.contains('/'),
        name1 != name2 || version1 != version2,
    ensures
        spec_package_image_dir(root, name1, version1) != spec_package_image_dir(
            root,
            name2,
            version2,
        ),
{
    reveal_strlit("/");
    if spec_package_image_dir(root, name1, version1) == spec_package_image_dir(
        root,
        name2,
        version2,
    ) {
        let base = spec_package_image_root_dir(root);
        lemma_split_at_sep(base + "/"@ + name1, version1, base + "/"@ + name2, version2, "/"@);
        lemma_strip_prefix(base + "/"@, name1, name2);
        assert(false);
    }
}

/// A name of the shape `prefix + name + "-" + version + suffix` determines
/// name and version uniquely when the version is free of dashes; the name
/// itself may contain dashes.
proof fn lemma_dashed_pair_injective(
    prefix: Seq<char>,
    name1: Seq<char>,
    version1: Seq<char>,
    name2: Seq<char>,
    version2: Seq<char>,
    suffix: Seq<char>,
)
    requires
        !version1.contains('-'),
        !version2.contains('-'),
        prefix + name1 + "-"@ + version1 + suffix == prefix + name2 + "-"@ + version2 + suffix,
    ensures
        name1 == name2,
        version1 == version2,
{
    reveal_strlit("-");
    lemma_strip_suffix(prefix + name1 + "-"@ + version1, prefix + name2 + "-"@ + version2, suffix);
    lemma_split_at_sep(prefix + name1, version1, prefix + name2, version2, "-"@);
    lemma_strip_prefix(prefix, name1, name2);
}

/// Distinct (package name, version) pairs yield distinct archive files in the
/// inventory, as long as neither version contains a dash.
pub proof fn lemma_package_distro_file_unique(
    root: Seq<char>,
    name1: Seq<char>,
    version1: Seq<char>,
    name2: Seq<char>,
    version2: Seq<char>,
)
    requires
        !version1.contains('-'),
        !version2.contains('-'),
        name1 != name2 || version1 != version2,
    ensures
        spec_package_distro_file(root, name1, version1) != spec_package_distro_file(
            root,
            name2,
            version2,
        ),
{
    if spec_package_distro_file(root, name1, version1) == spec_package_distro_file(
        root,
        name2,
        version2,
    ) {
        lemma_dashed_pair_injective(
            spec_package_inventory_dir(root) + "/"@,
            name1,
            version1,
            name2,
            version2,
            ".tgz"@,
        );
        assert(false);
    }
}

/// Distinct (package name, version) pairs yield distinct checksum files in
/// the inventory, as long as neither version contains a dash.
pub proof fn lemma_package_distro_shasum_unique(
    root: Seq<char>,
    name1: Seq<char>,
    version1: Seq<char>,
    name2: Seq<char>,
    version2: Seq<char>,
)
    requires
        !version1.contains('-'),
        !version2.contains('-'),
        name1 != name2 || version1 != version2,
    ensures
        spec_package_distro_shasum(root, name1, version1) != spec_package_distro_shasum(
            root,
            name2,
            version2,
        ),
{
    if spec_package_distro_shasum(root, name1, version1) == spec_package_distro_shasum(
        root,
        name2,
        version2,
    ) {
        lemma_dashed_pair_injective(
            spec_package_inventory_dir(root) + "/"@,
            name1,
            version1,
            name2,
            version2,
            ".shasum"@,
        );
        assert(false);
    }
}

/// Equal archive root directory names force equal (version, platform)
/// triples: the platform identifiers are free of dashes, so the last two
/// dashes in the name locate them unambiguously.
proof fn lemma_node_archive_root_dir_name_injective(
    version1: Seq<char>,
    os1: Os,
    arch1: Arch,
    version2: Seq<char>,
    os2: Os,
    arch2: Arch,
)
    requires
        spec_node_archive_root_dir_name(version1, os1, arch1) == spec_node_archive_root_dir_name(
            version2,
            os2,
            arch2,
        ),
    ensures
        version1 == version2,
        os1 == os2,
        arch1 == arch2,
{
    reveal_strlit("-");
    arch1.lemma_identifier_free_of_dash();
    arch2.lemma_identifier_free_of_dash();
    lemma_split_at_sep(
        "node-v"@ + version1 + "-"@ + os1.spec_identifier(),
        arch1.spec_identifier(),
        "node-v"@ + version2 + "-"@ + os2.spec_identifier(),
        arch2.spec_identifier(),
        "-"@,
    );
    Arch::lemma_identifier_injective(arch1, arch2);
    os1.lemma_identifier_free_of_dash();
    os2.lemma_identifier_free_of_dash();
    lemma_split_at_sep(
        "node-v"@ + version1,
        os1.spec_identifier(),
        "node-v"@ + version2,
        os2.spec_identifier(),
        "-"@,
    );
    Os::lemma_identifier_injective(os1, os2);
    lemma_strip_prefix("node-v"@, version1, version2);
}

/// Distinct (version, platform) triples yield distinct runtime distribution
/// file names, with no restriction on the version string.
pub proof fn lemma_node_distro_file_name_unique(
    version1: Seq<char>,
    os1: Os,
    arch1: Arch,
    version2: Seq<char>,
    os2: Os,
    arch2: Arch,
)
    requires
        version1 != version2 || os1 != os2 || arch1 != arch2,
    ensures
        spec_node_distro_file_name(version1, os1, arch1) != spec_node_distro_file_name(
            version2,
            os2,
            arch2,
        ),
{
    if spec_node_distro_file_name(version1, os1, arch1) == spec_node_distro_file_name(
        version2,
        os2,
        arch2,
    ) {
        lemma_strip_suffix(
            spec_node_archive_root_dir_name(version1, os1, arch1),
            spec_node_archive_root_dir_name(version2, os2, arch2),
            ".tar.gz"@,
        );
        lemma_node_archive_root_dir_name_injective(version1, os1, arch1, version2, os2, arch2);
        assert(false);
    }
}

/// Distinct command names yield distinct shim files.
pub proof fn lemma_shim_file_unique(
    root: Seq<char>,
    toolname1: Seq<char>,
    toolname2: Seq<char>,
)
    requires
        toolname1 != toolname2,
    ensures
        spec_shim_file(root, toolname1) != spec_shim_file(root, toolname2),
{
    if spec_shim_file(root, toolname1) == spec_shim_file(root, toolname2) {
        lemma_strip_prefix(spec_shim_dir(root) + "/"@, toolname1, toolname2);
        assert(false);
    }
}

/// Distinct tool names yield distinct per-tool configuration files.
pub proof fn lemma_user_tool_bin_config_unique(
    root: Seq<char>,
    toolname1: Seq<char>,
    toolname2: Seq<char>,
)
    requires
        toolname1 != toolname2,
    ensures
        spec_user_tool_bin_config(root, toolname1) != spec_user_tool_bin_config(root, toolname2),
{
    if spec_user_tool_bin_config(root, toolname1) == spec_user_tool_bin_config(root, toolname2) {
        lemma_strip_suffix(
            spec_user_toolchain_dir(root) + "/bins/"@ + toolname1,
            spec_user_toolchain_dir(root) + "/bins/"@ + toolname2,
            ".json"@,
        );
        lemma_strip_prefix(spec_user_toolchain_dir(root) + "/bins/"@, toolname1, toolname2);
        assert(false);
    }
}

/// Distinct package names yield distinct per-package configuration files.
pub proof fn lemma_user_package_config_file_unique(
    root: Seq<char>,
    name1: Seq<char>,
    name2: Seq<char>,
)
    requires
        name1 != name2,
    ensures
        spec_user_package_config_file(root, name1) != spec_user_package_config_file(root, name2),
{
    if spec_user_package_config_file(root, name1) == spec_user_package_config_file(root, name2) {
        lemma_strip_suffix(
            spec_user_package_dir(root) + "/"@ + name1,
            spec_user_package_dir(root) + "/"@ + name2,
            ".json"@,
        );
        lemma_strip_prefix(spec_user_package_dir(root) + "/"@, name1, name2);
        assert(false);
    }
}

/// Distinct runtime versions yield distinct pairing files in the inventory.
pub proof fn lemma_node_npm_version_file_unique(
    root: Seq<char>,
    version1: Seq<char>,
    version2: Seq<char>,
)
    requires
        version1 != version2,
    ensures
        spec_node_npm_version_file(root, version1) != spec_node_npm_version_file(root, version2),
{
    if spec_node_npm_version_file(root, version1) == spec_node_npm_version_file(root, version2) {
        lemma_strip_suffix(
            spec_node_inventory_dir(root) + "/node-v"@ + version1,
            spec_node_inventory_dir(root) + "/node-v"@ + version2,
            "-npm"@,
        );
        lemma_strip_prefix(spec_node_inventory_dir(root) + "/node-v"@, version1, version2);
        assert(false);
    }
}

/// Distinct versions yield distinct yarn image directories.
pub proof fn lemma_yarn_image_dir_unique(
    root: Seq<char>,
    version1: Seq<char>,
    version2: Seq<char>,
)
    requires
        version1 != version2,
    ensures
        spec_yarn_image_dir(root, version1) != spec_yarn_image_dir(root, version2),
{
    if spec_yarn_image_dir(root, version1) == spec_yarn_image_dir(root, version2) {
        lemma_strip_prefix(spec_yarn_image_root_dir(root) + "/"@, version1, version2);
        assert(false);
    }
}

} // verus!
