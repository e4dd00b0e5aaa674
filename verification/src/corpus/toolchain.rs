//! The committed model-visible command toolchain and the evaluator runtime.
use vstd::prelude::*;
use vstd::string::*;

use crate::corpus::CorpusCommitmentError;
use crate::digest::{
    canonical_digest, canonical_hash, digest_bytes, digest_text, items_tree, json_array, json_object, json_text, member,
    members_tree, Json, JsonTree,
};
use crate::release_gate::paths::is_absolute;
use crate::text::{chars_of, text_eq};

verus! {

/// Schema of the execution tool policy.
pub const EXECUTION_TOOL_POLICY_SCHEMA: &'static str = "aiq.execution-tool-policy.v1";

/// Committed model-visible command toolchain policy.
#[derive(Clone, Debug)]
pub struct ExecutionToolPolicy {
    /// Policy schema.
    pub schema_version: String,
    /// Node platform token.
    pub platform: String,
    /// Node architecture token.
    pub architecture: String,
    /// Versioned fixed platform path mapping.
    pub platform_minimal_path: String,
    /// Ambient PATH inheritance is forbidden.
    pub inherit_path: bool,
    /// Shell profile loading is forbidden.
    pub use_shell_profile: bool,
    /// Ordered Node.js and ripgrep identities.
    pub commands: Vec<ToolchainCommand>,
}

/// One command exposed to model-generated shell commands.
#[derive(Clone, Debug)]
pub struct ToolchainCommand {
    /// Stable command name.
    pub name: String,
    /// Exact root-relative executable filename.
    pub executable_ref: String,
    /// Executable SHA-256.
    pub executable_sha256: String,
    /// Exact bounded `--version` output.
    pub version: String,
}

/// The Node.js runtime selected for evaluators.
#[derive(Clone, Debug)]
pub struct EvaluatorRuntime {
    /// Canonical path of the runtime executable.
    pub executable: String,
    /// SHA-256 of the runtime executable.
    pub executable_digest: String,
    /// First line of the runtime's `--version` output.
    pub version: String,
}

/// What was observed of one file in the toolchain root.
#[derive(Clone, Debug)]
pub struct ObservedToolchainEntry {
    /// File name inside the toolchain root.
    pub file_name: String,
    /// Canonical path of the file.
    pub canonical_path: String,
    /// The entry itself is a symbolic link.
    pub is_symlink: bool,
    /// The entry is a regular file.
    pub is_file: bool,
    /// Unix permission bits, where the platform has them.
    pub mode: Option<u32>,
    /// The file's bytes.
    pub bytes: Vec<u8>,
    /// First line of its `--version` output, where it was run.
    pub version: String,
}

/// What was observed of the configured toolchain root and its entries.
#[derive(Clone, Debug)]
pub struct ObservedToolchainRoot {
    /// The root path as configured.
    pub path: String,
    /// The root itself is a symbolic link.
    pub is_symlink: bool,
    /// The root is a directory.
    pub is_dir: bool,
    /// Canonical path of the root.
    pub canonical_path: String,
    /// The root's entries.
    pub entries: Vec<ObservedToolchainEntry>,
}

/// Canonical validated model toolchain selected for one run.
#[derive(Clone, Debug)]
pub struct ValidatedModelToolchain {
    root: String,
    policy: ExecutionToolPolicy,
    digest: String,
}

// ---------------------------------------------------------------------------
// Host identity
// ---------------------------------------------------------------------------
/// Node platform token of a Rust operating-system name.
pub open spec fn node_platform(os: Seq<char>) -> Option<Seq<char>> {
    if os == "macos"@ {
        Some("darwin"@)
    } else if os == "linux"@ {
        Some("linux"@)
    } else if os == "windows"@ {
        Some("win32"@)
    } else {
        None
    }
}

/// Node architecture token of a Rust architecture name.
pub open spec fn node_architecture(arch: Seq<char>) -> Option<Seq<char>> {
    if arch == "aarch64"@ {
        Some("arm64"@)
    } else if arch == "x86_64"@ {
        Some("x64"@)
    } else {
        None
    }
}

/// Versioned minimal PATH mapping of a platform token.
pub open spec fn minimal_path_label(platform: Seq<char>) -> Seq<char> {
    if platform == "darwin"@ {
        "darwin_v1"@
    } else if platform == "linux"@ {
        "linux_v1"@
    } else {
        "windows_v1"@
    }
}

/// Host platform, architecture and minimal-path tokens for a supported host.
pub fn host_toolchain_identity(os: &str, arch: &str) -> (r: Result<
    (String, String, String),
    CorpusCommitmentError,
>)
    ensures
        match r {
            Ok((p, a, m)) => node_platform(os@) == Some(p@) && node_architecture(arch@) == Some(a@)
                && m@ == minimal_path_label(p@),
            Err(_) => node_platform(os@) is None || node_architecture(arch@) is None,
        },
{
    proof {
        reveal_strlit("macos");
        reveal_strlit("linux");
        reveal_strlit("windows");
        reveal_strlit("darwin");
        reveal_strlit("win32");
    }
    let platform = if text_eq(os, "macos") {
        "darwin"
    } else if text_eq(os, "linux") {
        "linux"
    } else if text_eq(os, "windows") {
        "win32"
    } else {
        return Err(CorpusCommitmentError::new("unsupported model toolchain platform"));
    };
    let architecture = if text_eq(arch, "aarch64") {
        "arm64"
    } else if text_eq(arch, "x86_64") {
        "x64"
    } else {
        return Err(CorpusCommitmentError::new("unsupported model toolchain architecture"));
    };
    let minimal = if text_eq(platform, "darwin") {
        "darwin_v1"
    } else if text_eq(platform, "linux") {
        "linux_v1"
    } else {
        "windows_v1"
    };
    Ok((platform.to_owned(), architecture.to_owned(), minimal.to_owned()))
}

/// Executable file-name suffix of a platform token.
pub open spec fn executable_suffix(platform: Seq<char>) -> Seq<char> {
    if platform == "win32"@ {
        ".exe"@
    } else {
        ""@
    }
}

/// Fixed PATH entries after the toolchain root, by platform.
pub open spec fn minimal_path_entries(platform: Seq<char>) -> Seq<Seq<char>> {
    if platform == "darwin"@ {
        seq!["/usr/bin"@, "/bin"@, "/usr/sbin"@, "/sbin"@]
    } else if platform == "linux"@ {
        seq!["/usr/local/sbin"@, "/usr/local/bin"@, "/usr/sbin"@, "/usr/bin"@, "/sbin"@, "/bin"@]
    } else if platform == "win32"@ {
        seq!["C:\\Windows\\System32"@, "C:\\Windows"@]
    } else {
        seq![]
    }
}

/// PATH separator of a platform token.
pub open spec fn path_separator(platform: Seq<char>) -> Seq<char> {
    if platform == "win32"@ {
        ";"@
    } else {
        ":"@
    }
}

/// `first`, then each entry preceded by the separator.
pub open spec fn joined_path(first: Seq<char>, entries: Seq<Seq<char>>, separator: Seq<char>) -> Seq<char>
    decreases entries.len(),
{
    if entries.len() == 0 {
        first
    } else {
        joined_path(first, entries.drop_last(), separator) + separator + entries.last()
    }
}

fn minimal_path_entry_list(platform: &str) -> (r: Vec<&'static str>)
    ensures
        r@.len() == minimal_path_entries(platform@).len(),
        forall|i: int| 0 <= i < r@.len() ==> #[trigger] r@[i]@ == minimal_path_entries(platform@)[i],
{
    proof {
        reveal_strlit("darwin");
        reveal_strlit("linux");
        reveal_strlit("win32");
    }
    if text_eq(platform, "darwin") {
        vec!["/usr/bin", "/bin", "/usr/sbin", "/sbin"]
    } else if text_eq(platform, "linux") {
        vec!["/usr/local/sbin", "/usr/local/bin", "/usr/sbin", "/usr/bin", "/sbin", "/bin"]
    } else if text_eq(platform, "win32") {
        vec!["C:\\Windows\\System32", "C:\\Windows"]
    } else {
        Vec::new()
    }
}

// ---------------------------------------------------------------------------
// Policy checks
// ---------------------------------------------------------------------------
/// The policy fits the host: schema, platform, architecture and minimal
/// path match, neither PATH nor shell profile is inherited, and it lists
/// exactly `node` then `rg` under their platform file names.
pub open spec fn policy_fits_host(
    policy: ExecutionToolPolicy,
    platform: Seq<char>,
    architecture: Seq<char>,
    minimal_path: Seq<char>,
) -> bool {
    let c = policy.commands@;
    &&& policy.schema_version@ == EXECUTION_TOOL_POLICY_SCHEMA@
    &&& policy.platform@ == platform
    &&& policy.architecture@ == architecture
    &&& policy.platform_minimal_path@ == minimal_path
    &&& !policy.inherit_path
    &&& !policy.use_shell_profile
    &&& c.len() == 2
    &&& c[0].name@ == "node"@
    &&& c[1].name@ == "rg"@
    &&& c[0].executable_ref@ == "node"@ + executable_suffix(platform)
    &&& c[1].executable_ref@ == "rg"@ + executable_suffix(platform)
}

/// The version a check compares: the observed one where versions are probed,
/// else the committed one.
pub open spec fn compared_version(
    e: ObservedToolchainEntry,
    c: ToolchainCommand,
    probe_versions: bool,
) -> Seq<char> {
    if probe_versions {
        e.version@
    } else {
        c.version@
    }
}

/// The entry is a regular file, not a link, with an execute bit where the
/// platform has permission bits.
pub open spec fn entry_is_executable_file(e: ObservedToolchainEntry) -> bool {
    &&& !e.is_symlink
    &&& e.is_file
    &&& match e.mode {
        Some(m) => m & 0o111u32 != 0,
        None => true,
    }
}

/// The observed file is a regular executable whose bytes hash to its
/// command's digest, and the `node` command is the evaluator runtime itself.
pub open spec fn entry_matches(
    e: ObservedToolchainEntry,
    c: ToolchainCommand,
    runtime: EvaluatorRuntime,
    probe_versions: bool,
) -> bool {
    &&& entry_is_executable_file(e)
    &&& digest_text(e.bytes@) == c.executable_sha256@
    &&& compared_version(e, c, probe_versions) == c.version@
    &&& c.name@ == "node"@ ==> {
        &&& e.canonical_path@ == runtime.executable@
        &&& digest_text(e.bytes@) == runtime.executable_digest@
        &&& compared_version(e, c, probe_versions) == runtime.version@
    }
}

/// The root holds exactly the two committed files, and each matches its command.
pub open spec fn entries_match(
    policy: ExecutionToolPolicy,
    entries: Seq<ObservedToolchainEntry>,
    runtime: EvaluatorRuntime,
    probe_versions: bool,
) -> bool {
    let c = policy.commands@;
    &&& entries.len() == 2
    &&& {
        ||| entries[0].file_name@ == c[0].executable_ref@ && entries[1].file_name@
            == c[1].executable_ref@ && entry_matches(entries[0], c[0], runtime, probe_versions)
            && entry_matches(entries[1], c[1], runtime, probe_versions)
        ||| entries[1].file_name@ == c[0].executable_ref@ && entries[0].file_name@
            == c[1].executable_ref@ && entry_matches(entries[1], c[0], runtime, probe_versions)
            && entry_matches(entries[0], c[1], runtime, probe_versions)
    }
}

/// JSON form of one command.
pub open spec fn command_tree(c: ToolchainCommand) -> JsonTree {
    JsonTree::Object(
        seq![
            ("name"@, JsonTree::Text(c.name@)),
            ("executable_ref"@, JsonTree::Text(c.executable_ref@)),
            ("executable_sha256"@, JsonTree::Text(c.executable_sha256@)),
            ("version"@, JsonTree::Text(c.version@)),
        ],
    )
}

impl ExecutionToolPolicy {
    /// JSON form of the policy.
    pub open spec fn tree(&self) -> JsonTree {
        JsonTree::Object(
            seq![
                ("schema_version"@, JsonTree::Text(self.schema_version@)),
                ("platform"@, JsonTree::Text(self.platform@)),
                ("architecture"@, JsonTree::Text(self.architecture@)),
                ("platform_minimal_path"@, JsonTree::Text(self.platform_minimal_path@)),
                ("inherit_path"@, JsonTree::Bool(self.inherit_path)),
                ("use_shell_profile"@, JsonTree::Bool(self.use_shell_profile)),
                (
                    "commands"@,
                    JsonTree::Array(
                        Seq::new(self.commands@.len(), |i: int| command_tree(self.commands@[i])),
                    ),
                ),
            ],
        )
    }

    /// JSON form of the policy.
    pub fn to_json(&self) -> (j: Json)
        ensures
            j.tree() == self.tree(),
    {
        let mut items: Vec<Json> = Vec::new();
        let mut i: usize = 0;
        while i < self.commands.len()
            invariant
                i <= self.commands@.len(),
                items@.len() == i,
                forall|k: int| 0 <= k < i ==> #[trigger] items@[k].tree() == command_tree(self.commands@[k]),
            decreases self.commands@.len() - i,
        {
            let c = &self.commands[i];
            let mut m: Vec<(String, Json)> = Vec::new();
            m.push(member("name", json_text(c.name.as_str())));
            m.push(member("executable_ref", json_text(c.executable_ref.as_str())));
            m.push(member("executable_sha256", json_text(c.executable_sha256.as_str())));
            m.push(member("version", json_text(c.version.as_str())));
            let ghost ms = m@;
            let j = json_object(m);
            assert(members_tree(ms) =~= command_tree(*c)->Object_0);
            items.push(j);
            i += 1;
        }
        let ghost its = items@;
        let commands = json_array(items);
        assert(items_tree(its) =~= Seq::new(
            self.commands@.len(),
            |i: int| command_tree(self.commands@[i]),
        ));
        let mut m: Vec<(String, Json)> = Vec::new();
        m.push(member("schema_version", json_text(self.schema_version.as_str())));
        m.push(member("platform", json_text(self.platform.as_str())));
        m.push(member("architecture", json_text(self.architecture.as_str())));
        m.push(member("platform_minimal_path", json_text(self.platform_minimal_path.as_str())));
        m.push(member("inherit_path", Json::Bool(self.inherit_path)));
        m.push(member("use_shell_profile", Json::Bool(self.use_shell_profile)));
        m.push(member("commands", commands));
        let ghost ms = m@;
        let j = json_object(m);
        assert(members_tree(ms) =~= self.tree()->Object_0);
        j
    }
}

/// Two commands agree field by field.
pub open spec fn same_command(a: ToolchainCommand, b: ToolchainCommand) -> bool {
    &&& a.name@ == b.name@
    &&& a.executable_ref@ == b.executable_ref@
    &&& a.executable_sha256@ == b.executable_sha256@
    &&& a.version@ == b.version@
}

/// Two policies agree field by field.
pub open spec fn same_policy(a: ExecutionToolPolicy, b: ExecutionToolPolicy) -> bool {
    &&& a.schema_version@ == b.schema_version@
    &&& a.platform@ == b.platform@
    &&& a.architecture@ == b.architecture@
    &&& a.platform_minimal_path@ == b.platform_minimal_path@
    &&& a.inherit_path == b.inherit_path
    &&& a.use_shell_profile == b.use_shell_profile
    &&& a.commands@.len() == b.commands@.len()
    &&& forall|i: int|
        0 <= i < a.commands@.len() ==> same_command(#[trigger] a.commands@[i], b.commands@[i])
}

fn clone_command(c: &ToolchainCommand) -> (r: ToolchainCommand)
    ensures
        same_command(r, *c),
{
    ToolchainCommand {
        name: c.name.clone(),
        executable_ref: c.executable_ref.clone(),
        executable_sha256: c.executable_sha256.clone(),
        version: c.version.clone(),
    }
}

/// A field-by-field copy of a policy.
pub fn clone_policy(p: &ExecutionToolPolicy) -> (r: ExecutionToolPolicy)
    ensures
        same_policy(r, *p),
{
    let mut commands: Vec<ToolchainCommand> = Vec::new();
    let mut i: usize = 0;
    while i < p.commands.len()
        invariant
            i <= p.commands@.len(),
            commands@.len() == i,
            forall|k: int| 0 <= k < i ==> same_command(#[trigger] commands@[k], p.commands@[k]),
        decreases p.commands@.len() - i,
    {
        commands.push(clone_command(&p.commands[i]));
        i += 1;
    }
    ExecutionToolPolicy {
        schema_version: p.schema_version.clone(),
        platform: p.platform.clone(),
        architecture: p.architecture.clone(),
        platform_minimal_path: p.platform_minimal_path.clone(),
        inherit_path: p.inherit_path,
        use_shell_profile: p.use_shell_profile,
        commands,
    }
}

fn policy_fits(policy: &ExecutionToolPolicy, platform: &str, architecture: &str, minimal: &str) -> (r:
    bool)
    ensures
        r == policy_fits_host(*policy, platform@, architecture@, minimal@),
{
    proof {
        reveal_strlit("win32");
        reveal_strlit(".exe");
        reveal_strlit("");
    }
    let suffix = if text_eq(platform, "win32") {
        ".exe"
    } else {
        ""
    };
    let mut node_ref = String::from_str("node");
    node_ref.append(suffix);
    let mut rg_ref = String::from_str("rg");
    rg_ref.append(suffix);
    text_eq(policy.schema_version.as_str(), EXECUTION_TOOL_POLICY_SCHEMA) && text_eq(
        policy.platform.as_str(),
        platform,
    ) && text_eq(policy.architecture.as_str(), architecture) && text_eq(
        policy.platform_minimal_path.as_str(),
        minimal,
    ) && !policy.inherit_path && !policy.use_shell_profile && policy.commands.len() == 2
        && text_eq(policy.commands[0].name.as_str(), "node") && text_eq(
        policy.commands[1].name.as_str(),
        "rg",
    ) && text_eq(policy.commands[0].executable_ref.as_str(), node_ref.as_str()) && text_eq(
        policy.commands[1].executable_ref.as_str(),
        rg_ref.as_str(),
    )
}

fn check_entry(
    e: &ObservedToolchainEntry,
    c: &ToolchainCommand,
    runtime: &EvaluatorRuntime,
    probe_versions: bool,
) -> (r: Result<(), CorpusCommitmentError>)
    ensures
        r is Ok <==> entry_matches(*e, *c, *runtime, probe_versions),
{
    if e.is_symlink || !e.is_file {
        return Err(CorpusCommitmentError::new("Codex toolchain entries must be regular executable files"));
    }
    match e.mode {
        Some(m) => {
            if m & 0o111u32 == 0 {
                return Err(CorpusCommitmentError::new("Codex toolchain entry is not executable"));
            }
        },
        None => {},
    }
    let digest = digest_bytes(e.bytes.as_slice());
    let version = if probe_versions {
        e.version.as_str()
    } else {
        c.version.as_str()
    };
    if !text_eq(digest.as_str(), c.executable_sha256.as_str()) || !text_eq(
        version,
        c.version.as_str(),
    ) {
        return Err(
            CorpusCommitmentError::new(
                "Codex toolchain executable identity does not match its commitment",
            ),
        );
    }
    if text_eq(c.name.as_str(), "node") && !(text_eq(
        e.canonical_path.as_str(),
        runtime.executable.as_str(),
    ) && text_eq(digest.as_str(), runtime.executable_digest.as_str()) && text_eq(
        version,
        runtime.version.as_str(),
    )) {
        return Err(
            CorpusCommitmentError::new(
                "model and evaluator Node.js runtimes must have one exact identity",
            ),
        );
    }
    Ok(())
}

/// The configured root is an absolute path naming a directory, not a link.
pub open spec fn root_is_directory(root: ObservedToolchainRoot) -> bool {
    &&& is_absolute(root.path@)
    &&& !root.is_symlink
    &&& root.is_dir
}

/// The toolchain is valid for the host, the observed root and the runtime.
pub open spec fn toolchain_valid(
    policy: ExecutionToolPolicy,
    runtime: EvaluatorRuntime,
    os: Seq<char>,
    arch: Seq<char>,
    root: ObservedToolchainRoot,
    probe_versions: bool,
) -> bool {
    &&& root_is_directory(root)
    &&& node_platform(os) is Some
    &&& node_architecture(arch) is Some
    &&& policy_fits_host(
        policy,
        node_platform(os)->0,
        node_architecture(arch)->0,
        minimal_path_label(node_platform(os)->0),
    )
    &&& entries_match(policy, root.entries@, runtime, probe_versions)
}

fn validate_model_toolchain_impl(
    root: &ObservedToolchainRoot,
    policy: &ExecutionToolPolicy,
    evaluator_runtime: &EvaluatorRuntime,
    os: &str,
    arch: &str,
    probe_versions: bool,
) -> (r: Result<ValidatedModelToolchain, CorpusCommitmentError>)
    ensures
        match r {
            Ok(t) => toolchain_valid(*policy, *evaluator_runtime, os@, arch@, *root, probe_versions)
                && t.root_text() == root.canonical_path@ && same_policy(t.policy_value(), *policy)
                && canonical_digest(policy.tree()) == Some(t.digest_text()),
            Err(_) => !toolchain_valid(*policy, *evaluator_runtime, os@, arch@, *root, probe_versions)
                || canonical_digest(policy.tree()) is None,
        },
{
    let path = chars_of(root.path.as_str());
    if path.len() == 0 || path[0] != '/' {
        return Err(CorpusCommitmentError::new("Codex toolchain root must be absolute"));
    }
    if root.is_symlink || !root.is_dir {
        return Err(CorpusCommitmentError::new("Codex toolchain root must be a regular directory"));
    }
    let (platform, architecture, minimal) = host_toolchain_identity(os, arch)?;
    if !policy_fits(policy, platform.as_str(), architecture.as_str(), minimal.as_str()) {
        return Err(CorpusCommitmentError::new("model toolchain policy is incompatible with this host"));
    }
    let entries = &root.entries;
    if entries.len() != 2 {
        return Err(
            CorpusCommitmentError::new(
                "Codex toolchain root must contain exactly the committed executables",
            ),
        );
    }
    let c0 = &policy.commands[0];
    let c1 = &policy.commands[1];
    proof {
        reveal_strlit("node");
        reveal_strlit("rg");
        assert(c0.executable_ref@[0] == 'n');
        assert(c1.executable_ref@[0] == 'r');
    }
    let (node_entry, rg_entry) = if text_eq(entries[0].file_name.as_str(), c0.executable_ref.as_str())
        && text_eq(entries[1].file_name.as_str(), c1.executable_ref.as_str()) {
        (&entries[0], &entries[1])
    } else if text_eq(entries[1].file_name.as_str(), c0.executable_ref.as_str()) && text_eq(
        entries[0].file_name.as_str(),
        c1.executable_ref.as_str(),
    ) {
        (&entries[1], &entries[0])
    } else {
        return Err(
            CorpusCommitmentError::new(
                "Codex toolchain root must contain exactly the committed executables",
            ),
        );
    };
    check_entry(node_entry, c0, evaluator_runtime, probe_versions)?;
    check_entry(rg_entry, c1, evaluator_runtime, probe_versions)?;
    let digest = match canonical_hash(&policy.to_json()) {
        Some(d) => d,
        None => {
            return Err(CorpusCommitmentError::new("model toolchain policy cannot be hashed"));
        },
    };
    Ok(
        ValidatedModelToolchain {
            root: root.canonical_path.clone(),
            policy: clone_policy(policy),
            digest,
        },
    )
}

/// A toolchain that validates with probed versions validates statically too:
/// the static check only puts each committed version in place of the probed
/// one, and a probed version that passed equals the committed one.
pub proof fn law_probed_toolchain_passes_static(
    policy: ExecutionToolPolicy,
    runtime: EvaluatorRuntime,
    os: Seq<char>,
    arch: Seq<char>,
    root: ObservedToolchainRoot,
)
    requires
        toolchain_valid(policy, runtime, os, arch, root, true),
    ensures
        toolchain_valid(policy, runtime, os, arch, root, false),
{
}

/// Validates the exact model-visible Node.js and ripgrep toolchain, comparing
/// the probed `--version` lines.
pub fn validate_model_toolchain(
    root: &ObservedToolchainRoot,
    policy: &ExecutionToolPolicy,
    evaluator_runtime: &EvaluatorRuntime,
    os: &str,
    arch: &str,
) -> (r: Result<ValidatedModelToolchain, CorpusCommitmentError>)
    ensures
        match r {
            Ok(t) => toolchain_valid(*policy, *evaluator_runtime, os@, arch@, *root, true)
                && t.root_text() == root.canonical_path@ && same_policy(t.policy_value(), *policy)
                && canonical_digest(policy.tree()) == Some(t.digest_text()),
            Err(_) => !toolchain_valid(*policy, *evaluator_runtime, os@, arch@, *root, true)
                || canonical_digest(policy.tree()) is None,
        },
{
    validate_model_toolchain_impl(root, policy, evaluator_runtime, os, arch, true)
}

/// Validates committed toolchain files without their version commands: the
/// committed versions stand in for the probed ones.
pub fn validate_model_toolchain_static(
    root: &ObservedToolchainRoot,
    policy: &ExecutionToolPolicy,
    evaluator_runtime: &EvaluatorRuntime,
    os: &str,
    arch: &str,
) -> (r: Result<ValidatedModelToolchain, CorpusCommitmentError>)
    ensures
        match r {
            Ok(t) => toolchain_valid(*policy, *evaluator_runtime, os@, arch@, *root, false)
                && t.root_text() == root.canonical_path@ && same_policy(t.policy_value(), *policy)
                && canonical_digest(policy.tree()) == Some(t.digest_text()),
            Err(_) => !toolchain_valid(*policy, *evaluator_runtime, os@, arch@, *root, false)
                || canonical_digest(policy.tree()) is None,
        },
{
    validate_model_toolchain_impl(root, policy, evaluator_runtime, os, arch, false)
}

/// Host OpenSSL configuration token of a platform: `/dev/null` on darwin and
/// linux, `NUL` on win32.
pub open spec fn expected_openssl_conf(platform: Seq<char>) -> Option<Seq<char>> {
    if platform == "darwin"@ || platform == "linux"@ {
        Some("/dev/null"@)
    } else if platform == "win32"@ {
        Some("NUL"@)
    } else {
        None
    }
}

/// The recorded operating-system platform is the toolchain's, and OpenSSL is
/// configured with the platform's null device.
pub open spec fn openssl_environment_ok(
    operating_system_platform: Option<Seq<char>>,
    openssl_conf: Option<Seq<char>>,
    policy: ExecutionToolPolicy,
) -> bool {
    &&& operating_system_platform == Some(policy.platform@)
    &&& openssl_conf is Some
    &&& expected_openssl_conf(policy.platform@) == openssl_conf
}

/// Checks the recorded platform and OpenSSL configuration against the toolchain.
pub fn validate_controlled_openssl_environment(
    operating_system_platform: &Option<String>,
    openssl_conf: &Option<String>,
    model_toolchain_policy: &ExecutionToolPolicy,
) -> (r: Result<(), CorpusCommitmentError>)
    ensures
        r is Ok <==> openssl_environment_ok(
            match operating_system_platform {
                Some(p) => Some(p@),
                None => None,
            },
            match openssl_conf {
                Some(c) => Some(c@),
                None => None,
            },
            *model_toolchain_policy,
        ),
{
    let platform = match operating_system_platform {
        Some(p) => p,
        None => {
            return Err(CorpusCommitmentError::new("corpus commitment omits operating-system platform"));
        },
    };
    let conf = match openssl_conf {
        Some(c) => c,
        None => {
            return Err(
                CorpusCommitmentError::new("corpus commitment omits controlled OpenSSL configuration"),
            );
        },
    };
    if !text_eq(platform.as_str(), model_toolchain_policy.platform.as_str()) {
        return Err(
            CorpusCommitmentError::new(
                "corpus operating-system platform does not match the model toolchain",
            ),
        );
    }
    proof {
        reveal_strlit("darwin");
        reveal_strlit("linux");
        reveal_strlit("win32");
    }
    let p = model_toolchain_policy.platform.as_str();
    let expected = if text_eq(p, "darwin") || text_eq(p, "linux") {
        "/dev/null"
    } else if text_eq(p, "win32") {
        "NUL"
    } else {
        return Err(CorpusCommitmentError::new("corpus commitment has an unsupported OpenSSL platform"));
    };
    if !text_eq(conf.as_str(), expected) {
        return Err(
            CorpusCommitmentError::new(
                "corpus OpenSSL configuration does not match the model toolchain platform",
            ),
        );
    }
    Ok(())
}

impl ValidatedModelToolchain {
    pub closed spec fn root_text(&self) -> Seq<char> {
        self.root@
    }

    pub closed spec fn policy_value(&self) -> ExecutionToolPolicy {
        self.policy
    }

    pub closed spec fn digest_text(&self) -> Seq<char> {
        self.digest@
    }

    /// Canonical toolchain root.
    pub fn root(&self) -> (r: &str)
        ensures
            r@ == self.root_text(),
    {
        self.root.as_str()
    }

    /// Exact execution policy.
    pub fn policy(&self) -> (r: &ExecutionToolPolicy)
        ensures
            *r == self.policy_value(),
    {
        &self.policy
    }

    /// Canonical policy digest.
    pub fn digest(&self) -> (r: &str)
        ensures
            r@ == self.digest_text(),
    {
        self.digest.as_str()
    }

    /// Exact PATH supplied to Codex and model shells: the root, then the
    /// platform's fixed entries, joined by the platform's separator.
    pub fn path_value(&self) -> (r: String)
        ensures
            r@ == joined_path(
                self.root_text(),
                minimal_path_entries(self.policy_value().platform@),
                path_separator(self.policy_value().platform@),
            ),
    {
        proof {
            reveal_strlit("win32");
            reveal_strlit(";");
            reveal_strlit(":");
        }
        let separator = if text_eq(self.policy.platform.as_str(), "win32") {
            ";"
        } else {
            ":"
        };
        let entries = minimal_path_entry_list(self.policy.platform.as_str());
        let ghost all = minimal_path_entries(self.policy.platform@);
        let mut r = self.root.clone();
        let mut i: usize = 0;
        while i < entries.len()
            invariant
                i <= entries@.len(),
                entries@.len() == all.len(),
                forall|k: int| 0 <= k < entries@.len() ==> #[trigger] entries@[k]@ == all[k],
                r@ == joined_path(self.root@, all.subrange(0, i as int), separator@),
            decreases entries@.len() - i,
        {
            r.append(separator);
            r.append(entries[i]);
            assert(all.subrange(0, i + 1).drop_last() =~= all.subrange(0, i as int));
            i += 1;
        }
        assert(all.subrange(0, all.len() as int) =~= all);
        r
    }
}

} // verus!
