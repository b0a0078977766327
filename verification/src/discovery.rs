//! Finding and trusting a plugin: its binary by naming convention, its
//! pinned checksum, the environment it starts in, the kind it declares.
//!
//! These are mechanisms. Where configuration lives, when a plugin may go
//! unpinned and which variables it deserves is the embedder's policy; that
//! the policy is kept is decided here.

use crate::driver::{invalid_spec, io_failure, Error, ErrorView, IoError, ResourceKind};
use crate::table::Table;
use crate::text::{concat2, concat3, hex, hex_text, opt_text, same_text, texts};
use sha2::{Digest, Sha256};
use vstd::prelude::*;

verus! {

/// How to find, trust and start one plugin binary.
pub struct PluginConfig {
    /// The provider kind that the plugin must serve.
    pub kind: String,
    /// Explicit binary path. Without one the binary `<prefix>-<kind>` is
    /// searched on `PATH`.
    pub path: Option<String>,
    /// Pinned SHA-256 of the binary, in lower- or upper-case hexadecimal.
    pub sha256: Option<String>,
    /// Allows a launch without a checksum.
    pub dev: bool,
    /// Arguments of the binary.
    pub args: Vec<String>,
    /// Variables set for the child: its whole environment apart from those
    /// it inherits.
    pub env: Table<String>,
    /// Variables forwarded from this process when they are set. Everything
    /// else is scrubbed.
    pub inherit_env: Vec<String>,
}

impl PluginConfig {
    /// A plugin of a kind: searched on `PATH`, unpinned, refused unless
    /// something is added.
    pub fn new(kind: String) -> (config: Self)
        ensures
            config.kind == kind,
            config.path is None,
            config.sha256 is None,
            !config.dev,
            config.args@ == Seq::<String>::empty(),
            config.env@ == Map::<Seq<char>, String>::empty(),
            config.inherit_env@ == Seq::<String>::empty(),
    {
        PluginConfig {
            kind,
            path: None,
            sha256: None,
            dev: false,
            args: Vec::new(),
            env: Table::new(),
            inherit_env: Vec::new(),
        }
    }

    /// Sets the binary's path.
    pub fn path(self, path: String) -> (config: Self)
        ensures
            config == (PluginConfig { path: Some(path), ..self }),
    {
        PluginConfig { path: Some(path), ..self }
    }

    /// Pins the binary's checksum.
    pub fn sha256(self, sha256: String) -> (config: Self)
        ensures
            config == (PluginConfig { sha256: Some(sha256), ..self }),
    {
        PluginConfig { sha256: Some(sha256), ..self }
    }

    /// Allows or forbids a launch without a checksum.
    pub fn dev(self, dev: bool) -> (config: Self)
        ensures
            config == (PluginConfig { dev, ..self }),
    {
        PluginConfig { dev, ..self }
    }

    /// Adds an argument.
    pub fn arg(self, arg: String) -> (config: Self)
        ensures
            config.args@ == self.args@.push(arg),
            config == (PluginConfig { args: config.args, ..self }),
    {
        let mut args = self.args;
        args.push(arg);
        PluginConfig { args, ..self }
    }

    /// Sets a variable of the child.
    pub fn env_var(self, key: String, value: String) -> (config: Self)
        ensures
            config.env@ == self.env@.insert(key@, value),
            config == (PluginConfig { env: config.env, ..self }),
    {
        let mut env = self.env;
        env.insert(key, value);
        PluginConfig { env, ..self }
    }

    /// Forwards a variable of this process.
    pub fn inherit_env_var(self, key: String) -> (config: Self)
        ensures
            config.inherit_env@ == self.inherit_env@.push(key),
            config == (PluginConfig { inherit_env: config.inherit_env, ..self }),
    {
        let mut inherit_env = self.inherit_env;
        inherit_env.push(key);
        PluginConfig { inherit_env, ..self }
    }
}

/// What is known of a file that is there.
#[derive(Clone, Copy, Debug, PartialEq, Eq, Structural)]
pub struct FileFacts {
    /// Whether it is a regular file, links followed.
    pub is_file: bool,
    /// Its permission bits.
    pub mode: u32,
}

/// Whether a file is there, regular, and may be executed by anyone.
pub open spec fn executable(file: Option<FileFacts>) -> bool {
    file matches Some(facts) && facts.is_file && facts.mode & 0o111 != 0
}

/// Whether a file is there, regular, and may be executed by anyone.
pub fn is_executable_file(file: Option<FileFacts>) -> (yes: bool)
    ensures
        yes == executable(file),
{
    match file {
        Some(facts) => facts.is_file && facts.mode & 0o111 != 0,
        None => false,
    }
}

/// The first of the candidates that can be executed, in the order of the
/// search path.
pub fn resolve_on_search_path(candidates: &Vec<Option<FileFacts>>) -> (found: Option<usize>)
    ensures
        match found {
            Some(found) => {
                &&& found < candidates@.len()
                &&& executable(candidates@[found as int])
                &&& forall|i: int| 0 <= i < found ==> !executable(#[trigger] candidates@[i])
            },
            None => forall|i: int|
                0 <= i < candidates@.len() ==> !executable(#[trigger] candidates@[i]),
        },
{
    let mut i: usize = 0;
    while i < candidates.len()
        invariant
            i <= candidates@.len(),
            forall|j: int| 0 <= j < i ==> !executable(#[trigger] candidates@[j]),
        decreases candidates@.len() - i,
    {
        if is_executable_file(candidates[i]) {
            return Some(i);
        }
        i = i + 1;
    }
    None
}

/// The binary of a plugin by convention.
pub open spec fn binary_name(prefix: Seq<char>, kind: Seq<char>) -> Seq<char> {
    prefix + "-"@ + kind
}

/// The binary of a plugin by convention: the embedder's prefix, a hyphen and
/// the kind.
pub fn plugin_name(prefix: &str, kind: &str) -> (name: String)
    ensures
        name@ == binary_name(prefix@, kind@),
{
    concat3(prefix, "-", kind)
}

/// Where a plugin's binary is.
#[derive(Clone, Copy, Debug, PartialEq, Eq, Structural)]
pub enum Resolved {
    /// At the configured path.
    Explicit,
    /// At the candidate with this position on the search path.
    OnPath(usize),
}

/// The failure to find a plugin's binary.
pub open spec fn plugin_not_found(id: Seq<char>) -> ErrorView {
    ErrorView::NotFound { resource: ResourceKind::Plugin, id }
}

/// Resolves a plugin's binary: the explicit path when one is configured,
/// given what is there; else the first candidate on the search path. There
/// is no other fallback.
pub fn resolve_plugin_binary(
    prefix: &str,
    config: &PluginConfig,
    explicit: Option<FileFacts>,
    candidates: &Vec<Option<FileFacts>>,
) -> (resolved: Result<Resolved, Error>)
    ensures
        resolves(config.path is Some, explicit, candidates@, resolved),
        match config.path {
            Some(path) => if executable(explicit) {
                resolved == Ok::<Resolved, Error>(Resolved::Explicit)
            } else {
                resolved matches Err(error) && error@ == plugin_not_found(path@)
            },
            None => match resolved {
                Ok(Resolved::Explicit) => false,
                Ok(Resolved::OnPath(found)) => {
                    &&& found < candidates@.len()
                    &&& executable(candidates@[found as int])
                    &&& forall|i: int| 0 <= i < found ==> !executable(#[trigger] candidates@[i])
                },
                Err(error) => {
                    &&& forall|i: int|
                        0 <= i < candidates@.len() ==> !executable(#[trigger] candidates@[i])
                    &&& error@ == plugin_not_found(
                        binary_name(prefix@, config.kind@) + " (searched PATH)"@,
                    )
                },
            },
        },
{
    match &config.path {
        Some(path) => {
            if is_executable_file(explicit) {
                return Ok(Resolved::Explicit);
            }
            Err(Error::NotFound { resource: ResourceKind::Plugin, id: path.clone() })
        },
        None => match resolve_on_search_path(candidates) {
            Some(found) => Ok(Resolved::OnPath(found)),
            None => {
                let name = plugin_name(prefix, config.kind.as_str());
                let id = concat2(name.as_str(), " (searched PATH)");
                Err(Error::NotFound { resource: ResourceKind::Plugin, id })
            },
        },
    }
}

/// The SHA-256 digest of bytes, as `sha2::Sha256` computes it.
pub uninterp spec fn sha256_of(bytes: Seq<u8>) -> Seq<u8>;

/// The least number of bytes whose length in bits 64 bits do not hold.
pub const HASH_LIMIT: u64 = 0x2000_0000_0000_0000;

/// `Digest::new`, `update` and `finalize` of `sha2::Sha256`: the digest of
/// the bytes, which is 32 bytes long. The hasher counts bits in 64 bits, so
/// what is longer is left out.
#[verifier::external_body]
fn sha256_digest(bytes: &[u8]) -> (digest: Vec<u8>)
    requires
        bytes@.len() < HASH_LIMIT,
    ensures
        digest@ == sha256_of(bytes@),
        digest@.len() == 32,
{
    let mut hasher = Sha256::new();
    hasher.update(bytes);
    hasher.finalize().to_vec()
}

/// The SHA-256 of a file's content in lower-case hexadecimal.
pub fn file_sha256(content: &[u8]) -> (sha256: String)
    requires
        content@.len() < HASH_LIMIT,
    ensures
        sha256@ == hex_text(sha256_of(content@)),
        sha256@.len() == 64,
{
    let digest = sha256_digest(content);
    hex(digest.as_slice())
}

/// The failure to read a binary whose checksum is wanted.
pub fn unreadable_binary(path: &str, source: IoError) -> (error: Error)
    ensures
        error@ == io_failure("reading "@ + path@, source.kind, source.rendered@),
{
    let context = concat2("reading ", path);
    Error::io(context.as_str(), source)
}

/// Whether a character is Unicode white space.
pub open spec fn is_white(c: char) -> bool {
    let code = c as u32;
    ||| 0x9 <= code <= 0xd
    ||| code == 0x20
    ||| code == 0x85
    ||| code == 0xa0
    ||| code == 0x1680
    ||| 0x2000 <= code <= 0x200a
    ||| code == 0x2028
    ||| code == 0x2029
    ||| code == 0x202f
    ||| code == 0x205f
    ||| code == 0x3000
}

fn white(c: char) -> (yes: bool)
    ensures
        yes == is_white(c),
{
    let code: u32 = c as u32;
    (0x9 <= code && code <= 0xd) || code == 0x20 || code == 0x85 || code == 0xa0 || code == 0x1680
        || (0x2000 <= code && code <= 0x200a) || code == 0x2028 || code == 0x2029 || code == 0x202f
        || code == 0x205f || code == 0x3000
}

/// A text without the white space that it ends with.
pub open spec fn trimmed_end(text: Seq<char>) -> Seq<char>
    decreases text.len(),
{
    if text.len() > 0 && is_white(text.last()) {
        trimmed_end(text.drop_last())
    } else {
        text
    }
}

/// A text without the white space that it starts with.
pub open spec fn trimmed_start(text: Seq<char>) -> Seq<char>
    decreases text.len(),
{
    if text.len() > 0 && is_white(text[0]) {
        trimmed_start(text.skip(1))
    } else {
        text
    }
}

/// A text without white space at its ends.
pub open spec fn trimmed(text: Seq<char>) -> Seq<char> {
    trimmed_end(trimmed_start(text))
}

/// A text without white space at its ends.
pub fn trim(text: &str) -> (kept: Vec<char>)
    ensures
        kept@ == trimmed(text@),
{
    let len: usize = text.unicode_len();
    let ghost all = text@;
    assert(all.skip(0) =~= all);
    let mut start: usize = 0;
    while start < len && white(text.get_char(start))
        invariant
            start <= len,
            len == text@.len(),
            text@ == all,
            trimmed_start(all) == trimmed_start(all.skip(start as int)),
        decreases len - start,
    {
        assert(all.skip(start as int)[0] == all[start as int]);
        assert(all.skip(start as int).skip(1) =~= all.skip(start + 1));
        start = start + 1;
    }
    assert(trimmed_start(all) == all.skip(start as int)) by {
        if start < len {
            assert(all.skip(start as int)[0] == all[start as int]);
        }
    }
    assert(all.skip(start as int) =~= all.subrange(start as int, len as int));
    let mut end: usize = len;
    while end > start && white(text.get_char(end - 1))
        invariant
            start <= end <= len,
            len == text@.len(),
            text@ == all,
            trimmed(all) == trimmed_end(all.subrange(start as int, end as int)),
        decreases end,
    {
        let ghost part = all.subrange(start as int, end as int);
        assert(part.last() == all[end - 1]);
        assert(part.drop_last() =~= all.subrange(start as int, end - 1));
        end = end - 1;
    }
    assert(trimmed(all) == all.subrange(start as int, end as int)) by {
        if end > start {
            assert(all.subrange(start as int, end as int).last() == all[end - 1]);
        }
    }
    let mut kept: Vec<char> = Vec::new();
    let mut i: usize = start;
    while i < end
        invariant
            start <= i <= end <= len,
            len == text@.len(),
            text@ == all,
            kept@ == all.subrange(start as int, i as int),
        decreases end - i,
    {
        kept.push(text.get_char(i));
        assert(kept@ =~= all.subrange(start as int, i + 1));
        i = i + 1;
    }
    kept
}

/// The code of a character, that of an upper-case ASCII letter replaced by
/// that of the lower-case one.
pub open spec fn lower_code(c: char) -> int {
    let code = c as u32;
    if 65 <= code <= 90 {
        code + 32
    } else {
        code as int
    }
}

/// Whether texts are the same but for the case of ASCII letters.
pub open spec fn same_ignoring_case(a: Seq<char>, b: Seq<char>) -> bool {
    &&& a.len() == b.len()
    &&& forall|i: int| 0 <= i < a.len() ==> lower_code(#[trigger] a[i]) == lower_code(b[i])
}

fn lower(c: char) -> (code: u32)
    ensures
        code == lower_code(c),
{
    let code: u32 = c as u32;
    if 65 <= code && code <= 90 {
        code + 32
    } else {
        code
    }
}

fn equal_ignoring_case(a: &str, b: &Vec<char>) -> (same: bool)
    ensures
        same == same_ignoring_case(a@, b@),
{
    let len: usize = a.unicode_len();
    if len != b.len() {
        return false;
    }
    let mut i: usize = 0;
    while i < len
        invariant
            i <= len,
            len == a@.len(),
            len == b@.len(),
            forall|j: int| 0 <= j < i ==> lower_code(#[trigger] a@[j]) == lower_code(b@[j]),
        decreases len - i,
    {
        if lower(a.get_char(i)) != lower(b[i]) {
            assert(lower_code(a@[i as int]) != lower_code(b@[i as int]));
            return false;
        }
        i = i + 1;
    }
    true
}

/// What a checksum and its pin come to: whether the binary was verified, or
/// why it must not run. `actual` is the checksum of the binary.
pub open spec fn pin_verdict(
    path: Seq<char>,
    kind: Seq<char>,
    pin: Option<Seq<char>>,
    dev: bool,
    actual: Seq<char>,
) -> Result<bool, ErrorView> {
    match pin {
        Some(expected) => if same_ignoring_case(actual, trimmed(expected)) {
            Ok(true)
        } else {
            Err(
                invalid_spec(
                    "sha256"@,
                    "checksum mismatch for "@ + path + ": pinned "@ + expected + ", found "@
                        + actual,
                ),
            )
        },
        None => if dev {
            Ok(false)
        } else {
            Err(
                invalid_spec(
                    "sha256"@,
                    "plugin "@ + kind
                        + " has no pinned sha256; pin one or explicitly mark the plugin dev"@,
                ),
            )
        },
    }
}

/// Whether an outcome says what a verdict says.
pub open spec fn says<T>(outcome: Result<T, Error>, verdict: Result<T, ErrorView>) -> bool {
    match (outcome, verdict) {
        (Ok(value), Ok(expected)) => value == expected,
        (Err(error), Err(expected)) => error@ == expected,
        _ => false,
    }
}

/// Holds a binary's checksum against its pin.
pub fn check_pin(path: &str, config: &PluginConfig, actual: &str) -> (verified: Result<bool, Error>)
    ensures
        says(
            verified,
            pin_verdict(
                path@,
                config.kind@,
                opt_text(config.sha256),
                config.dev,
                actual@,
            ),
        ),
{
    match &config.sha256 {
        Some(expected) => {
            let pinned = trim(expected.as_str());
            if equal_ignoring_case(actual, &pinned) {
                return Ok(true);
            }
            let mut reason = concat3("checksum mismatch for ", path, ": pinned ");
            reason.append(expected.as_str());
            reason.append(", found ");
            reason.append(actual);
            Err(Error::invalid_spec("sha256", reason.as_str()))
        },
        None => {
            if config.dev {
                return Ok(false);
            }
            let reason = concat3(
                "plugin ",
                config.kind.as_str(),
                " has no pinned sha256; pin one or explicitly mark the plugin dev",
            );
            Err(Error::invalid_spec("sha256", reason.as_str()))
        },
    }
}

/// Enforces the checksum policy on the content of a binary: a pin that
/// matches, or an explicit allowance to go without. Says whether the binary
/// was verified. The content is looked at only where there is a pin.
pub fn enforce_checksum(path: &str, config: &PluginConfig, content: &[u8]) -> (verified: Result<
    bool,
    Error,
>)
    requires
        content@.len() < HASH_LIMIT,
    ensures
        says(
            verified,
            pin_verdict(
                path@,
                config.kind@,
                opt_text(config.sha256),
                config.dev,
                hex_text(sha256_of(content@)),
            ),
        ),
{
    if config.sha256.is_none() {
        return check_pin(path, config, "");
    }
    let actual = file_sha256(content);
    check_pin(path, config, actual.as_str())
}

/// Checksum or explicit allowance, never neither: what runs was verified
/// against a pin, or has none and was allowed to go without.
pub proof fn nothing_runs_unpinned_by_accident(
    path: Seq<char>,
    kind: Seq<char>,
    pin: Option<Seq<char>>,
    dev: bool,
    actual: Seq<char>,
)
    ensures
        pin_verdict(path, kind, pin, dev, actual) matches Ok(verified) ==> if verified {
            pin matches Some(expected) && same_ignoring_case(actual, trimmed(expected))
        } else {
            pin is None && dev
        },
        pin is None && !dev ==> pin_verdict(path, kind, pin, dev, actual) is Err,
        pin matches Some(expected) && !same_ignoring_case(actual, trimmed(expected))
            ==> pin_verdict(path, kind, pin, dev, actual) is Err,
{
}

/// The environment that a plugin starts in: nothing but the variables set
/// for it, and those of this process that are forwarded where they are set.
pub struct LaunchEnvironment {
    pub declared: Table<String>,
    pub forwarded: Vec<String>,
}

/// Whether a variable is forwarded: it is inherited, and no value is set for
/// it.
pub open spec fn is_forwarded(config: PluginConfig, key: Seq<char>) -> bool {
    texts(config.inherit_env@).contains(key) && !config.env@.contains_key(key)
}

/// The variables of the child, for any environment of this process.
pub open spec fn child_environment(
    config: PluginConfig,
    ambient: Map<Seq<char>, Seq<char>>,
) -> Map<Seq<char>, Seq<char>> {
    Map::new(
        |key: Seq<char>|
            config.env@.contains_key(key) || (is_forwarded(config, key) && ambient.contains_key(
                key,
            )),
        |key: Seq<char>|
            if config.env@.contains_key(key) {
                config.env@[key]@
            } else {
                ambient[key]
            },
    )
}

/// The environment that a plugin starts in. A value that is set for the
/// plugin stands before a forwarded one.
pub fn launch_environment(config: &PluginConfig) -> (environment: LaunchEnvironment)
    ensures
        environment.declared@ == config.env@,
        forall|key: Seq<char>| #[trigger]
            texts(environment.forwarded@).contains(key) <==> is_forwarded(*config, key),
{
    let mut forwarded: Vec<String> = Vec::new();
    let mut i: usize = 0;
    while i < config.inherit_env.len()
        invariant
            i <= config.inherit_env@.len(),
            forall|key: Seq<char>| #[trigger]
                texts(forwarded@).contains(key) <==> texts(config.inherit_env@.take(i as int)).contains(
                    key,
                ) && !config.env@.contains_key(key),
        decreases config.inherit_env@.len() - i,
    {
        let ghost before = forwarded@;
        let key = config.inherit_env[i].clone();
        let ghost name = key@;
        proof {
            assert(texts(config.inherit_env@.take(i + 1)) =~= texts(
                config.inherit_env@.take(i as int),
            ).push(name));
        }
        if !config.env.contains(key.as_str()) {
            forwarded.push(key);
            assert(texts(forwarded@) =~= texts(before).push(name));
        }
        proof {
            lemma_push_contains(texts(config.inherit_env@.take(i as int)), name);
            lemma_push_contains(texts(before), name);
        }
        i = i + 1;
    }
    assert(config.inherit_env@.take(i as int) =~= config.inherit_env@);
    LaunchEnvironment { declared: config.env.copy(), forwarded }
}

proof fn lemma_push_contains(keys: Seq<Seq<char>>, name: Seq<char>)
    ensures
        forall|key: Seq<char>| #[trigger]
            keys.push(name).contains(key) <==> keys.contains(key) || key == name,
{
    assert forall|key: Seq<char>| #[trigger] keys.push(name).contains(key) <==> keys.contains(key)
        || key == name by {
        if keys.contains(key) {
            let i = keys.index_of(key);
            assert(keys.push(name)[i] == key);
        }
        if key == name {
            assert(keys.push(name)[keys.len() as int] == key);
        }
        if keys.push(name).contains(key) && key != name {
            let i = keys.push(name).index_of(key);
            assert(keys[i] == key);
        }
    }
}

/// No ambient environment: whatever this process has set, the child has a
/// variable only if it is set or forwarded for it, and a variable that is
/// set for it has that value.
pub proof fn no_ambient_environment(
    config: PluginConfig,
    ambient: Map<Seq<char>, Seq<char>>,
    key: Seq<char>,
)
    ensures
        child_environment(config, ambient).contains_key(key) ==> config.env@.contains_key(key)
            || texts(config.inherit_env@).contains(key),
        config.env@.contains_key(key) ==> child_environment(config, ambient).contains_key(key)
            && child_environment(config, ambient)[key] == config.env@[key]@,
{
}

/// Whether a configuration is another one with the values that its
/// forwarded variables have in an environment.
pub open spec fn is_frozen(
    before: PluginConfig,
    ambient: Map<Seq<char>, String>,
    after: PluginConfig,
) -> bool {
    &&& after.inherit_env@ == Seq::<String>::empty()
    &&& after.env@.dom() == before.env@.dom().union(
        Set::new(
            |key: Seq<char>|
                texts(before.inherit_env@).contains(key) && ambient.contains_key(key),
        ),
    )
    &&& forall|key: Seq<char>| #[trigger]
        after.env@.contains_key(key) ==> after.env@[key]@ == if before.env@.contains_key(key) {
            before.env@[key]@
        } else {
            ambient[key]@
        }
    &&& after == (PluginConfig { env: after.env, inherit_env: after.inherit_env, ..before })
}

impl PluginConfig {
    /// The configuration with the values that its forwarded variables have
    /// now, so that a later launch cannot inherit others. A value that is
    /// set stands before an inherited one.
    pub fn frozen(self, ambient: &Table<String>) -> (config: Self)
        ensures
            is_frozen(self, ambient@, config),
    {
        let mut env = self.env;
        let ghost declared = env@;
        let inherit_env = self.inherit_env;
        let mut i: usize = 0;
        while i < inherit_env.len()
            invariant
                i <= inherit_env@.len(),
                env@.dom() == declared.dom().union(
                    Set::new(
                        |key: Seq<char>|
                            texts(inherit_env@.take(i as int)).contains(key)
                                && ambient@.contains_key(key),
                    ),
                ),
                forall|key: Seq<char>| #[trigger]
                    env@.contains_key(key) ==> env@[key]@ == if declared.contains_key(key) {
                        declared[key]@
                    } else {
                        ambient@[key]@
                    },
            decreases inherit_env@.len() - i,
        {
            let ghost before = env@;
            let ghost name = inherit_env@[i as int]@;
            proof {
                assert(texts(inherit_env@.take(i + 1)) =~= texts(
                    inherit_env@.take(i as int),
                ).push(name));
                lemma_push_contains(texts(inherit_env@.take(i as int)), name);
            }
            if !env.contains(inherit_env[i].as_str()) {
                if let Some(value) = ambient.get(inherit_env[i].as_str()) {
                    env.insert(inherit_env[i].clone(), value.clone());
                }
            }
            proof {
                assert(env@.dom() =~= declared.dom().union(
                    Set::new(
                        |key: Seq<char>|
                            texts(inherit_env@.take(i + 1)).contains(key)
                                && ambient@.contains_key(key),
                    ),
                )) by {
                    assert forall|key: Seq<char>| env@.dom().contains(key) <==> (
                    declared.dom().contains(key) || (texts(inherit_env@.take(i + 1)).contains(key)
                        && ambient@.contains_key(key))) by {
                        assert(before.dom().contains(key) <==> (declared.dom().contains(key) || (
                        texts(inherit_env@.take(i as int)).contains(key)
                            && ambient@.contains_key(key))));
                    }
                }
            }
            i = i + 1;
        }
        assert(inherit_env@.take(i as int) =~= inherit_env@);
        PluginConfig {
            kind: self.kind,
            path: self.path,
            sha256: self.sha256,
            dev: self.dev,
            args: self.args,
            env,
            inherit_env: Vec::new(),
        }
    }
}

/// A frozen configuration starts every plugin in the environment that the
/// first one would have started in, whatever this process sets later.
pub proof fn freezing_fixes_the_environment(
    before: PluginConfig,
    ambient: Map<Seq<char>, String>,
    after: PluginConfig,
    later: Map<Seq<char>, Seq<char>>,
)
    requires
        is_frozen(before, ambient, after),
    ensures
        child_environment(after, later) == child_environment(
            before,
            Map::new(|key: Seq<char>| ambient.contains_key(key), |key: Seq<char>| ambient[key]@),
        ),
{
    let now = Map::new(
        |key: Seq<char>| ambient.contains_key(key),
        |key: Seq<char>| ambient[key]@,
    );
    assert forall|key: Seq<char>| child_environment(after, later).contains_key(key)
        <==> child_environment(before, now).contains_key(key) by {
        assert(after.env@.dom().contains(key) <==> before.env@.dom().contains(key) || (texts(
            before.inherit_env@,
        ).contains(key) && ambient.contains_key(key)));
    }
    assert(child_environment(after, later) =~= child_environment(before, now));
}

/// A launched plugin. The application keeps the connection to it.
pub struct PluginLaunch<P> {
    pub provider: P,
    /// The binary that was executed.
    pub path: String,
    /// Whether the binary's checksum was verified. Embedders should tell
    /// operators of plugins that were not.
    pub verified: bool,
}

/// A plugin that must be shut down, and why.
pub struct Refused<P> {
    pub provider: P,
    pub error: Error,
}

/// The refusal of a plugin that declares another kind than the configured
/// one.
pub open spec fn kind_refusal(
    path: Seq<char>,
    declared: Seq<char>,
    configured: Seq<char>,
) -> ErrorView {
    invalid_spec(
        "kind"@,
        "plugin at "@ + path + " declares kind "@ + declared + " but was configured as "@
            + configured,
    )
}

/// The end of a launch: a plugin that declares another kind than the
/// configured one is to be shut down.
pub fn launch_plugin<P>(
    provider: P,
    declared: &str,
    path: String,
    verified: bool,
    config: &PluginConfig,
) -> (launch: Result<PluginLaunch<P>, Refused<P>>)
    ensures
        match launch {
            Ok(launch) => {
                &&& declared@ == config.kind@
                &&& launch == (PluginLaunch { provider, path, verified })
            },
            Err(refused) => {
                &&& declared@ != config.kind@
                &&& refused.provider == provider
                &&& refused.error@ == kind_refusal(path@, declared@, config.kind@)
            },
        },
{
    if !same_text(declared, config.kind.as_str()) {
        let mut reason = concat3("plugin at ", path.as_str(), " declares kind ");
        reason.append(declared);
        reason.append(" but was configured as ");
        reason.append(config.kind.as_str());
        let error = Error::invalid_spec("kind", reason.as_str());
        return Err(Refused { provider, error });
    }
    Ok(PluginLaunch { provider, path, verified })
}

/// A file can be executed exactly when it is regular and one of its three
/// permissions to execute is set.
pub proof fn an_executable_may_be_executed_by_someone(is_file: bool, mode: u32)
    ensures
        executable(Some(FileFacts { is_file, mode })) <==> is_file && (mode & 0o100 != 0 || mode
            & 0o010 != 0 || mode & 0o001 != 0),
        !executable(None),
{
    assert(mode & 0o111 != 0 <==> (mode & 0o100 != 0 || mode & 0o010 != 0 || mode & 0o001 != 0))
        by (bit_vector);
}

/// Two kinds never share a binary under one prefix.
pub proof fn kinds_have_their_own_binary(prefix: Seq<char>, one: Seq<char>, other: Seq<char>)
    ensures
        binary_name(prefix, one) == binary_name(prefix, other) ==> one == other,
        binary_name(prefix, one).take(prefix.len() as int) == prefix,
        binary_name(prefix, one).len() == prefix.len() + 1 + one.len(),
{
    reveal_strlit("-");
    let start = prefix + "-"@;
    assert((start + one).skip(start.len() as int) =~= one);
    assert((start + other).skip(start.len() as int) =~= other);
    assert(binary_name(prefix, one).take(prefix.len() as int) =~= prefix);
}

proof fn lemma_white_start_is_trimmed(white: Seq<char>, text: Seq<char>)
    requires
        forall|i: int| 0 <= i < white.len() ==> is_white(#[trigger] white[i]),
        text.len() > 0 ==> !is_white(text[0]),
    ensures
        trimmed_start(white + text) == text,
    decreases white.len(),
{
    let whole = white + text;
    if white.len() > 0 {
        assert(whole[0] == white[0]);
        assert(whole.skip(1) =~= white.skip(1) + text);
        lemma_white_start_is_trimmed(white.skip(1), text);
    } else {
        assert(whole =~= text);
    }
}

proof fn lemma_white_end_is_trimmed(text: Seq<char>, white: Seq<char>)
    requires
        forall|i: int| 0 <= i < white.len() ==> is_white(#[trigger] white[i]),
        text.len() > 0 ==> !is_white(text.last()),
    ensures
        trimmed_end(text + white) == text,
    decreases white.len(),
{
    let whole = text + white;
    if white.len() > 0 {
        assert(whole.last() == white.last());
        assert(whole.drop_last() =~= text + white.drop_last());
        lemma_white_end_is_trimmed(text, white.drop_last());
    } else {
        assert(whole =~= text);
    }
}

/// White space around a text is taken off and nothing else is.
pub proof fn only_white_space_around_is_taken_off(
    before: Seq<char>,
    text: Seq<char>,
    after: Seq<char>,
)
    requires
        forall|i: int| 0 <= i < before.len() ==> is_white(#[trigger] before[i]),
        forall|i: int| 0 <= i < after.len() ==> is_white(#[trigger] after[i]),
        text.len() > 0,
        !is_white(text[0]),
        !is_white(text.last()),
    ensures
        trimmed(before + text + after) == text,
{
    let rest = text + after;
    assert(before + text + after =~= before + rest);
    assert(rest[0] == text[0]);
    lemma_white_start_is_trimmed(before, rest);
    lemma_white_end_is_trimmed(text, after);
}

/// The white space of a text is that of Unicode; no hexadecimal digit is.
pub proof fn digits_are_no_white_space(c: char)
    ensures
        is_white(' '),
        (c as u32) < 0x80 ==> (is_white(c) <==> c as u32 == 0x20 || 0x9 <= c as u32 <= 0xd),
        (c as u32) >= 0x80 ==> (is_white(c) <==> set![
            0x85int,
            0xa0,
            0x1680,
            0x2028,
            0x2029,
            0x202f,
            0x205f,
            0x3000,
        ].contains(c as int) || 0x2000 <= c as int <= 0x200a),
        0x30 <= c as u32 <= 0x39 || 0x61 <= c as u32 <= 0x66 || 0x41 <= c as u32 <= 0x46
            ==> !is_white(c),
{
}

/// Two texts count as the same exactly when they are as long and differ in
/// nothing but the case of ASCII letters; texts without upper-case letters
/// only when they are the same.
pub proof fn only_the_case_is_ignored(a: Seq<char>, b: Seq<char>)
    ensures
        same_ignoring_case(a, a),
        same_ignoring_case(a, b) <==> same_ignoring_case(b, a),
        same_ignoring_case(a, b) <==> {
            &&& a.len() == b.len()
            &&& forall|i: int|
                0 <= i < a.len() ==> {
                    ||| #[trigger] a[i] == b[i]
                    ||| 65 <= a[i] as u32 <= 90 && b[i] as u32 == a[i] as u32 + 32
                    ||| 65 <= b[i] as u32 <= 90 && a[i] as u32 == b[i] as u32 + 32
                }
        },
{
    assert forall|i: int|
        0 <= i < a.len() && a.len() == b.len() && lower_code(#[trigger] a[i]) == lower_code(
            b[i],
        ) implies (a[i] == b[i] || (65 <= a[i] as u32 <= 90 && b[i] as u32 == a[i] as u32 + 32) || (
    65 <= b[i] as u32 <= 90 && a[i] as u32 == b[i] as u32 + 32)) by {
        if a[i] as u32 == b[i] as u32 {
            lemma_same_code_same_char(a[i], b[i]);
        }
    }
    if same_ignoring_case(a, b) {
        assert forall|i: int| 0 <= i < b.len() implies lower_code(#[trigger] b[i]) == lower_code(
            a[i],
        ) by {
            assert(lower_code(a[i]) == lower_code(b[i]));
        }
    }
    if same_ignoring_case(b, a) {
        assert forall|i: int| 0 <= i < a.len() implies lower_code(#[trigger] a[i]) == lower_code(
            b[i],
        ) by {
            assert(lower_code(b[i]) == lower_code(a[i]));
        }
    }
}

proof fn lemma_same_code_same_char(a: char, b: char)
    requires
        a as u32 == b as u32,
    ensures
        a == b,
{
}

/// The checksum policy in full: a pinned binary runs exactly when its
/// checksum is the pin but for case and the white space around it, and is
/// then verified; one without a pin runs exactly when it was allowed to, and
/// is then not verified.
pub proof fn a_binary_runs_by_its_pin_or_its_allowance(
    path: Seq<char>,
    kind: Seq<char>,
    pin: Option<Seq<char>>,
    dev: bool,
    actual: Seq<char>,
)
    ensures
        pin_verdict(path, kind, pin, dev, actual) == Ok::<bool, ErrorView>(true) <==> pin is Some
            && same_ignoring_case(actual, trimmed(pin->Some_0)),
        pin_verdict(path, kind, pin, dev, actual) == Ok::<bool, ErrorView>(false) <==> pin is None
            && dev,
        pin_verdict(path, kind, pin, dev, actual) matches Err(error) ==> error is InvalidSpec,
{
}

/// The right pin is accepted however it is written: with white space around
/// it and in either case.
pub proof fn the_right_pin_is_accepted(
    path: Seq<char>,
    kind: Seq<char>,
    dev: bool,
    before: Seq<char>,
    pin: Seq<char>,
    after: Seq<char>,
    actual: Seq<char>,
)
    requires
        forall|i: int| 0 <= i < before.len() ==> is_white(#[trigger] before[i]),
        forall|i: int| 0 <= i < after.len() ==> is_white(#[trigger] after[i]),
        pin.len() > 0,
        !is_white(pin[0]),
        !is_white(pin.last()),
        same_ignoring_case(actual, pin),
    ensures
        pin_verdict(path, kind, Some(before + pin + after), dev, actual) == Ok::<bool, ErrorView>(
            true,
        ),
{
    only_white_space_around_is_taken_off(before, pin, after);
}

/// A variable that is to be inherited is there for the child with the value
/// that it has here, unless the child has a value of its own for it; the child
/// has no variable that is neither.
pub proof fn inherited_variables_arrive(
    config: PluginConfig,
    ambient: Map<Seq<char>, Seq<char>>,
    key: Seq<char>,
)
    ensures
        child_environment(config, ambient).contains_key(key) <==> config.env@.contains_key(key) || (
        texts(config.inherit_env@).contains(key) && ambient.contains_key(key)),
        texts(config.inherit_env@).contains(key) && ambient.contains_key(key)
            && !config.env@.contains_key(key) ==> child_environment(config, ambient)[key]
            == ambient[key],
        config.env@.contains_key(key) ==> child_environment(config, ambient)[key]
            == config.env@[key]@,
        is_forwarded(config, key) <==> texts(config.inherit_env@).contains(key)
            && !config.env@.contains_key(key),
{
}

/// Freezing changes the environment of a configuration and nothing else of
/// it, and a frozen configuration inherits nothing any more.
pub proof fn freezing_changes_nothing_else(
    before: PluginConfig,
    ambient: Map<Seq<char>, String>,
    after: PluginConfig,
)
    requires
        is_frozen(before, ambient, after),
    ensures
        after.kind == before.kind,
        after.path == before.path,
        after.sha256 == before.sha256,
        after.dev == before.dev,
        after.args == before.args,
        after.inherit_env@.len() == 0,
{
}

/// A plugin that declares another kind is refused by its kind, and one that
/// is not found by what was looked for.
pub proof fn refused_launches_say_why(path: Seq<char>, declared: Seq<char>, configured: Seq<char>)
    ensures
        kind_refusal(path, declared, configured) matches ErrorView::InvalidSpec { field, .. }
            && field == "kind"@,
        plugin_not_found(path) == (ErrorView::NotFound {
            resource: ResourceKind::Plugin,
            id: path,
        }),
{
}

/// An outcome that says what a verdict says succeeds or fails with it, with
/// the same value or the same words.
pub proof fn an_outcome_says_its_verdict<T>(
    outcome: Result<T, Error>,
    verdict: Result<T, ErrorView>,
)
    requires
        says(outcome, verdict),
    ensures
        outcome is Ok <==> verdict is Ok,
        outcome matches Ok(value) ==> value == verdict->Ok_0,
        outcome matches Err(error) ==> error@ == verdict->Err_0,
{
}

/// Whether this is where a plugin's binary is found, with or without a path
/// that was configured for it.
pub open spec fn resolves(
    configured: bool,
    explicit: Option<FileFacts>,
    candidates: Seq<Option<FileFacts>>,
    resolved: Result<Resolved, Error>,
) -> bool {
    match resolved {
        Ok(Resolved::Explicit) => configured && executable(explicit),
        Ok(Resolved::OnPath(found)) => {
            &&& !configured
            &&& found < candidates.len()
            &&& executable(candidates[found as int])
            &&& forall|i: int| 0 <= i < found ==> !executable(#[trigger] candidates[i])
        },
        Err(error) => {
            &&& error@ is NotFound
            &&& configured ==> !executable(explicit)
            &&& !configured ==> forall|i: int|
                0 <= i < candidates.len() ==> !executable(#[trigger] candidates[i])
        },
    }
}

/// A configured path is the only place that is looked at, and without one the
/// first executable candidate is taken: whatever is found can be executed,
/// and nothing is missed.
pub proof fn a_binary_is_found_where_it_should_be(
    configured: bool,
    explicit: Option<FileFacts>,
    candidates: Seq<Option<FileFacts>>,
    resolved: Result<Resolved, Error>,
    at: int,
)
    requires
        resolves(configured, explicit, candidates, resolved),
    ensures
        configured ==> (resolved matches Ok(_) <==> executable(explicit)),
        configured && resolved is Ok ==> resolved->Ok_0 is Explicit,
        !configured && 0 <= at < candidates.len() && executable(candidates[at]) ==> resolved is Ok
            && resolved->Ok_0 is OnPath && resolved->Ok_0->OnPath_0 <= at && executable(
            candidates[resolved->Ok_0->OnPath_0 as int],
        ),
        resolved is Err ==> resolved->Err_0@ is NotFound,
{
}

} // verus!
