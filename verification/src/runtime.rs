//! Runtime configuration, and where the debugger's own tools are found.

use crate::path::{HostPath, JoinedPath, PathPart};
use crate::{path, text};
use vstd::prelude::*;
use vstd::string::*;

verus! {

pub const RUNTIME_CONFIG_VERSION: u32 = 1;

/// The host part of an address.
#[derive(Clone, Copy, Debug, PartialEq, Eq)]
pub enum BindHost {
    V4([u8; 4]),
    V6([u16; 8]),
}

/// An address to listen on, and how it is shown.
#[derive(Debug, PartialEq, Eq)]
pub struct BindAddr {
    pub host: BindHost,
    pub port: u16,
    pub shown: String,
}

impl Clone for BindAddr {
    fn clone(&self) -> (copy: Self)
        ensures
            copy == *self,
    {
        BindAddr { host: self.host, port: self.port, shown: self.shown.clone() }
    }
}

/// An address that only this machine can reach.
pub open spec fn loopback(host: BindHost) -> bool {
    match host {
        BindHost::V4(octets) => octets@[0] == 127,
        BindHost::V6(segments) => {
            &&& forall|i: int| 0 <= i < 7 ==> #[trigger] segments@[i] == 0
            &&& segments@[7] == 1
        },
    }
}

impl BindAddr {
    /// Whether only this machine can reach the address.
    pub fn is_loopback(&self) -> (yes: bool)
        ensures
            yes == loopback(self.host),
    {
        match &self.host {
            BindHost::V4(octets) => octets[0] == 127,
            BindHost::V6(segments) => {
                let mut i: usize = 0;
                while i < 7
                    invariant
                        i <= 7,
                        forall|k: int| 0 <= k < i ==> #[trigger] segments@[k] == 0,
                        self.host == BindHost::V6(*segments),
                    decreases 7 - i,
                {
                    if segments[i] != 0 {
                        assert(segments@[i as int] != 0);
                        return false;
                    }
                    i = i + 1;
                }
                segments[7] == 1
            },
        }
    }
}

/// Why a configuration is refused.
#[derive(Debug, PartialEq, Eq)]
pub enum RuntimeConfigError {
    UnsupportedVersion { actual: u32, expected: u32 },
    NonLoopbackBind(BindAddr),
    EmptyValue { field: &'static str },
    ControlCharacters { field: &'static str },
    UnsupportedProxyKey(String),
    /// The text is no configuration, by the reader's message.
    ParseToml(String),
    /// The file could not be read, by the host's message.
    Io { path: HostPath, source: String },
}

/// The text of an error.
pub open spec fn config_error_text(error: RuntimeConfigError) -> Seq<char> {
    match error {
        RuntimeConfigError::UnsupportedVersion { actual, expected } => "unsupported runtime config version "@
            + text::decimal(actual as nat) + "; expected "@ + text::decimal(expected as nat),
        RuntimeConfigError::NonLoopbackBind(bind) => "server bind address must be loopback: "@
            + bind.shown@,
        RuntimeConfigError::EmptyValue { field } => field@ + " must not be empty"@,
        RuntimeConfigError::ControlCharacters { field } => field@
            + " contains unsupported control characters"@,
        RuntimeConfigError::UnsupportedProxyKey(key) => "proxy.env key is not supported: "@ + key@,
        RuntimeConfigError::ParseToml(reason) => "parse runtime config: "@ + reason@,
        RuntimeConfigError::Io { path, source } => "read runtime config "@ + path@.text + ": "@
            + source@,
    }
}

impl RuntimeConfigError {
    /// The error as text.
    pub fn message(&self) -> (message: String)
        ensures
            message@ == config_error_text(*self),
    {
        match self {
            RuntimeConfigError::UnsupportedVersion {
                actual,
                expected,
            } => "unsupported runtime config version ".to_owned().concat(
                text::decimal_text(*actual as u64).as_str(),
            ).concat("; expected ").concat(text::decimal_text(*expected as u64).as_str()),
            RuntimeConfigError::NonLoopbackBind(
                bind,
            ) => "server bind address must be loopback: ".to_owned().concat(bind.shown.as_str()),
            RuntimeConfigError::EmptyValue { field } => (*field).to_owned().concat(
                " must not be empty",
            ),
            RuntimeConfigError::ControlCharacters { field } => (*field).to_owned().concat(
                " contains unsupported control characters",
            ),
            RuntimeConfigError::UnsupportedProxyKey(
                key,
            ) => "proxy.env key is not supported: ".to_owned().concat(key.as_str()),
            RuntimeConfigError::ParseToml(reason) => "parse runtime config: ".to_owned().concat(
                reason.as_str(),
            ),
            RuntimeConfigError::Io { path, source } => "read runtime config ".to_owned().concat(
                path.text.as_str(),
            ).concat(": ").concat(source.as_str()),
        }
    }
}

/// A runtime configuration.
#[derive(Debug, PartialEq, Eq)]
pub struct RuntimeConfig {
    pub version: u32,
    pub server: ServerRuntimeConfig,
    pub tools: ToolRuntimeConfig,
    pub process: ProcessLaunchPolicy,
    pub proxy: ProxyConfig,
}

/// Where the server listens.
#[derive(Debug, PartialEq, Eq)]
pub struct ServerRuntimeConfig {
    pub bind: BindAddr,
}

/// How tools are set up.
#[derive(Debug, PartialEq, Eq)]
pub struct ToolRuntimeConfig {
    pub symbol_path: Option<String>,
    pub ida: IdaRuntimeConfig,
}

/// How reverse engineering is set up.
#[derive(Debug, PartialEq, Eq)]
pub struct IdaRuntimeConfig {
    pub install_dir: Option<HostPath>,
    pub python_executable: Option<HostPath>,
    pub vendor_src_dir: Option<HostPath>,
    pub allow_py_eval: bool,
}

/// Whom child processes run as.
#[derive(Clone, Copy, Debug, PartialEq, Eq, Structural)]
pub enum ChildIdentity {
    CurrentProcess,
    McpPeerSession,
}

/// Whom child processes run as where the first choice is not there.
#[derive(Clone, Copy, Debug, PartialEq, Eq, Structural)]
pub enum FallbackChildIdentity {
    CurrentProcess,
    ActiveInteractiveSession,
}

/// How child processes are launched.
#[derive(Clone, Copy, Debug, PartialEq, Eq, Structural)]
pub struct ProcessLaunchPolicy {
    pub child_identity: ChildIdentity,
    pub fallback_child_identity: FallbackChildIdentity,
    pub elevate_if_admin: bool,
}

/// How the network is reached.
#[derive(Debug, PartialEq, Eq)]
pub enum ProxyConfig {
    /// Nothing is said.
    Unset,
    Disabled,
    Url { url: String },
    Env { variables: ProxyVariables },
}

/// Variables of the environment, each under its own key.
#[derive(Debug, PartialEq, Eq)]
pub struct ProxyVariables {
    entries: Vec<(String, String)>,
}

/// The keys ascend, so that none occurs twice.
pub open spec fn keys_ascend(entries: Seq<(String, String)>) -> bool {
    forall|i: int, k: int|
        0 <= i < k < entries.len() ==> text::precedes(
            (#[trigger] entries[i]).0@,
            (#[trigger] entries[k]).0@,
        )
}

/// The value under a key, if there is one.
pub open spec fn value_under(entries: Seq<(String, String)>, key: Seq<char>) -> Option<Seq<char>>
    decreases entries.len(),
{
    if entries.len() == 0 {
        None
    } else if entries.last().0@ == key {
        Some(entries.last().1@)
    } else {
        value_under(entries.drop_last(), key)
    }
}

impl View for ProxyVariables {
    type V = Seq<(String, String)>;

    closed spec fn view(&self) -> Seq<(String, String)> {
        self.entries@
    }
}

/// Where keys ascend, what is found under a key is what stands beside it, and
/// nothing is found under a key that does not stand there.
proof fn lemma_value_under(entries: Seq<(String, String)>, at: int, key: Seq<char>)
    requires
        keys_ascend(entries),
        0 <= at <= entries.len(),
        forall|k: int| 0 <= k < at ==> text::precedes((#[trigger] entries[k]).0@, key),
        forall|k: int| at < k < entries.len() ==> text::precedes(key, (#[trigger] entries[k]).0@),
        at < entries.len() ==> entries[at].0@ == key || text::precedes(key, entries[at].0@),
    ensures
        value_under(entries, key) == (if at < entries.len() && entries[at].0@ == key {
            Some(entries[at].1@)
        } else {
            None
        }),
    decreases entries.len(),
{
    text::law_texts_are_ordered(key, key);
    if entries.len() > 0 {
        let rest = entries.drop_last();
        if entries.last().0@ != key {
            assert forall|i: int, k: int| 0 <= i < k < rest.len() implies text::precedes(
                (#[trigger] rest[i]).0@,
                (#[trigger] rest[k]).0@,
            ) by {
                assert(rest[i] == entries[i] && rest[k] == entries[k]);
            }
            assert forall|k: int| 0 <= k < at && k < rest.len() implies text::precedes(
                (#[trigger] rest[k]).0@,
                key,
            ) by {
                assert(rest[k] == entries[k]);
            }
            assert forall|k: int| at < k < rest.len() implies text::precedes(
                key,
                (#[trigger] rest[k]).0@,
            ) by {
                assert(rest[k] == entries[k]);
            }
            let before = if at < rest.len() {
                at
            } else {
                rest.len() as int
            };
            lemma_value_under(rest, before, key);
        } else {
            if at < entries.len() - 1 {
                assert(entries[entries.len() - 1].0@ == key);
            } else if at == entries.len() {
                assert(text::precedes(entries[entries.len() - 1].0@, key));
            }
        }
    }
}

impl ProxyVariables {
    #[verifier::type_invariant]
    spec fn is_ordered(&self) -> bool {
        keys_ascend(self.entries@)
    }

    /// No variables.
    pub fn new() -> (variables: Self)
        ensures
            variables@.len() == 0,
    {
        ProxyVariables { entries: Vec::new() }
    }

    /// The variables, in the order of their keys.
    pub fn entries(&self) -> (entries: &Vec<(String, String)>)
        ensures
            entries@ == self@,
            keys_ascend(entries@),
    {
        proof {
            use_type_invariant(self);
        }
        &self.entries
    }

    /// Sets a variable, in place of one that has the key.
    pub fn with(self, key: String, value: String) -> (variables: Self)
        ensures
            keys_ascend(variables@),
            forall|name: Seq<char>| #[trigger]
                value_under(variables@, name) == (if name == key@ {
                    Some(value@)
                } else {
                    value_under(self@, name)
                }),
    {
        proof {
            use_type_invariant(&self);
        }
        let mut entries: Vec<(String, String)> = self.entries;
        let ghost before = entries@;
        let mut at: usize = 0;
        while at < entries.len() && text::text_precedes(entries[at].0.as_str(), key.as_str())
            invariant
                at <= entries.len(),
                entries@ == before,
                forall|k: int| 0 <= k < at ==> text::precedes((#[trigger] before[k]).0@, key@),
            decreases entries.len() - at,
        {
            at = at + 1;
        }
        let ghost entry = (key, value);
        if at < entries.len() && text::text_eq(entries[at].0.as_str(), key.as_str()) {
            entries.set(at, (key, value));
            proof {
                lemma_replaced_variable(before, at as int, entry);
            }
        } else {
            entries.insert(at, (key, value));
            proof {
                if at < before.len() {
                    text::law_texts_are_ordered(before[at as int].0@, entry.0@);
                }
                lemma_added_variable(before, at as int, entry);
            }
        }
        ProxyVariables { entries }
    }
}

/// A variable that is replaced changes what is found under its key alone.
proof fn lemma_replaced_variable(
    entries: Seq<(String, String)>,
    at: int,
    entry: (String, String),
)
    requires
        keys_ascend(entries),
        0 <= at < entries.len(),
        entries[at].0@ == entry.0@,
    ensures
        keys_ascend(entries.update(at, entry)),
        forall|name: Seq<char>| #[trigger]
            value_under(entries.update(at, entry), name) == (if name == entry.0@ {
                Some(entry.1@)
            } else {
                value_under(entries, name)
            }),
{
    let updated = entries.update(at, entry);
    assert forall|i: int, k: int| 0 <= i < k < updated.len() implies text::precedes(
        (#[trigger] updated[i]).0@,
        (#[trigger] updated[k]).0@,
    ) by {
        assert(updated[i].0@ == entries[i].0@ && updated[k].0@ == entries[k].0@);
    }
    lemma_value_under(updated, at, entry.0@);
    assert forall|name: Seq<char>| name != entry.0@ implies #[trigger]
        value_under(updated, name) == value_under(entries, name) by {
        lemma_other_keys(entries, at, entry, name);
    }
}

/// A variable that is replaced leaves the others as they are.
proof fn lemma_other_keys(
    entries: Seq<(String, String)>,
    at: int,
    entry: (String, String),
    name: Seq<char>,
)
    requires
        0 <= at < entries.len(),
        entries[at].0@ == entry.0@,
        name != entry.0@,
    ensures
        value_under(entries.update(at, entry), name) == value_under(entries, name),
    decreases entries.len(),
{
    let updated = entries.update(at, entry);
    if at < entries.len() - 1 {
        assert(updated.drop_last() =~= entries.drop_last().update(at, entry));
        lemma_other_keys(entries.drop_last(), at, entry, name);
    } else {
        assert(updated.drop_last() =~= entries.drop_last());
    }
}

/// A variable that is put in its place is found under its key, and changes
/// what is found under no other.
proof fn lemma_added_variable(entries: Seq<(String, String)>, at: int, entry: (String, String))
    requires
        keys_ascend(entries),
        0 <= at <= entries.len(),
        forall|k: int| 0 <= k < at ==> text::precedes((#[trigger] entries[k]).0@, entry.0@),
        at < entries.len() ==> text::precedes(entry.0@, entries[at].0@),
    ensures
        keys_ascend(entries.insert(at, entry)),
        forall|name: Seq<char>| #[trigger]
            value_under(entries.insert(at, entry), name) == (if name == entry.0@ {
                Some(entry.1@)
            } else {
                value_under(entries, name)
            }),
{
    let added = entries.insert(at, entry);
    assert forall|k: int| at <= k < entries.len() implies text::precedes(
        entry.0@,
        (#[trigger] entries[k]).0@,
    ) by {
        if at < k {
            assert(text::precedes(entries[at].0@, entries[k].0@));
            text::lemma_precedes_through(entry.0@, entries[at].0@, entries[k].0@);
        }
    }
    assert forall|i: int, k: int| 0 <= i < k < added.len() implies text::precedes(
        (#[trigger] added[i]).0@,
        (#[trigger] added[k]).0@,
    ) by {
        if k < at {
            assert(added[i] == entries[i] && added[k] == entries[k]);
        } else if k == at {
            assert(added[i] == entries[i]);
        } else if i < at {
            assert(added[i] == entries[i] && added[k] == entries[k - 1]);
        } else if i == at {
            assert(added[k] == entries[k - 1]);
        } else {
            assert(added[i] == entries[i - 1] && added[k] == entries[k - 1]);
        }
    }
    assert forall|k: int| at < k < added.len() implies text::precedes(
        entry.0@,
        (#[trigger] added[k]).0@,
    ) by {
        assert(added[at] == entry);
    }
    lemma_value_under(added, at, entry.0@);
    assert forall|name: Seq<char>| name != entry.0@ implies #[trigger]
        value_under(added, name) == value_under(entries, name) by {
        lemma_keys_beside(entries, at, entry, name);
    }
}

/// A variable that is put between others leaves them as they are.
proof fn lemma_keys_beside(
    entries: Seq<(String, String)>,
    at: int,
    entry: (String, String),
    name: Seq<char>,
)
    requires
        0 <= at <= entries.len(),
        name != entry.0@,
    ensures
        value_under(entries.insert(at, entry), name) == value_under(entries, name),
    decreases entries.len(),
{
    let added = entries.insert(at, entry);
    if at < entries.len() {
        assert(added.drop_last() =~= entries.drop_last().insert(at, entry));
        assert(added.last() == entries.last());
        lemma_keys_beside(entries.drop_last(), at, entry, name);
    } else {
        assert(added.drop_last() =~= entries);
    }
}

impl Default for ChildIdentity {
    fn default() -> (identity: Self)
        ensures
            identity == ChildIdentity::CurrentProcess,
    {
        ChildIdentity::CurrentProcess
    }
}

impl Default for FallbackChildIdentity {
    fn default() -> (identity: Self)
        ensures
            identity == FallbackChildIdentity::CurrentProcess,
    {
        FallbackChildIdentity::CurrentProcess
    }
}

impl Default for ProcessLaunchPolicy {
    fn default() -> (policy: Self)
        ensures
            policy == (ProcessLaunchPolicy {
                child_identity: ChildIdentity::CurrentProcess,
                fallback_child_identity: FallbackChildIdentity::CurrentProcess,
                elevate_if_admin: false,
            }),
    {
        ProcessLaunchPolicy {
            child_identity: ChildIdentity::CurrentProcess,
            fallback_child_identity: FallbackChildIdentity::CurrentProcess,
            elevate_if_admin: false,
        }
    }
}

impl Default for ProxyConfig {
    fn default() -> (proxy: Self)
        ensures
            proxy == ProxyConfig::Unset,
    {
        ProxyConfig::Unset
    }
}

/// This machine, at a port that the host picks.
pub fn default_bind() -> (bind: BindAddr)
    ensures
        bind.host matches BindHost::V4(octets) && octets@ == seq![127u8, 0u8, 0u8, 1u8],
        bind.port == 0,
        bind.shown@ == "127.0.0.1:0"@,
        loopback(bind.host),
{
    let octets: [u8; 4] = [127, 0, 0, 1];
    assert(octets@ =~= seq![127u8, 0u8, 0u8, 1u8]);
    BindAddr { host: BindHost::V4(octets), port: 0, shown: "127.0.0.1:0".to_owned() }
}

impl Default for ServerRuntimeConfig {
    fn default() -> (server: Self)
        ensures
            server.bind.host matches BindHost::V4(octets) && octets@ == seq![127u8, 0u8, 0u8, 1u8],
            server.bind.port == 0,
            server.bind.shown@ == "127.0.0.1:0"@,
            loopback(server.bind.host),
    {
        ServerRuntimeConfig { bind: default_bind() }
    }
}

impl Default for IdaRuntimeConfig {
    fn default() -> (ida: Self)
        ensures
            ida.install_dir is None,
            ida.python_executable is None,
            ida.vendor_src_dir is None,
            !ida.allow_py_eval,
    {
        IdaRuntimeConfig {
            install_dir: None,
            python_executable: None,
            vendor_src_dir: None,
            allow_py_eval: false,
        }
    }
}

impl Default for ToolRuntimeConfig {
    fn default() -> (tools: Self)
        ensures
            tools.symbol_path is None,
            tools.ida.install_dir is None,
            tools.ida.python_executable is None,
            tools.ida.vendor_src_dir is None,
            !tools.ida.allow_py_eval,
    {
        ToolRuntimeConfig { symbol_path: None, ida: IdaRuntimeConfig::default() }
    }
}

impl Default for RuntimeConfig {
    fn default() -> (config: Self)
        ensures
            config.version == RUNTIME_CONFIG_VERSION,
            config.server.bind.host matches BindHost::V4(octets) && octets@ == seq![
                127u8,
                0u8,
                0u8,
                1u8,
            ],
            config.server.bind.port == 0,
            config.server.bind.shown@ == "127.0.0.1:0"@,
            config.tools.symbol_path is None,
            config.tools.ida.install_dir is None,
            config.tools.ida.python_executable is None,
            config.tools.ida.vendor_src_dir is None,
            !config.tools.ida.allow_py_eval,
            config.process == (ProcessLaunchPolicy {
                child_identity: ChildIdentity::CurrentProcess,
                fallback_child_identity: FallbackChildIdentity::CurrentProcess,
                elevate_if_admin: false,
            }),
            config.proxy == ProxyConfig::Unset,
            config_refusal(config) is None,
    {
        RuntimeConfig {
            version: RUNTIME_CONFIG_VERSION,
            server: ServerRuntimeConfig::default(),
            tools: ToolRuntimeConfig::default(),
            process: ProcessLaunchPolicy::default(),
            proxy: ProxyConfig::default(),
        }
    }
}

pub const KNOWN_PROXY_KEYS: [&'static str; 9] = [
    "_NT_SYMBOL_PROXY",
    "HTTP_PROXY",
    "HTTPS_PROXY",
    "ALL_PROXY",
    "NO_PROXY",
    "http_proxy",
    "https_proxy",
    "all_proxy",
    "no_proxy",
];

/// A variable that may be set.
pub open spec fn known_proxy_key(key: Seq<char>) -> bool {
    exists|i: int| 0 <= i < 9 && #[trigger] KNOWN_PROXY_KEYS@[i]@ == key
}

/// Why a text is refused, if it is.
pub open spec fn text_refusal(value: Seq<char>, field: &'static str) -> Option<RuntimeConfigError> {
    if text::blank(value) {
        Some(RuntimeConfigError::EmptyValue { field })
    } else if text::has_control(value) {
        Some(RuntimeConfigError::ControlCharacters { field })
    } else {
        None
    }
}

/// Why a path that may be given is refused, if it is. An empty path is a blank
/// text.
pub open spec fn path_refusal(value: Option<HostPath>, field: &'static str) -> Option<
    RuntimeConfigError,
> {
    match value {
        None => None,
        Some(given) => text_refusal(given@.text, field),
    }
}

/// The first of two refusals.
pub open spec fn first_of(
    first: Option<RuntimeConfigError>,
    second: Option<RuntimeConfigError>,
) -> Option<RuntimeConfigError> {
    if first is Some {
        first
    } else {
        second
    }
}

/// Why tools are refused, if they are.
pub open spec fn tools_refusal(tools: ToolRuntimeConfig) -> Option<RuntimeConfigError> {
    first_of(
        match tools.symbol_path {
            None => None,
            Some(symbol_path) => text_refusal(symbol_path@, "tools.symbol_path"),
        },
        first_of(
            path_refusal(tools.ida.install_dir, "tools.ida.install_dir"),
            first_of(
                path_refusal(tools.ida.python_executable, "tools.ida.python_executable"),
                path_refusal(tools.ida.vendor_src_dir, "tools.ida.vendor_src_dir"),
            ),
        ),
    )
}

/// Why variables are refused, if they are, from a position on.
pub open spec fn variables_refusal(variables: Seq<(String, String)>, from: int) -> Option<
    RuntimeConfigError,
>
    decreases variables.len() - from,
{
    if from < 0 || from >= variables.len() {
        None
    } else if !known_proxy_key(variables[from].0@) {
        Some(RuntimeConfigError::UnsupportedProxyKey(variables[from].0))
    } else {
        first_of(
            text_refusal(variables[from].1@, "proxy.env"),
            variables_refusal(variables, from + 1),
        )
    }
}

/// Why a proxy is refused, if it is.
pub open spec fn proxy_refusal(proxy: ProxyConfig) -> Option<RuntimeConfigError> {
    match proxy {
        ProxyConfig::Unset => None,
        ProxyConfig::Disabled => None,
        ProxyConfig::Url { url } => text_refusal(url@, "proxy.url"),
        ProxyConfig::Env { variables } => variables_refusal(variables@, 0),
    }
}

/// Why a configuration is refused, if it is.
pub open spec fn config_refusal(config: RuntimeConfig) -> Option<RuntimeConfigError> {
    if config.version != RUNTIME_CONFIG_VERSION {
        Some(
            RuntimeConfigError::UnsupportedVersion {
                actual: config.version,
                expected: RUNTIME_CONFIG_VERSION,
            },
        )
    } else if !loopback(config.server.bind.host) {
        Some(RuntimeConfigError::NonLoopbackBind(config.server.bind))
    } else {
        first_of(tools_refusal(config.tools), proxy_refusal(config.proxy))
    }
}

/// What validation answers.
pub open spec fn verdict(refusal: Option<RuntimeConfigError>) -> Result<(), RuntimeConfigError> {
    match refusal {
        Some(error) => Err(error),
        None => Ok(()),
    }
}

fn validate_text_value(value: &str, field: &'static str) -> (verdict: Result<
    (),
    RuntimeConfigError,
>)
    ensures
        verdict == self::verdict(text_refusal(value@, field)),
{
    if text::is_blank(value) {
        return Err(RuntimeConfigError::EmptyValue { field });
    }
    if text::has_control_characters(value) {
        return Err(RuntimeConfigError::ControlCharacters { field });
    }
    Ok(())
}

fn validate_path_value(value: &Option<HostPath>, field: &'static str) -> (verdict: Result<
    (),
    RuntimeConfigError,
>)
    ensures
        verdict == self::verdict(path_refusal(*value, field)),
{
    match value {
        None => Ok(()),
        Some(given) => {
            if given.is_empty() {
                assert(text::blank(given@.text));
                return Err(RuntimeConfigError::EmptyValue { field });
            }
            validate_text_value(given.text.as_str(), field)
        },
    }
}

fn is_known_proxy_key(key: &str) -> (yes: bool)
    ensures
        yes == known_proxy_key(key@),
{
    let keys: [&'static str; 9] = KNOWN_PROXY_KEYS;
    let mut i: usize = 0;
    while i < 9
        invariant
            i <= 9,
            keys@ == KNOWN_PROXY_KEYS@,
            forall|k: int| 0 <= k < i ==> #[trigger] KNOWN_PROXY_KEYS@[k]@ != key@,
        decreases 9 - i,
    {
        if text::text_eq(keys[i], key) {
            assert(KNOWN_PROXY_KEYS@[i as int]@ == key@);
            return true;
        }
        i = i + 1;
    }
    false
}

impl ToolRuntimeConfig {
    fn validate(&self) -> (verdict: Result<(), RuntimeConfigError>)
        ensures
            verdict == self::verdict(tools_refusal(*self)),
    {
        if let Some(symbol_path) = &self.symbol_path {
            if let Err(error) = validate_text_value(symbol_path.as_str(), "tools.symbol_path") {
                return Err(error);
            }
        }
        if let Err(error) = validate_path_value(&self.ida.install_dir, "tools.ida.install_dir") {
            return Err(error);
        }
        if let Err(error) = validate_path_value(
            &self.ida.python_executable,
            "tools.ida.python_executable",
        ) {
            return Err(error);
        }
        validate_path_value(&self.ida.vendor_src_dir, "tools.ida.vendor_src_dir")
    }
}

impl ProxyConfig {
    #[verifier::loop_isolation(false)]
    fn validate(&self) -> (verdict: Result<(), RuntimeConfigError>)
        ensures
            verdict == self::verdict(proxy_refusal(*self)),
    {
        match self {
            ProxyConfig::Unset => Ok(()),
            ProxyConfig::Disabled => Ok(()),
            ProxyConfig::Url { url } => validate_text_value(url.as_str(), "proxy.url"),
            ProxyConfig::Env { variables } => {
                let entries: &Vec<(String, String)> = variables.entries();
                let mut i: usize = 0;
                while i < entries.len()
                    invariant
                        i <= entries.len(),
                        variables_refusal(entries@, 0) == variables_refusal(entries@, i as int),
                    decreases entries.len() - i,
                {
                    if !is_known_proxy_key(entries[i].0.as_str()) {
                        return Err(
                            RuntimeConfigError::UnsupportedProxyKey(entries[i].0.clone()),
                        );
                    }
                    if let Err(error) = validate_text_value(entries[i].1.as_str(), "proxy.env") {
                        return Err(error);
                    }
                    i = i + 1;
                }
                Ok(())
            },
        }
    }
}

impl RuntimeConfig {
    /// A configuration that was read from a text and is accepted.
    pub fn from_toml_str(parsed: Result<RuntimeConfig, String>) -> (config: Result<
        Self,
        RuntimeConfigError,
    >)
        ensures
            config == (match parsed {
                Err(reason) => Err::<Self, RuntimeConfigError>(
                    RuntimeConfigError::ParseToml(reason),
                ),
                Ok(found) => match config_refusal(found) {
                    Some(error) => Err::<Self, RuntimeConfigError>(error),
                    None => Ok::<Self, RuntimeConfigError>(found),
                },
            }),
    {
        let config: RuntimeConfig = match parsed {
            Ok(config) => config,
            Err(reason) => return Err(RuntimeConfigError::ParseToml(reason)),
        };
        match config.validate() {
            Ok(()) => Ok(config),
            Err(error) => Err(error),
        }
    }

    /// A configuration that was read from a file and is accepted. `input` is
    /// what reading the file gave.
    pub fn load(path: HostPath, input: Result<Result<RuntimeConfig, String>, String>) -> (config:
        Result<Self, RuntimeConfigError>)
        ensures
            config == (match input {
                Err(source) => Err::<Self, RuntimeConfigError>(
                    RuntimeConfigError::Io { path, source },
                ),
                Ok(Err(reason)) => Err::<Self, RuntimeConfigError>(
                    RuntimeConfigError::ParseToml(reason),
                ),
                Ok(Ok(found)) => match config_refusal(found) {
                    Some(error) => Err::<Self, RuntimeConfigError>(error),
                    None => Ok::<Self, RuntimeConfigError>(found),
                },
            }),
    {
        match input {
            Err(source) => Err(RuntimeConfigError::Io { path, source }),
            Ok(parsed) => RuntimeConfig::from_toml_str(parsed),
        }
    }

    /// Accepts a configuration of this version that listens on this machine
    /// only and whose texts can be handed on.
    pub fn validate(&self) -> (verdict: Result<(), RuntimeConfigError>)
        ensures
            verdict == self::verdict(config_refusal(*self)),
    {
        if self.version != RUNTIME_CONFIG_VERSION {
            return Err(
                RuntimeConfigError::UnsupportedVersion {
                    actual: self.version,
                    expected: RUNTIME_CONFIG_VERSION,
                },
            );
        }
        if !self.server.bind.is_loopback() {
            return Err(RuntimeConfigError::NonLoopbackBind(self.server.bind.clone()));
        }
        if let Err(error) = self.tools.validate() {
            return Err(error);
        }
        self.proxy.validate()
    }

    /// Where the tools are. They are searched for, whatever is configured.
    pub fn resolve_tool_paths(
        &self,
        candidates: Vec<ToolLocation>,
        ttd: Option<ToolLocation>,
    ) -> (paths: ResolvedToolPaths)
        ensures
            is_resolved(paths, candidates, ttd),
    {
        resolve_tool_paths(candidates, ttd)
    }
}

/// A configuration that is accepted keeps the server to this machine, and
/// every text that it hands to tools and to the environment is neither blank
/// nor broken by a control character.
pub proof fn law_accepted_configurations_are_safe(config: RuntimeConfig)
    requires
        config_refusal(config) is None,
    ensures
        config.version == RUNTIME_CONFIG_VERSION,
        loopback(config.server.bind.host),
        config.tools.symbol_path matches Some(symbol_path) ==> !text::blank(symbol_path@)
            && !text::has_control(symbol_path@),
        config.proxy matches ProxyConfig::Env { variables } ==> forall|i: int|
            0 <= i < variables@.len() ==> known_proxy_key((#[trigger] variables@[i]).0@)
                && !text::blank(variables@[i].1@) && !text::has_control(variables@[i].1@),
{
    if let ProxyConfig::Env { variables } = config.proxy {
        assert forall|i: int| 0 <= i < variables@.len() implies known_proxy_key(
            (#[trigger] variables@[i]).0@,
        ) && !text::blank(variables@[i].1@) && !text::has_control(variables@[i].1@) by {
            lemma_accepted_variable(variables@, 0, i);
        }
    }
}

/// Where variables are accepted, each is.
proof fn lemma_accepted_variable(variables: Seq<(String, String)>, from: int, at: int)
    requires
        0 <= from <= at < variables.len(),
        variables_refusal(variables, from) is None,
    ensures
        known_proxy_key(variables[at].0@),
        text_refusal(variables[at].1@, "proxy.env") is None,
    decreases at - from,
{
    if from < at {
        lemma_accepted_variable(variables, from + 1, at);
    }
}

/// The kinds of processor that tools come for.
#[derive(Clone, Copy, Debug, PartialEq, Eq, Structural)]
pub enum Arch {
    X86,
    Arm64,
    X64,
}

impl Arch {
    /// The name under which the SDK keeps its debuggers.
    pub open spec fn debugger_name(self) -> Seq<char> {
        match self {
            Arch::X86 => "x86"@,
            Arch::Arm64 => "arm64"@,
            Arch::X64 => "x64"@,
        }
    }

    /// The name under which the store package keeps its debuggers.
    pub open spec fn runtime_name(self) -> Seq<char> {
        match self {
            Arch::X86 => "x86"@,
            Arch::Arm64 => "arm64"@,
            Arch::X64 => "amd64"@,
        }
    }

    /// The name under which the SDK keeps its debuggers.
    pub fn debugger_arch(self) -> (name: &'static str)
        ensures
            name@ == self.debugger_name(),
    {
        match self {
            Arch::X86 => "x86",
            Arch::Arm64 => "arm64",
            Arch::X64 => "x64",
        }
    }

    /// The name under which the store package keeps its debuggers.
    pub fn windbg_runtime_arch(self) -> (name: &'static str)
        ensures
            name@ == self.runtime_name(),
    {
        match self {
            Arch::X86 => "x86",
            Arch::Arm64 => "arm64",
            Arch::X64 => "amd64",
        }
    }
}

/// A directory that was found: below a root, step by step.
#[derive(Debug, PartialEq, Eq)]
pub struct ToolDir {
    pub root: HostPath,
    pub steps: Vec<PathPart>,
}

/// A directory that was found, as contracts speak of it.
#[verifier::ext_equal]
pub struct DirView {
    pub root: path::PathView,
    pub steps: Seq<path::PartView>,
}

impl DirView {
    /// All components.
    pub open spec fn parts(self) -> Seq<path::PartView> {
        self.root.parts + self.steps
    }

    /// What tells the directory from others.
    pub open spec fn key(self) -> Seq<path::PartView> {
        path::keys(self.parts())
    }

    /// One more step down.
    pub open spec fn join(self, name: Seq<char>) -> DirView {
        DirView { root: self.root, steps: self.steps.push(path::PartView::Normal(name)) }
    }
}

/// The directory at a root, or below it.
pub open spec fn dir_below(root: path::PathView, steps: Seq<path::PartView>) -> DirView {
    DirView { root, steps }
}

impl View for ToolDir {
    type V = DirView;

    open spec fn view(&self) -> DirView {
        DirView { root: self.root@, steps: path::part_views(self.steps@) }
    }
}

impl Clone for ToolDir {
    fn clone(&self) -> (copy: Self)
        ensures
            copy@ == self@,
    {
        ToolDir { root: self.root.clone(), steps: path::copy_parts(&self.steps) }
    }
}

impl ToolDir {
    /// The root itself.
    pub fn at(root: &HostPath) -> (dir: Self)
        ensures
            dir@ == dir_below(root@, seq![]),
    {
        let dir: ToolDir = ToolDir { root: root.clone(), steps: Vec::new() };
        assert(dir@ =~= dir_below(root@, seq![]));
        dir
    }

    /// One more step down.
    pub fn join(self, name: &str) -> (dir: Self)
        ensures
            dir@ == self@.join(name@),
    {
        let mut steps: Vec<PathPart> = self.steps;
        steps.push(PathPart::Normal(name.to_owned()));
        let dir: ToolDir = ToolDir { root: self.root, steps };
        assert(dir@ =~= self@.join(name@));
        dir
    }

    /// Whether two directories are the same.
    pub fn same(&self, other: &ToolDir) -> (yes: bool)
        ensures
            yes == (self@.key() == other@.key()),
    {
        assert(self@.key().len() == self@.parts().len());
        assert(other@.key().len() == other@.parts().len());
        if self.len() != other.len() {
            return false;
        }
        let total: u128 = self.len();
        let mut i: u128 = 0;
        while i < total
            invariant
                i <= total,
                total == self@.parts().len(),
                total == other@.parts().len(),
                forall|k: int| 0 <= k < i ==> #[trigger] self@.key()[k] == other@.key()[k],
            decreases total - i,
        {
            if !path::part_eq(self.step(i), other.step(i)) {
                assert(self@.key()[i as int] != other@.key()[i as int]);
                return false;
            }
            i = i + 1;
        }
        assert(self@.key() =~= other@.key());
        true
    }

    fn len(&self) -> (len: u128)
        ensures
            len == self@.parts().len(),
    {
        self.root.parts.len() as u128 + self.steps.len() as u128
    }

    fn step(&self, at: u128) -> (part: &PathPart)
        requires
            at < self@.parts().len(),
        ensures
            part@ == self@.parts()[at as int],
    {
        let rooted: u128 = self.root.parts.len() as u128;
        let below: usize = self.steps.len();
        if at < rooted {
            assert(self@.parts()[at as int] == self.root.parts@[at as int]@);
            &self.root.parts[at as usize]
        } else {
            let behind: u128 = at - rooted;
            assert(behind < below);
            assert(self@.parts()[at as int] == self.steps@[behind as int]@);
            &self.steps[behind as usize]
        }
    }
}

/// How a tool was found.
#[derive(Clone, Copy, Debug, PartialEq, Eq, Structural)]
pub enum ToolPathSource {
    DbgAtlasInstall,
    AppStore,
    WindowsSdk,
    System32,
    DbgEngSibling,
}

/// Where a tool is.
#[derive(Debug, PartialEq, Eq)]
pub struct ToolLocation {
    pub dir: ToolDir,
    pub source: ToolPathSource,
}

impl Clone for ToolLocation {
    fn clone(&self) -> (copy: Self)
        ensures
            copy@ == self@,
    {
        ToolLocation { dir: self.dir.clone(), source: self.source }
    }
}

/// Where a tool is, as contracts speak of it.
#[verifier::ext_equal]
pub struct LocationView {
    pub dir: DirView,
    pub source: ToolPathSource,
}

impl View for ToolLocation {
    type V = LocationView;

    open spec fn view(&self) -> LocationView {
        LocationView { dir: self.dir@, source: self.source }
    }
}

/// The locations behind a list.
pub open spec fn location_views(locations: Seq<ToolLocation>) -> Seq<LocationView> {
    locations.map_values(|location: ToolLocation| location@)
}

/// Where the tools are.
#[derive(Debug, PartialEq, Eq)]
pub struct ResolvedToolPaths {
    pub dbgeng: Option<ToolLocation>,
    pub dbgeng_candidates: Vec<ToolLocation>,
    pub ttd: Option<ToolLocation>,
}

/// The tools are those that were found: the debugger engine is the first of
/// its candidates.
pub open spec fn is_resolved(
    paths: ResolvedToolPaths,
    candidates: Vec<ToolLocation>,
    ttd: Option<ToolLocation>,
) -> bool {
    &&& paths.dbgeng_candidates == candidates
    &&& paths.ttd == ttd
    &&& match paths.dbgeng {
        Some(first) => candidates@.len() > 0 && first@ == candidates@[0]@,
        None => candidates@.len() == 0,
    }
}

/// Where the tools are, once they were searched for.
pub fn resolve_tool_paths(candidates: Vec<ToolLocation>, ttd: Option<ToolLocation>) -> (paths:
    ResolvedToolPaths)
    ensures
        is_resolved(paths, candidates, ttd),
{
    let dbgeng: Option<ToolLocation> = if candidates.len() > 0 {
        Some(candidates[0].clone())
    } else {
        None
    };
    ResolvedToolPaths { dbgeng, dbgeng_candidates: candidates, ttd }
}

impl ResolvedToolPaths {
    pub fn dbgeng_dir(&self) -> (dir: Option<&ToolDir>)
        ensures
            match (self.dbgeng, dir) {
                (Some(location), Some(found)) => *found == location.dir,
                (None, None) => true,
                _ => false,
            },
    {
        match &self.dbgeng {
            Some(location) => Some(&location.dir),
            None => None,
        }
    }

    /// The directories of the candidates, in order.
    pub fn dbgeng_dirs(&self) -> (dirs: Vec<ToolDir>)
        ensures
            dirs@.len() == self.dbgeng_candidates@.len(),
            forall|i: int|
                0 <= i < dirs@.len() ==> (#[trigger] dirs@[i])@ == self.dbgeng_candidates@[i].dir@,
    {
        let mut dirs: Vec<ToolDir> = Vec::new();
        let mut i: usize = 0;
        while i < self.dbgeng_candidates.len()
            invariant
                i <= self.dbgeng_candidates.len(),
                dirs.len() == i,
                forall|k: int|
                    0 <= k < i ==> (#[trigger] dirs@[k])@ == self.dbgeng_candidates@[k].dir@,
            decreases self.dbgeng_candidates.len() - i,
        {
            dirs.push(self.dbgeng_candidates[i].dir.clone());
            i = i + 1;
        }
        dirs
    }

    pub fn ttd_dir(&self) -> (dir: Option<&ToolDir>)
        ensures
            match (self.ttd, dir) {
                (Some(location), Some(found)) => *found == location.dir,
                (None, None) => true,
                _ => false,
            },
    {
        match &self.ttd {
            Some(location) => Some(&location.dir),
            None => None,
        }
    }
}

/// An entry of a directory.
#[derive(Debug)]
pub enum TreeEntry {
    File { name: PathPart },
    Dir { name: PathPart, entries: Vec<TreeEntry> },
}

/// The name is that of the file that is looked for, whatever the case of its
/// ASCII letters.
pub open spec fn names_file(name: path::PartView, wanted: Seq<char>) -> bool {
    name matches path::PartView::Normal(text) && text::same_ignoring_ascii_case(text, wanted)
}

/// The first file of a name in a directory and those below it, down to a
/// depth, by the steps that lead to it. A directory comes with what it holds,
/// before the entries behind it.
pub open spec fn first_file(
    entries: Seq<TreeEntry>,
    wanted: Seq<char>,
    max_depth: nat,
) -> Option<Seq<path::PartView>>
    decreases max_depth, entries.len(),
{
    if max_depth == 0 || entries.len() == 0 {
        None
    } else {
        match entries[0] {
            TreeEntry::File { name } => if names_file(name@, wanted) {
                Some(seq![name@])
            } else {
                first_file(entries.drop_first(), wanted, max_depth)
            },
            TreeEntry::Dir { name, entries: inner } => match first_file(
                inner@,
                wanted,
                (max_depth - 1) as nat,
            ) {
                Some(found) => Some(seq![name@] + found),
                None => first_file(entries.drop_first(), wanted, max_depth),
            },
        }
    }
}

fn is_named(name: &PathPart, wanted: &str) -> (yes: bool)
    ensures
        yes == names_file(name@, wanted@),
{
    match name {
        PathPart::Normal(text) => text::eq_ignore_ascii_case(text.as_str(), wanted),
        _ => false,
    }
}

/// The first file of a name in a directory and those below it, down to a
/// depth, by the steps that lead to it.
#[verifier::loop_isolation(false)]
pub fn find_file_limited(entries: &Vec<TreeEntry>, wanted: &str, max_depth: usize) -> (found: Option<
    Vec<PathPart>,
>)
    ensures
        match found {
            Some(steps) => first_file(entries@, wanted@, max_depth as nat) == Some(
                path::part_views(steps@),
            ),
            None => first_file(entries@, wanted@, max_depth as nat) is None,
        },
    decreases max_depth,
{
    if max_depth == 0 {
        return None;
    }
    let ghost depth = max_depth as nat;
    let mut i: usize = 0;
    assert(entries@.skip(0) =~= entries@);
    while i < entries.len()
        invariant
            i <= entries.len(),
            first_file(entries@, wanted@, depth) == first_file(
                entries@.skip(i as int),
                wanted@,
                depth,
            ),
        decreases entries.len() - i,
    {
        let ghost rest = entries@.skip(i as int);
        assert(rest[0] == entries@[i as int]);
        assert(rest.drop_first() =~= entries@.skip(i + 1));
        match &entries[i] {
            TreeEntry::File { name } => {
                if is_named(name, wanted) {
                    let steps: Vec<PathPart> = vec![name.clone()];
                    assert(path::part_views(steps@) =~= seq![name@]);
                    return Some(steps);
                }
            },
            TreeEntry::Dir { name, entries: inner } => {
                if let Some(found) = find_file_limited(inner, wanted, max_depth - 1) {
                    let mut steps: Vec<PathPart> = vec![name.clone()];
                    let ghost head = steps@;
                    let mut behind: Vec<PathPart> = found;
                    let ghost tail = behind@;
                    steps.append(&mut behind);
                    assert(steps@ == head + tail);
                    assert(path::part_views(steps@) =~= seq![name@] + path::part_views(tail));
                    return Some(steps);
                }
            },
        }
        i = i + 1;
    }
    assert(entries@.skip(i as int).len() == 0);
    None
}

/// A package of the store, by its name: whether its directory for this
/// processor holds the debugger engine, whether it holds the recorder, and
/// what else it holds.
#[derive(Debug)]
pub struct StorePackage {
    pub name: String,
    pub arch_has_dbgeng: bool,
    pub has_ttd: bool,
    pub entries: Vec<TreeEntry>,
}

/// How deep a package is searched.
pub const PACKAGE_DEPTH: usize = 4;

/// Where a package holds the debugger engine, by steps: in its directory for
/// this processor, or else in the directory of the first one that is found.
pub open spec fn package_steps(package: StorePackage, arch: Arch) -> Option<Seq<path::PartView>> {
    if package.arch_has_dbgeng {
        Some(
            seq![
                path::PartView::Normal(package.name@),
                path::PartView::Normal(arch.runtime_name()),
            ],
        )
    } else {
        match first_file(package.entries@, "dbgeng.dll"@, PACKAGE_DEPTH as nat) {
            Some(found) => Some(seq![path::PartView::Normal(package.name@)] + found.drop_last()),
            None => None,
        }
    }
}

/// A file that was found is at least one step away.
proof fn lemma_found_files_have_steps(entries: Seq<TreeEntry>, wanted: Seq<char>, max_depth: nat)
    ensures
        first_file(entries, wanted, max_depth) matches Some(found) ==> found.len() > 0,
    decreases max_depth, entries.len(),
{
    if max_depth > 0 && entries.len() > 0 {
        match entries[0] {
            TreeEntry::File { name } => {
                lemma_found_files_have_steps(entries.drop_first(), wanted, max_depth);
            },
            TreeEntry::Dir { name, entries: inner } => {
                lemma_found_files_have_steps(entries.drop_first(), wanted, max_depth);
            },
        }
    }
}

fn package_dir(root: &HostPath, package: &StorePackage, arch: Arch) -> (dir: Option<ToolDir>)
    ensures
        match (package_steps(*package, arch), dir) {
            (Some(steps), Some(found)) => found@ == dir_below(root@, steps),
            (None, None) => true,
            _ => false,
        },
{
    if package.arch_has_dbgeng {
        let dir: ToolDir = ToolDir::at(root).join(package.name.as_str()).join(
            arch.windbg_runtime_arch(),
        );
        assert(dir@ =~= dir_below(root@, package_steps(*package, arch)->0));
        return Some(dir);
    }
    proof {
        lemma_found_files_have_steps(package.entries@, "dbgeng.dll"@, PACKAGE_DEPTH as nat);
    }
    match find_file_limited(&package.entries, "dbgeng.dll", PACKAGE_DEPTH) {
        None => None,
        Some(found) => {
            let mut behind: Vec<PathPart> = found;
            let ghost views = path::part_views(behind@);
            assert(behind@.len() == views.len());
            behind.pop();
            assert(path::part_views(behind@) =~= views.drop_last());
            let mut steps: Vec<PathPart> = vec![PathPart::Normal(package.name.clone())];
            let ghost tail = behind@;
            steps.append(&mut behind);
            let dir: ToolDir = ToolDir { root: root.clone(), steps };
            assert(path::part_views(steps@) =~= seq![path::PartView::Normal(package.name@)]
                + path::part_views(tail));
            Some(dir)
        },
    }
}

/// The package is of a kind, by how its name begins.
pub open spec fn is_package(package: StorePackage, prefix: Seq<char>) -> bool {
    prefix.is_prefix_of(package.name@)
}

pub const WINDBG_PACKAGE: &'static str = "Microsoft.WinDbg";

pub const TTD_PACKAGE: &'static str = "Microsoft.TimeTravelDebugging";

/// The package gives the debugger engine.
pub open spec fn gives_dbgeng(package: StorePackage, arch: Arch) -> bool {
    is_package(package, WINDBG_PACKAGE@) && package_steps(package, arch) is Some
}

/// The package gives the recorder.
pub open spec fn gives_ttd(package: StorePackage) -> bool {
    is_package(package, TTD_PACKAGE@) && package.has_ttd
}

/// The debugger engine of the store: that of the package whose name comes last
/// among those that hold one.
pub fn find_store_dbgeng_dir(root: &HostPath, packages: &Vec<StorePackage>, arch: Arch) -> (dir:
    Option<ToolDir>)
    ensures
        match dir {
            Some(found) => exists|i: int|
                {
                    &&& 0 <= i < packages@.len()
                    &&& gives_dbgeng(#[trigger] packages@[i], arch)
                    &&& found@ == dir_below(root@, package_steps(packages@[i], arch)->0)
                    &&& forall|k: int|
                        0 <= k < packages@.len() && gives_dbgeng(#[trigger] packages@[k], arch)
                            ==> !text::precedes(packages@[i].name@, packages@[k].name@)
                },
            None => forall|k: int|
                0 <= k < packages@.len() ==> !gives_dbgeng(#[trigger] packages@[k], arch),
        },
{
    let mut best: Option<usize> = None;
    let mut i: usize = 0;
    while i < packages.len()
        invariant
            i <= packages.len(),
            match best {
                Some(at) => {
                    &&& at < i
                    &&& gives_dbgeng(packages@[at as int], arch)
                    &&& forall|k: int|
                        0 <= k < i && gives_dbgeng(#[trigger] packages@[k], arch)
                            ==> !text::precedes(packages@[at as int].name@, packages@[k].name@)
                },
                None => forall|k: int|
                    0 <= k < i ==> !gives_dbgeng(#[trigger] packages@[k], arch),
            },
        decreases packages.len() - i,
    {
        let ghost before = best;
        if text::starts_with(packages[i].name.as_str(), WINDBG_PACKAGE) && package_dir(
            root,
            &packages[i],
            arch,
        ).is_some() {
            let later: bool = match best {
                None => true,
                Some(at) => !text::text_precedes(
                    packages[i].name.as_str(),
                    packages[at].name.as_str(),
                ),
            };
            if later {
                best = Some(i);
                proof {
                    text::law_texts_are_ordered(
                        packages@[i as int].name@,
                        packages@[i as int].name@,
                    );
                    if let Some(at) = before {
                        assert forall|k: int|
                            0 <= k < i && gives_dbgeng(
                                #[trigger] packages@[k],
                                arch,
                            ) implies !text::precedes(
                            packages@[i as int].name@,
                            packages@[k].name@,
                        ) by {
                            text::lemma_order_is_transitive(
                                packages@[k].name@,
                                packages@[at as int].name@,
                                packages@[i as int].name@,
                            );
                        }
                    }
                }
            } else {
                proof {
                    let at = before->0;
                    text::law_texts_are_ordered(
                        packages@[i as int].name@,
                        packages@[at as int].name@,
                    );
                }
            }
        }
        i = i + 1;
    }
    match best {
        None => None,
        Some(at) => {
            let dir: Option<ToolDir> = package_dir(root, &packages[at], arch);
            assert(gives_dbgeng(packages@[at as int], arch));
            dir
        },
    }
}

/// The recorder of the store: that of the package whose name comes last among
/// those that hold one.
pub fn find_store_ttd_dir(root: &HostPath, packages: &Vec<StorePackage>) -> (dir: Option<ToolDir>)
    ensures
        match dir {
            Some(found) => exists|i: int|
                {
                    &&& 0 <= i < packages@.len()
                    &&& gives_ttd(#[trigger] packages@[i])
                    &&& found@ == dir_below(root@, seq![]).join(packages@[i].name@)
                    &&& forall|k: int|
                        0 <= k < packages@.len() && gives_ttd(#[trigger] packages@[k])
                            ==> !text::precedes(packages@[i].name@, packages@[k].name@)
                },
            None => forall|k: int| 0 <= k < packages@.len() ==> !gives_ttd(#[trigger] packages@[k]),
        },
{
    let mut best: Option<usize> = None;
    let mut i: usize = 0;
    while i < packages.len()
        invariant
            i <= packages.len(),
            match best {
                Some(at) => {
                    &&& at < i
                    &&& gives_ttd(packages@[at as int])
                    &&& forall|k: int|
                        0 <= k < i && gives_ttd(#[trigger] packages@[k]) ==> !text::precedes(
                            packages@[at as int].name@,
                            packages@[k].name@,
                        )
                },
                None => forall|k: int| 0 <= k < i ==> !gives_ttd(#[trigger] packages@[k]),
            },
        decreases packages.len() - i,
    {
        let ghost before = best;
        if text::starts_with(packages[i].name.as_str(), TTD_PACKAGE) && packages[i].has_ttd {
            let later: bool = match best {
                None => true,
                Some(at) => !text::text_precedes(
                    packages[i].name.as_str(),
                    packages[at].name.as_str(),
                ),
            };
            if later {
                best = Some(i);
                proof {
                    text::law_texts_are_ordered(
                        packages@[i as int].name@,
                        packages@[i as int].name@,
                    );
                    if let Some(at) = before {
                        assert forall|k: int|
                            0 <= k < i && gives_ttd(
                                #[trigger] packages@[k],
                            ) implies !text::precedes(
                            packages@[i as int].name@,
                            packages@[k].name@,
                        ) by {
                            text::lemma_order_is_transitive(
                                packages@[k].name@,
                                packages@[at as int].name@,
                                packages@[i as int].name@,
                            );
                        }
                    }
                }
            } else {
                proof {
                    let at = before->0;
                    text::law_texts_are_ordered(
                        packages@[i as int].name@,
                        packages@[at as int].name@,
                    );
                }
            }
        }
        i = i + 1;
    }
    match best {
        None => None,
        Some(at) => {
            let dir: ToolDir = ToolDir::at(root).join(packages[at].name.as_str());
            assert(gives_ttd(packages@[at as int]));
            Some(dir)
        },
    }
}

/// An SDK: whether its directory for this processor holds the debugger engine,
/// and whether its root does.
#[derive(Debug)]
pub struct SdkRoot {
    pub root: HostPath,
    pub arch_has_dbgeng: bool,
    pub root_has_dbgeng: bool,
}

/// Where an SDK holds the debugger engine, if it does.
pub open spec fn sdk_dir(sdk: SdkRoot, arch: Arch) -> Option<DirView> {
    if sdk.arch_has_dbgeng {
        Some(dir_below(sdk.root@, seq![]).join("Debuggers"@).join(arch.debugger_name()))
    } else if sdk.root_has_dbgeng {
        Some(dir_below(sdk.root@, seq![]))
    } else {
        None
    }
}

/// Where the first SDK that holds the debugger engine holds it.
pub open spec fn first_sdk_dir(sdks: Seq<SdkRoot>, arch: Arch) -> Option<DirView>
    decreases sdks.len(),
{
    if sdks.len() == 0 {
        None
    } else if sdk_dir(sdks[0], arch) is Some {
        sdk_dir(sdks[0], arch)
    } else {
        first_sdk_dir(sdks.drop_first(), arch)
    }
}

/// The debugger engine of the first SDK that holds it.
#[verifier::loop_isolation(false)]
pub fn find_sdk_dbgeng_dir(sdks: &Vec<SdkRoot>, arch: Arch) -> (dir: Option<ToolDir>)
    ensures
        match dir {
            Some(found) => first_sdk_dir(sdks@, arch) == Some(found@),
            None => first_sdk_dir(sdks@, arch) is None,
        },
{
    let mut i: usize = 0;
    assert(sdks@.skip(0) =~= sdks@);
    while i < sdks.len()
        invariant
            i <= sdks.len(),
            first_sdk_dir(sdks@, arch) == first_sdk_dir(sdks@.skip(i as int), arch),
        decreases sdks.len() - i,
    {
        assert(sdks@.skip(i as int)[0] == sdks@[i as int]);
        assert(sdks@.skip(i as int).drop_first() =~= sdks@.skip(i + 1));
        if sdks[i].arch_has_dbgeng {
            let dir: ToolDir = ToolDir::at(&sdks[i].root).join("Debuggers").join(
                arch.debugger_arch(),
            );
            assert(dir@ == sdk_dir(sdks@[i as int], arch)->0);
            return Some(dir);
        }
        if sdks[i].root_has_dbgeng {
            return Some(ToolDir::at(&sdks[i].root));
        }
        i = i + 1;
    }
    assert(sdks@.skip(i as int).len() == 0);
    None
}

/// What the host says of the places where the debugger engine may be.
#[derive(Debug)]
pub struct DbgEngPlaces {
    /// The directory of this tool's own copy, and what it holds.
    pub runtime_dir: HostPath,
    pub runtime_has_dbgeng: bool,
    pub runtime_has_ttd: bool,
    /// The store's directory, and its packages.
    pub windows_apps: HostPath,
    pub packages: Vec<StorePackage>,
    pub sdks: Vec<SdkRoot>,
    pub system_root: HostPath,
    pub system_has_dbgeng: bool,
    pub arch: Arch,
}

/// A location is added behind the others, unless its directory is among them.
pub open spec fn with_location(
    locations: Seq<LocationView>,
    dir: DirView,
    source: ToolPathSource,
) -> Seq<LocationView> {
    if exists|i: int|
        0 <= i < locations.len() && (#[trigger] locations[i]).dir.key() == dir.key() {
        locations
    } else {
        locations.push(LocationView { dir, source })
    }
}

/// A location that may have been found is added.
pub open spec fn with_found(
    locations: Seq<LocationView>,
    dir: Option<DirView>,
    source: ToolPathSource,
) -> Seq<LocationView> {
    match dir {
        Some(found) => with_location(locations, found, source),
        None => locations,
    }
}

fn push_tool_location(locations: &mut Vec<ToolLocation>, dir: ToolDir, source: ToolPathSource)
    ensures
        location_views(final(locations)@) == with_location(
            location_views(old(locations)@),
            dir@,
            source,
        ),
{
    let ghost before = location_views(locations@);
    let mut i: usize = 0;
    while i < locations.len()
        invariant
            i <= locations.len(),
            locations@ == old(locations)@,
            before == location_views(locations@),
            forall|k: int| 0 <= k < i ==> (#[trigger] before[k]).dir.key() != dir@.key(),
        decreases locations.len() - i,
    {
        assert(before[i as int] == locations@[i as int]@);
        if locations[i].dir.same(&dir) {
            assert(before[i as int].dir.key() == dir@.key());
            return;
        }
        i = i + 1;
    }
    locations.push(ToolLocation { dir, source });
    assert(location_views(locations@) =~= before.push(LocationView { dir: dir@, source }));
}

/// A directory that may have been found, as contracts speak of it.
pub open spec fn dir_view(dir: Option<ToolDir>) -> Option<DirView> {
    match dir {
        Some(found) => Some(found@),
        None => None,
    }
}

/// The debugger engine of the store, as its contract allows.
pub open spec fn store_outcome(places: DbgEngPlaces, found: Option<DirView>) -> bool {
    let packages = places.packages@;
    match found {
        Some(dir) => exists|i: int|
            {
                &&& 0 <= i < packages.len()
                &&& gives_dbgeng(#[trigger] packages[i], places.arch)
                &&& dir == dir_below(
                    places.windows_apps@,
                    package_steps(packages[i], places.arch)->0,
                )
                &&& forall|k: int|
                    0 <= k < packages.len() && gives_dbgeng(#[trigger] packages[k], places.arch)
                        ==> !text::precedes(packages[i].name@, packages[k].name@)
            },
        None => forall|k: int|
            0 <= k < packages.len() ==> !gives_dbgeng(#[trigger] packages[k], places.arch),
    }
}

/// The candidates for the debugger engine: this tool's own copy, where it is
/// complete, then the store, then an SDK, then the system.
pub open spec fn candidates_of(places: DbgEngPlaces, store: Option<DirView>) -> Seq<LocationView> {
    let installed = if places.runtime_has_dbgeng && places.runtime_has_ttd {
        Some(dir_below(places.runtime_dir@, seq![]))
    } else {
        None
    };
    let system = if places.system_has_dbgeng {
        Some(dir_below(places.system_root@, seq![]).join("System32"@))
    } else {
        None
    };
    with_found(
        with_found(
            with_found(
                with_found(seq![], installed, ToolPathSource::DbgAtlasInstall),
                store,
                ToolPathSource::AppStore,
            ),
            first_sdk_dir(places.sdks@, places.arch),
            ToolPathSource::WindowsSdk,
        ),
        system,
        ToolPathSource::System32,
    )
}

/// The candidates for the debugger engine.
pub fn resolve_dbgeng_dirs_from_roots(places: &DbgEngPlaces) -> (candidates: Vec<ToolLocation>)
    ensures
        exists|store: Option<DirView>|
            #[trigger] store_outcome(*places, store) && location_views(candidates@)
                == candidates_of(*places, store),
{
    let mut locations: Vec<ToolLocation> = Vec::new();
    assert(location_views(locations@) =~= seq![]);
    if places.runtime_has_dbgeng && places.runtime_has_ttd {
        push_tool_location(
            &mut locations,
            ToolDir::at(&places.runtime_dir),
            ToolPathSource::DbgAtlasInstall,
        );
    }
    let store: Option<ToolDir> = find_store_dbgeng_dir(
        &places.windows_apps,
        &places.packages,
        places.arch,
    );
    let ghost found = dir_view(store);
    assert(store_outcome(*places, found));
    if let Some(dir) = store {
        push_tool_location(&mut locations, dir, ToolPathSource::AppStore);
    }
    if let Some(dir) = find_sdk_dbgeng_dir(&places.sdks, places.arch) {
        push_tool_location(&mut locations, dir, ToolPathSource::WindowsSdk);
    }
    if places.system_has_dbgeng {
        push_tool_location(
            &mut locations,
            ToolDir::at(&places.system_root).join("System32"),
            ToolPathSource::System32,
        );
    }
    assert(location_views(locations@) == candidates_of(*places, found));
    locations
}

/// The recorder: beside the first candidate that has one, or else that of the
/// store. `siblings` says of each candidate whether it has one.
pub fn resolve_ttd_dir_from_roots(
    candidates: &Vec<ToolLocation>,
    siblings: &Vec<bool>,
    windows_apps: &HostPath,
    packages: &Vec<StorePackage>,
) -> (location: Option<ToolLocation>)
    requires
        siblings@.len() == candidates@.len(),
    ensures
        match location {
            Some(found) => if siblings@.contains(true) {
                &&& found.source == ToolPathSource::DbgEngSibling
                &&& exists|i: int|
                    {
                        &&& 0 <= i < candidates@.len()
                        &&& #[trigger] siblings@[i]
                        &&& found.dir@ == candidates@[i].dir@.join("ttd"@)
                        &&& forall|k: int| 0 <= k < i ==> !#[trigger] siblings@[k]
                    }
            } else {
                &&& found.source == ToolPathSource::AppStore
                &&& exists|i: int|
                    {
                        &&& 0 <= i < packages@.len()
                        &&& gives_ttd(#[trigger] packages@[i])
                        &&& found.dir@ == dir_below(windows_apps@, seq![]).join(
                            packages@[i].name@,
                        )
                        &&& forall|k: int|
                            0 <= k < packages@.len() && gives_ttd(#[trigger] packages@[k])
                                ==> !text::precedes(packages@[i].name@, packages@[k].name@)
                    }
            },
            None => !siblings@.contains(true) && forall|k: int|
                0 <= k < packages@.len() ==> !gives_ttd(#[trigger] packages@[k]),
        },
{
    let mut i: usize = 0;
    while i < candidates.len()
        invariant
            siblings@.len() == candidates@.len(),
            i <= candidates.len(),
            forall|k: int| 0 <= k < i ==> !#[trigger] siblings@[k],
        decreases candidates.len() - i,
    {
        if siblings[i] {
            assert(siblings@[i as int]);
            let dir: ToolDir = candidates[i].dir.clone().join("ttd");
            return Some(ToolLocation { dir, source: ToolPathSource::DbgEngSibling });
        }
        i = i + 1;
    }
    match find_store_ttd_dir(windows_apps, packages) {
        Some(dir) => Some(ToolLocation { dir, source: ToolPathSource::AppStore }),
        None => None,
    }
}

/// The rank of a source: the earlier, the more it is trusted to fit.
pub open spec fn rank(source: ToolPathSource) -> int {
    match source {
        ToolPathSource::DbgAtlasInstall => 0,
        ToolPathSource::AppStore => 1,
        ToolPathSource::WindowsSdk => 2,
        ToolPathSource::System32 => 3,
        ToolPathSource::DbgEngSibling => 4,
    }
}

/// The locations are all different, and in the order of their sources, each
/// below a rank.
pub open spec fn in_order(locations: Seq<LocationView>, below: int) -> bool {
    &&& forall|i: int, k: int|
        0 <= i < k < locations.len() ==> (#[trigger] locations[i]).dir.key() != (
        #[trigger] locations[k]).dir.key() && rank(locations[i].source) < rank(locations[k].source)
    &&& forall|i: int|
        0 <= i < locations.len() ==> rank((#[trigger] locations[i]).source) < below
}

proof fn lemma_stays_in_order(
    locations: Seq<LocationView>,
    dir: Option<DirView>,
    source: ToolPathSource,
)
    requires
        in_order(locations, rank(source)),
    ensures
        in_order(with_found(locations, dir, source), rank(source) + 1),
{
}

/// The candidates for the debugger engine are all different, and come in the
/// order of preference: this tool's own copy, the store, an SDK, the system.
/// An own copy that is complete is always the first.
pub proof fn law_candidates_are_in_order(
    places: DbgEngPlaces,
    store: Option<DirView>,
)
    ensures
        in_order(candidates_of(places, store), 4),
        places.runtime_has_dbgeng && places.runtime_has_ttd ==> candidates_of(places, store).len()
            > 0 && candidates_of(places, store)[0] == (LocationView {
            dir: dir_below(places.runtime_dir@, seq![]),
            source: ToolPathSource::DbgAtlasInstall,
        }),
        !(places.runtime_has_dbgeng && places.runtime_has_ttd) ==> forall|i: int|
            0 <= i < candidates_of(places, store).len() ==> (#[trigger] candidates_of(
                places,
                store,
            )[i]).source != ToolPathSource::DbgAtlasInstall,
{
    let none = Seq::<LocationView>::empty();
    let installed = if places.runtime_has_dbgeng && places.runtime_has_ttd {
        Some(dir_below(places.runtime_dir@, seq![]))
    } else {
        None
    };
    let system = if places.system_has_dbgeng {
        Some(dir_below(places.system_root@, seq![]).join("System32"@))
    } else {
        None
    };
    let sdk = first_sdk_dir(places.sdks@, places.arch);
    let first = with_found(none, installed, ToolPathSource::DbgAtlasInstall);
    let second = with_found(first, store, ToolPathSource::AppStore);
    let third = with_found(second, sdk, ToolPathSource::WindowsSdk);
    lemma_stays_in_order(none, installed, ToolPathSource::DbgAtlasInstall);
    lemma_stays_in_order(first, store, ToolPathSource::AppStore);
    lemma_stays_in_order(second, sdk, ToolPathSource::WindowsSdk);
    lemma_stays_in_order(third, system, ToolPathSource::System32);
}

/// What the host's environment says of its directories.
#[derive(Debug)]
pub struct HostEnvironment {
    pub program_data: Option<HostPath>,
    pub program_files: Option<HostPath>,
    pub program_files_x86: Option<HostPath>,
    pub system_root: Option<HostPath>,
    pub windows_sdk_dir: Option<HostPath>,
    pub wdk_content_root: Option<HostPath>,
    pub windows_sdk_executable_path_x64: Option<HostPath>,
}

/// Where tools are searched for.
#[derive(Debug)]
pub struct ToolSearchRoots {
    pub dbgatlas_windbg_runtime_dir: JoinedPath,
    pub program_files_windows_apps: JoinedPath,
    pub windows_kits_roots: Vec<JoinedPath>,
    pub system_root: JoinedPath,
}

/// A path below what the environment says, or below a default that the host
/// reads from a text.
pub open spec fn is_below(
    found: path::JoinedView,
    given: Option<HostPath>,
    default: Seq<char>,
    names: Seq<Seq<char>>,
) -> bool {
    &&& match given {
        Some(base) => found.base == base@,
        None => found.base.text == default && found.base.raw is None,
    }
    &&& found.names == names
}

fn directory(given: &Option<HostPath>, default: &str) -> (found: JoinedPath)
    ensures
        is_below(found@, *given, default@, seq![]),
{
    match given {
        Some(base) => JoinedPath::at(base),
        None => {
            let base: HostPath = HostPath::new(default);
            JoinedPath::at(&base)
        },
    }
}

/// The directory of this tool's own copy of the debugger engine.
pub fn default_dbgatlas_windbg_runtime_dir(program_data: &Option<HostPath>, arch: Arch) -> (dir:
    JoinedPath)
    ensures
        is_below(
            dir@,
            *program_data,
            "C:\\ProgramData"@,
            seq!["DbgAtlas"@, "rt"@, "windbg"@, arch.runtime_name()],
        ),
{
    let dir: JoinedPath = directory(program_data, "C:\\ProgramData").join("DbgAtlas").join(
        "rt",
    ).join("windbg").join(arch.windbg_runtime_arch());
    assert(dir@.names =~= seq!["DbgAtlas"@, "rt"@, "windbg"@, arch.runtime_name()]);
    dir
}

/// The roots of the environment's SDKs that are given, in order.
pub open spec fn given_roots(environment: HostEnvironment) -> Seq<HostPath> {
    let first = match environment.windows_sdk_dir {
        Some(root) => seq![root],
        None => seq![],
    };
    let second = match environment.wdk_content_root {
        Some(root) => first.push(root),
        None => first,
    };
    match environment.windows_sdk_executable_path_x64 {
        Some(root) => second.push(root),
        None => second,
    }
}

/// Where tools are searched for.
pub fn tool_search_roots(environment: HostEnvironment, arch: Arch) -> (roots: ToolSearchRoots)
    ensures
        is_below(
            roots.dbgatlas_windbg_runtime_dir@,
            environment.program_data,
            "C:\\ProgramData"@,
            seq!["DbgAtlas"@, "rt"@, "windbg"@, arch.runtime_name()],
        ),
        is_below(
            roots.program_files_windows_apps@,
            environment.program_files,
            "C:\\Program Files"@,
            seq!["WindowsApps"@],
        ),
        is_below(roots.system_root@, environment.system_root, "C:\\Windows"@, seq![]),
        ({
            let given = given_roots(environment);
            let kits = roots.windows_kits_roots@;
            &&& kits.len() == given.len() + 2
            &&& forall|i: int|
                0 <= i < given.len() ==> (#[trigger] kits[i])@ == (path::JoinedView {
                    base: given[i]@,
                    names: seq![],
                })
            &&& is_below(
                kits[given.len() as int]@,
                environment.program_files_x86,
                "C:\\Program Files (x86)"@,
                seq!["Windows Kits"@, "10"@],
            )
            &&& is_below(
                kits[given.len() as int + 1]@,
                environment.program_files,
                "C:\\Program Files"@,
                seq!["Windows Kits"@, "10"@],
            )
        }),
{
    let mut kits: Vec<JoinedPath> = Vec::new();
    if let Some(root) = &environment.windows_sdk_dir {
        kits.push(JoinedPath::at(root));
    }
    if let Some(root) = &environment.wdk_content_root {
        kits.push(JoinedPath::at(root));
    }
    if let Some(root) = &environment.windows_sdk_executable_path_x64 {
        kits.push(JoinedPath::at(root));
    }
    let x86_kit: JoinedPath = directory(
        &environment.program_files_x86,
        "C:\\Program Files (x86)",
    ).join("Windows Kits").join("10");
    assert(x86_kit@.names =~= seq!["Windows Kits"@, "10"@]);
    kits.push(x86_kit);
    let kit: JoinedPath = directory(&environment.program_files, "C:\\Program Files").join(
        "Windows Kits",
    ).join("10");
    assert(kit@.names =~= seq!["Windows Kits"@, "10"@]);
    kits.push(kit);
    let apps: JoinedPath = directory(&environment.program_files, "C:\\Program Files").join(
        "WindowsApps",
    );
    assert(apps@.names =~= seq!["WindowsApps"@]);
    ToolSearchRoots {
        dbgatlas_windbg_runtime_dir: default_dbgatlas_windbg_runtime_dir(
            &environment.program_data,
            arch,
        ),
        program_files_windows_apps: apps,
        windows_kits_roots: kits,
        system_root: directory(&environment.system_root, "C:\\Windows"),
    }
}

/// The debugger engine of the store.
pub fn resolve_store_windbg_dbgeng_dir(
    windows_apps: &HostPath,
    packages: &Vec<StorePackage>,
    arch: Arch,
) -> (dir: Option<ToolDir>)
    ensures
        match dir {
            Some(found) => exists|i: int|
                {
                    &&& 0 <= i < packages@.len()
                    &&& gives_dbgeng(#[trigger] packages@[i], arch)
                    &&& found@ == dir_below(windows_apps@, package_steps(packages@[i], arch)->0)
                    &&& forall|k: int|
                        0 <= k < packages@.len() && gives_dbgeng(#[trigger] packages@[k], arch)
                            ==> !text::precedes(packages@[i].name@, packages@[k].name@)
                },
            None => forall|k: int|
                0 <= k < packages@.len() ==> !gives_dbgeng(#[trigger] packages@[k], arch),
        },
{
    find_store_dbgeng_dir(windows_apps, packages, arch)
}

} // verus!
