//! Laws on the runtime configuration and on the search for tools.

use crate::laws::text::{all_white, comes_before, same_letter, some_control};
use crate::path::{HostPath, JoinedPath, PartView, PathPart};
use crate::runtime::{
    default_bind, default_dbgatlas_windbg_runtime_dir, find_file_limited, find_sdk_dbgeng_dir,
    find_store_dbgeng_dir, find_store_ttd_dir, resolve_dbgeng_dirs_from_roots,
    resolve_store_windbg_dbgeng_dir, resolve_tool_paths, resolve_ttd_dir_from_roots,
    tool_search_roots, Arch, BindAddr, BindHost, ChildIdentity, DbgEngPlaces, FallbackChildIdentity,
    HostEnvironment, IdaRuntimeConfig, ProcessLaunchPolicy, ProxyConfig, ProxyVariables,
    ResolvedToolPaths, RuntimeConfig, RuntimeConfigError, SdkRoot, ServerRuntimeConfig,
    StorePackage, ToolDir, ToolLocation, ToolRuntimeConfig, ToolPathSource, ToolSearchRoots,
    TreeEntry,
};
use crate::{laws, path, runtime, text};
use vstd::prelude::*;
use vstd::string::*;

verus! {

/// A text that can be handed to tools.
pub open spec fn plain(text: Seq<char>) -> bool {
    !all_white(text) && !some_control(text)
}

/// A path that is given can be handed to tools.
pub open spec fn plain_path(given: Option<HostPath>) -> bool {
    given matches Some(found) ==> plain(found@.text)
}

/// Only this machine reaches the address.
pub open spec fn is_local(host: BindHost) -> bool {
    match host {
        BindHost::V4(octets) => octets@[0] == 127,
        BindHost::V6(segments) => segments@[0] == 0 && segments@[1] == 0 && segments@[2] == 0
            && segments@[3] == 0 && segments@[4] == 0 && segments@[5] == 0 && segments@[6] == 0
            && segments@[7] == 1,
    }
}

/// The variables that may be set.
pub open spec fn is_proxy_key(key: Seq<char>) -> bool {
    ||| key == "_NT_SYMBOL_PROXY"@
    ||| key == "HTTP_PROXY"@ || key == "HTTPS_PROXY"@ || key == "ALL_PROXY"@ || key == "NO_PROXY"@
    ||| key == "http_proxy"@ || key == "https_proxy"@ || key == "all_proxy"@ || key == "no_proxy"@
}

/// The proxy can be handed on.
pub open spec fn plain_proxy(proxy: ProxyConfig) -> bool {
    match proxy {
        ProxyConfig::Unset => true,
        ProxyConfig::Disabled => true,
        ProxyConfig::Url { url } => plain(url@),
        ProxyConfig::Env { variables } => forall|i: int|
            0 <= i < variables@.len() ==> is_proxy_key((#[trigger] variables@[i]).0@) && plain(
                variables@[i].1@,
            ),
    }
}

/// The configuration keeps the service to this machine and hands on nothing
/// that is blank or breaks a line.
pub open spec fn is_safe(config: RuntimeConfig) -> bool {
    &&& config.version == 1
    &&& is_local(config.server.bind.host)
    &&& config.tools.symbol_path matches Some(symbols) ==> plain(symbols@)
    &&& plain_path(config.tools.ida.install_dir)
    &&& plain_path(config.tools.ida.python_executable)
    &&& plain_path(config.tools.ida.vendor_src_dir)
    &&& plain_proxy(config.proxy)
}

/// The text is refused for what the error says.
pub open spec fn is_unusable(error: RuntimeConfigError, text: Seq<char>, field: Seq<char>) -> bool {
    match error {
        RuntimeConfigError::EmptyValue { field: named } => named@ == field && all_white(text),
        RuntimeConfigError::ControlCharacters { field: named } => named@ == field && !all_white(
            text,
        ) && some_control(text),
        _ => false,
    }
}

/// The error names what is wrong with the configuration.
pub open spec fn blames(error: RuntimeConfigError, config: RuntimeConfig) -> bool {
    match error {
        RuntimeConfigError::UnsupportedVersion { actual, expected } => actual == config.version
            && expected == 1,
        RuntimeConfigError::NonLoopbackBind(bind) => bind == config.server.bind,
        RuntimeConfigError::UnsupportedProxyKey(key) => blames_key(key, config.proxy),
        _ => {
            ||| config.tools.symbol_path is Some && is_unusable(
                error,
                config.tools.symbol_path->0@,
                "tools.symbol_path"@,
            )
            ||| config.tools.ida.install_dir is Some && is_unusable(
                error,
                config.tools.ida.install_dir->0@.text,
                "tools.ida.install_dir"@,
            )
            ||| config.tools.ida.python_executable is Some && is_unusable(
                error,
                config.tools.ida.python_executable->0@.text,
                "tools.ida.python_executable"@,
            )
            ||| config.tools.ida.vendor_src_dir is Some && is_unusable(
                error,
                config.tools.ida.vendor_src_dir->0@.text,
                "tools.ida.vendor_src_dir"@,
            )
            ||| blames_proxy(error, config.proxy)
        },
    }
}

/// The key is one of the proxy's and may not be set.
pub open spec fn blames_key(key: String, proxy: ProxyConfig) -> bool {
    proxy is Env && !is_proxy_key(key@) && exists|i: int|
        0 <= i < proxy->variables@.len() && (#[trigger] proxy->variables@[i]).0 == key
}

/// The error names what is wrong with the proxy.
pub open spec fn blames_proxy(error: RuntimeConfigError, proxy: ProxyConfig) -> bool {
    ||| proxy is Url && is_unusable(error, proxy->url@, "proxy.url"@)
    ||| proxy is Env && exists|i: int|
        0 <= i < proxy->variables@.len() && is_unusable(
            error,
            (#[trigger] proxy->variables@[i]).1@,
            "proxy.env"@,
        )
}

/// A configuration is accepted, as it is, where it is safe, and is refused
/// otherwise; what could not be read is refused by why.
pub proof fn law_safe_configurations_are_accepted(
    config: RuntimeConfig,
    verdict: Result<(), RuntimeConfigError>,
    read: Result<RuntimeConfig, RuntimeConfigError>,
    file: HostPath,
    loaded: Result<RuntimeConfig, RuntimeConfigError>,
)
    requires
        call_ensures(RuntimeConfig::validate, (&config,), verdict),
        call_ensures(RuntimeConfig::from_toml_str, (Ok(config),), read),
        call_ensures(RuntimeConfig::load, (file, Ok(Ok(config))), loaded),
    ensures
        verdict is Ok <==> is_safe(config),
        read is Ok <==> is_safe(config),
        loaded is Ok <==> is_safe(config),
        read matches Ok(accepted) ==> accepted == config,
        loaded matches Ok(accepted) ==> accepted == config,
        verdict matches Err(error) ==> {
            &&& error is UnsupportedVersion <==> config.version != 1
            &&& error is NonLoopbackBind <==> config.version == 1 && !is_local(
                config.server.bind.host,
            )
            &&& blames(error, config)
        },
{
    lemma_local(config.server.bind.host);
    if let Some(symbols) = config.tools.symbol_path {
        lemma_plain(symbols@);
    }
    if let Some(found) = config.tools.ida.install_dir {
        lemma_plain(found@.text);
    }
    if let Some(found) = config.tools.ida.python_executable {
        lemma_plain(found@.text);
    }
    if let Some(found) = config.tools.ida.vendor_src_dir {
        lemma_plain(found@.text);
    }
    match config.proxy {
        ProxyConfig::Url { url } => {
            lemma_plain(url@);
        },
        ProxyConfig::Env { variables } => {
            lemma_variables(variables@, 0);
        },
        _ => {},
    }
}

proof fn lemma_local(host: BindHost)
    ensures
        runtime::loopback(host) == is_local(host),
{
    if let BindHost::V6(segments) = host {
        if is_local(host) {
            assert forall|i: int| 0 <= i < 7 implies #[trigger] segments@[i] == 0 by {}
        }
    }
}

proof fn lemma_plain(value: Seq<char>)
    ensures
        plain(value) == (!text::blank(value) && !text::has_control(value)),
        text::blank(value) == all_white(value),
        text::has_control(value) == some_control(value),
{
    laws::text::lemma_blank_is_white(value);
    laws::text::lemma_control_is_found(value);
}

proof fn lemma_proxy_key(key: Seq<char>)
    ensures
        runtime::known_proxy_key(key) == is_proxy_key(key),
{
    let known = runtime::KNOWN_PROXY_KEYS@;
    assert(known[0]@ == "_NT_SYMBOL_PROXY"@);
    assert(known[1]@ == "HTTP_PROXY"@);
    assert(known[2]@ == "HTTPS_PROXY"@);
    assert(known[3]@ == "ALL_PROXY"@);
    assert(known[4]@ == "NO_PROXY"@);
    assert(known[5]@ == "http_proxy"@);
    assert(known[6]@ == "https_proxy"@);
    assert(known[7]@ == "all_proxy"@);
    assert(known[8]@ == "no_proxy"@);
}

proof fn lemma_variables(variables: Seq<(String, String)>, from: int)
    requires
        0 <= from <= variables.len(),
    ensures
        runtime::variables_refusal(variables, from) is None <==> forall|i: int|
            from <= i < variables.len() ==> is_proxy_key((#[trigger] variables[i]).0@) && plain(
                variables[i].1@,
            ),
        runtime::variables_refusal(variables, from) matches Some(error) ==> match error {
            RuntimeConfigError::UnsupportedProxyKey(key) => !is_proxy_key(key@) && exists|i: int|
                from <= i < variables.len() && (#[trigger] variables[i]).0 == key,
            _ => exists|i: int|
                from <= i < variables.len() && is_unusable(
                    error,
                    (#[trigger] variables[i]).1@,
                    "proxy.env"@,
                ),
        },
    decreases variables.len() - from,
{
    if from < variables.len() {
        lemma_variables(variables, from + 1);
        assert(variables[from].0@ == variables[from].0@);
        lemma_proxy_key(variables[from].0@);
        lemma_plain(variables[from].1@);
    }
}

/// A service that is not told where listens where only this machine reaches
/// it.
pub proof fn law_services_listen_on_this_machine(bind: BindAddr, yes: bool, asked: BindAddr)
    requires
        call_ensures(default_bind, (), bind),
        call_ensures(BindAddr::is_loopback, (&asked,), yes),
    ensures
        is_local(bind.host),
        bind.port == 0,
        yes <==> is_local(asked.host),
{
    lemma_local(asked.host);
    lemma_local(bind.host);
}

/// A variable that is set is found with its value and stands once, no other is
/// changed, and all stand in the order of their keys.
pub proof fn law_variables_are_set(
    variables: ProxyVariables,
    key: String,
    value: String,
    set: ProxyVariables,
    other: Seq<char>,
)
    requires
        call_ensures(ProxyVariables::with, (variables, key, value), set),
    ensures
        runtime::value_under(set@, key@) == Some(value@),
        other != key@ ==> runtime::value_under(set@, other) == runtime::value_under(
            variables@,
            other,
        ),
        exists|i: int|
            0 <= i < set@.len() && (#[trigger] set@[i]).0@ == key@ && set@[i].1@ == value@,
        forall|i: int, k: int|
            0 <= i < k < set@.len() ==> comes_before(
                (#[trigger] set@[i]).0@,
                (#[trigger] set@[k]).0@,
            ),
{
    assert(runtime::value_under(set@, key@) == Some(value@));
    lemma_value_stands(set@, key@);
    assert forall|i: int, k: int| 0 <= i < k < set@.len() implies comes_before(
        (#[trigger] set@[i]).0@,
        (#[trigger] set@[k]).0@,
    ) by {
        laws::text::lemma_order_is_by_difference(set@[i].0@, set@[k].0@);
    }
}

proof fn lemma_value_stands(entries: Seq<(String, String)>, key: Seq<char>)
    ensures
        runtime::value_under(entries, key) matches Some(value) ==> exists|i: int|
            0 <= i < entries.len() && (#[trigger] entries[i]).0@ == key && entries[i].1@ == value,
    decreases entries.len(),
{
    if entries.len() > 0 {
        if entries.last().0@ == key {
            assert(entries[entries.len() - 1].0@ == key);
        } else {
            lemma_value_stands(entries.drop_last(), key);
            if let Some(value) = runtime::value_under(entries.drop_last(), key) {
                let i = choose|i: int|
                    0 <= i < entries.drop_last().len() && (
                    #[trigger] entries.drop_last()[i]).0@ == key && entries.drop_last()[i].1@
                        == value;
                assert(entries[i] == entries.drop_last()[i]);
            }
        }
    }
}

/// The name is the wanted one, but for the case of its ASCII letters.
pub open spec fn is_called(name: PartView, wanted: Seq<char>) -> bool {
    name matches PartView::Normal(text) && text.len() == wanted.len() && forall|i: int|
        0 <= i < text.len() ==> same_letter(#[trigger] text[i], wanted[i])
}

proof fn lemma_is_called(name: PartView, wanted: Seq<char>)
    ensures
        runtime::names_file(name, wanted) == is_called(name, wanted),
{
    if let PartView::Normal(found) = name {
        assert forall|i: int| 0 <= i < found.len() && found.len() == wanted.len() implies (
        text::ascii_lower(#[trigger] found[i]) == text::ascii_lower(wanted[i])) == same_letter(
            found[i],
            wanted[i],
        ) by {}
        if runtime::names_file(name, wanted) {
            assert forall|i: int| 0 <= i < found.len() implies same_letter(
                #[trigger] found[i],
                wanted[i],
            ) by {
                assert(text::ascii_lower(found[i]) == text::ascii_lower(wanted[i]));
            }
        }
        if is_called(name, wanted) {
            assert forall|i: int| 0 <= i < found.len() implies text::ascii_lower(
                #[trigger] found[i],
            ) == text::ascii_lower(wanted[i]) by {
                assert(same_letter(found[i], wanted[i]));
            }
        }
    }
}

/// The steps lead through directories to a file of that name.
pub open spec fn leads_to(
    entries: Seq<TreeEntry>,
    steps: Seq<PartView>,
    wanted: Seq<char>,
) -> bool
    decreases steps.len(),
{
    if steps.len() == 0 {
        false
    } else if steps.len() == 1 {
        exists|i: int|
            0 <= i < entries.len() && (#[trigger] entries[i] matches TreeEntry::File { name }
                && name@ == steps[0] && is_called(name@, wanted))
    } else {
        exists|i: int|
            0 <= i < entries.len() && (#[trigger] entries[i] matches TreeEntry::Dir {
                name,
                entries: inner,
            } && name@ == steps[0] && leads_to(inner@, steps.drop_first(), wanted))
    }
}

/// A file that is found is there: the steps lead to a file of that name, no
/// deeper than was allowed; and where none is found, none is there.
pub proof fn law_found_files_are_there(
    entries: Vec<TreeEntry>,
    wanted: &str,
    max_depth: usize,
    found: Option<Vec<PathPart>>,
    any: Seq<PartView>,
)
    requires
        call_ensures(find_file_limited, (&entries, wanted, max_depth), found),
    ensures
        found matches Some(steps) ==> leads_to(entries@, path::part_views(steps@), wanted@) && 1
            <= steps@.len() <= max_depth,
        found is None && any.len() <= max_depth ==> !leads_to(entries@, any, wanted@),
{
    lemma_first_file(entries@, wanted@, max_depth as nat);
    if found is None && any.len() <= max_depth && leads_to(entries@, any, wanted@) {
        lemma_file_is_found(entries@, wanted@, max_depth as nat, any);
    }
    if let Some(steps) = found {
        assert(path::part_views(steps@).len() == steps@.len());
    }
}

proof fn lemma_first_file(entries: Seq<TreeEntry>, wanted: Seq<char>, depth: nat)
    ensures
        runtime::first_file(entries, wanted, depth) matches Some(steps) ==> leads_to(
            entries,
            steps,
            wanted,
        ) && 1 <= steps.len() <= depth,
    decreases depth, entries.len(),
{
    if depth > 0 && entries.len() > 0 {
        let rest = entries.drop_first();
        lemma_first_file(rest, wanted, depth);
        match entries[0] {
            TreeEntry::File { name } => {
                lemma_is_called(name@, wanted);
                if runtime::names_file(name@, wanted) {
                    assert(entries[0] matches TreeEntry::File { name: found } && found@ == name@);
                } else {
                    lemma_leads_on(entries, wanted, depth);
                }
            },
            TreeEntry::Dir { name, entries: inner } => {
                lemma_first_file(inner@, wanted, (depth - 1) as nat);
                match runtime::first_file(inner@, wanted, (depth - 1) as nat) {
                    Some(steps) => {
                        let all = seq![name@] + steps;
                        assert(all.drop_first() =~= steps);
                        assert(entries[0] matches TreeEntry::Dir { name: found, .. } && found@
                            == all[0]);
                    },
                    None => {
                        lemma_leads_on(entries, wanted, depth);
                    },
                }
            },
        }
    }
}

proof fn lemma_leads_on(entries: Seq<TreeEntry>, wanted: Seq<char>, depth: nat)
    requires
        entries.len() > 0,
    ensures
        forall|steps: Seq<PartView>| #[trigger]
            leads_to(entries.drop_first(), steps, wanted) ==> leads_to(entries, steps, wanted),
{
    let rest = entries.drop_first();
    assert forall|steps: Seq<PartView>| #[trigger] leads_to(rest, steps, wanted) implies leads_to(
        entries,
        steps,
        wanted,
    ) by {
        if steps.len() == 1 {
            let i = choose|i: int|
                0 <= i < rest.len() && (#[trigger] rest[i] matches TreeEntry::File { name }
                    && name@ == steps[0] && is_called(name@, wanted));
            assert(entries[i + 1] == rest[i]);
        } else if steps.len() > 1 {
            let i = choose|i: int|
                0 <= i < rest.len() && (#[trigger] rest[i] matches TreeEntry::Dir {
                    name,
                    entries: inner,
                } && name@ == steps[0] && leads_to(inner@, steps.drop_first(), wanted));
            assert(entries[i + 1] == rest[i]);
        }
    }
}

proof fn lemma_file_is_found(
    entries: Seq<TreeEntry>,
    wanted: Seq<char>,
    depth: nat,
    steps: Seq<PartView>,
)
    requires
        leads_to(entries, steps, wanted),
        steps.len() <= depth,
    ensures
        runtime::first_file(entries, wanted, depth) is Some,
    decreases depth, entries.len(),
{
    let rest = entries.drop_first();
    if steps.len() == 1 {
        let i = choose|i: int|
            0 <= i < entries.len() && (#[trigger] entries[i] matches TreeEntry::File { name }
                && name@ == steps[0] && is_called(name@, wanted));
        if i == 0 {
            lemma_is_called(steps[0], wanted);
        } else {
            assert(rest[i - 1] == entries[i]);
            assert(leads_to(rest, steps, wanted));
            lemma_file_is_found(rest, wanted, depth, steps);
        }
    } else {
        let i = choose|i: int|
            0 <= i < entries.len() && (#[trigger] entries[i] matches TreeEntry::Dir {
                name,
                entries: inner,
            } && name@ == steps[0] && leads_to(inner@, steps.drop_first(), wanted));
        if i == 0 {
            lemma_file_is_found(
                entries[0]->entries@,
                wanted,
                (depth - 1) as nat,
                steps.drop_first(),
            );
        } else {
            assert(rest[i - 1] == entries[i]);
            assert(leads_to(rest, steps, wanted));
            lemma_file_is_found(rest, wanted, depth, steps);
        }
    }
}

/// The name that the store gives to a kind of processor.
pub open spec fn store_name(arch: Arch) -> Seq<char> {
    match arch {
        Arch::X86 => "x86"@,
        Arch::Arm64 => "arm64"@,
        Arch::X64 => "amd64"@,
    }
}

/// The debugger engine of the store is that of a WinDbg package that holds
/// one, in the package's own directory, and no such package has a later name;
/// there is none only where no package holds one.
pub proof fn law_the_latest_package_is_used(
    windows_apps: HostPath,
    packages: Vec<StorePackage>,
    arch: Arch,
    dir: Option<ToolDir>,
)
    requires
        call_ensures(resolve_store_windbg_dbgeng_dir, (&windows_apps, &packages, arch), dir),
    ensures
        dir matches Some(found) ==> exists|i: int|
            #![trigger packages@[i]]
            {
                &&& 0 <= i < packages@.len()
                &&& "Microsoft.WinDbg"@.is_prefix_of(packages@[i].name@)
                &&& found@.root == windows_apps@
                &&& found@.steps.len() > 0
                &&& found@.steps[0] == PartView::Normal(packages@[i].name@)
                &&& packages@[i].arch_has_dbgeng ==> found@.steps == seq![
                    PartView::Normal(packages@[i].name@),
                    PartView::Normal(store_name(arch)),
                ]
                &&& forall|k: int|
                    0 <= k < packages@.len() && "Microsoft.WinDbg"@.is_prefix_of(
                        (#[trigger] packages@[k]).name@,
                    ) && packages@[k].arch_has_dbgeng ==> !comes_before(
                        packages@[i].name@,
                        packages@[k].name@,
                    )
            },
        dir is None ==> forall|k: int|
            0 <= k < packages@.len() && "Microsoft.WinDbg"@.is_prefix_of(
                (#[trigger] packages@[k]).name@,
            ) ==> !packages@[k].arch_has_dbgeng,
{
    if let Some(found) = dir {
        let i = choose|i: int|
            {
                &&& 0 <= i < packages@.len()
                &&& runtime::gives_dbgeng(#[trigger] packages@[i], arch)
                &&& found@ == runtime::dir_below(
                    windows_apps@,
                    runtime::package_steps(packages@[i], arch)->0,
                )
                &&& forall|k: int|
                    0 <= k < packages@.len() && runtime::gives_dbgeng(
                        #[trigger] packages@[k],
                        arch,
                    ) ==> !text::precedes(packages@[i].name@, packages@[k].name@)
            };
        assert forall|k: int|
            0 <= k < packages@.len() && "Microsoft.WinDbg"@.is_prefix_of(
                (#[trigger] packages@[k]).name@,
            ) && packages@[k].arch_has_dbgeng implies !comes_before(
            packages@[i].name@,
            packages@[k].name@,
        ) by {
            assert(runtime::gives_dbgeng(packages@[k], arch));
            laws::text::lemma_order_is_by_difference(packages@[i].name@, packages@[k].name@);
        }
        assert(packages@[i].name@ == packages@[i].name@);
    } else {
        assert forall|k: int|
            0 <= k < packages@.len() && "Microsoft.WinDbg"@.is_prefix_of(
                (#[trigger] packages@[k]).name@,
            ) implies !packages@[k].arch_has_dbgeng by {
            assert(!runtime::gives_dbgeng(packages@[k], arch));
        }
    }
}

/// The name that an SDK gives to a kind of processor.
pub open spec fn sdk_name(arch: Arch) -> Seq<char> {
    match arch {
        Arch::X86 => "x86"@,
        Arch::Arm64 => "arm64"@,
        Arch::X64 => "x64"@,
    }
}

/// The SDK holds the debugger engine there: in its directory for the
/// processor before its root.
pub open spec fn holds_engine(sdk: SdkRoot, arch: Arch, dir: runtime::DirView) -> bool {
    &&& dir.root == sdk.root@
    &&& sdk.arch_has_dbgeng ==> dir.steps == seq![
        PartView::Normal("Debuggers"@),
        PartView::Normal(sdk_name(arch)),
    ]
    &&& !sdk.arch_has_dbgeng ==> sdk.root_has_dbgeng && dir.steps.len() == 0
}

/// The debugger engine of the SDKs is that of the first one that holds it.
pub proof fn law_the_first_sdk_is_used(sdks: Vec<SdkRoot>, arch: Arch, dir: Option<ToolDir>)
    requires
        call_ensures(find_sdk_dbgeng_dir, (&sdks, arch), dir),
    ensures
        dir matches Some(found) ==> exists|i: int|
            #![trigger sdks@[i]]
            {
                &&& 0 <= i < sdks@.len()
                &&& holds_engine(sdks@[i], arch, found@)
                &&& forall|k: int|
                    0 <= k < i ==> !(#[trigger] sdks@[k]).arch_has_dbgeng
                        && !sdks@[k].root_has_dbgeng
            },
        dir is None ==> forall|k: int|
            0 <= k < sdks@.len() ==> !(#[trigger] sdks@[k]).arch_has_dbgeng
                && !sdks@[k].root_has_dbgeng,
{
    lemma_first_sdk(sdks@, arch);
}

proof fn lemma_first_sdk(sdks: Seq<SdkRoot>, arch: Arch)
    ensures
        match runtime::first_sdk_dir(sdks, arch) {
            Some(found) => exists|i: int|
                #![trigger sdks[i]]
                {
                    &&& 0 <= i < sdks.len()
                    &&& holds_engine(sdks[i], arch, found)
                    &&& forall|k: int|
                        0 <= k < i ==> !(#[trigger] sdks[k]).arch_has_dbgeng
                            && !sdks[k].root_has_dbgeng
                },
            None => forall|k: int|
                0 <= k < sdks.len() ==> !(#[trigger] sdks[k]).arch_has_dbgeng
                    && !sdks[k].root_has_dbgeng,
        },
    decreases sdks.len(),
{
    if sdks.len() > 0 {
        let rest = sdks.drop_first();
        lemma_first_sdk(rest, arch);
        if runtime::sdk_dir(sdks[0], arch) is Some {
            let found = runtime::sdk_dir(sdks[0], arch)->0;
            if sdks[0].arch_has_dbgeng {
                assert(found.steps =~= seq![
                    PartView::Normal("Debuggers"@),
                    PartView::Normal(sdk_name(arch)),
                ]);
            }
            assert(holds_engine(sdks[0], arch, found));
        } else {
            match runtime::first_sdk_dir(rest, arch) {
                Some(found) => {
                    let i = choose|i: int|
                        #![trigger rest[i]]
                        {
                            &&& 0 <= i < rest.len()
                            &&& holds_engine(rest[i], arch, found)
                            &&& forall|k: int|
                                0 <= k < i ==> !(#[trigger] rest[k]).arch_has_dbgeng
                                    && !rest[k].root_has_dbgeng
                        };
                    assert(sdks[i + 1] == rest[i]);
                    assert forall|k: int| 0 <= k < i + 1 implies !(
                    #[trigger] sdks[k]).arch_has_dbgeng && !sdks[k].root_has_dbgeng by {
                        if k > 0 {
                            assert(sdks[k] == rest[k - 1]);
                        }
                    }
                },
                None => {
                    assert forall|k: int| 0 <= k < sdks.len() implies !(
                    #[trigger] sdks[k]).arch_has_dbgeng && !sdks[k].root_has_dbgeng by {
                        if k > 0 {
                            assert(sdks[k] == rest[k - 1]);
                        }
                    }
                },
            }
        }
    }
}

/// The location is where its source says.
pub open spec fn is_where_told(location: ToolLocation, places: DbgEngPlaces) -> bool {
    match location.source {
        ToolPathSource::DbgAtlasInstall => {
            &&& places.runtime_has_dbgeng
            &&& places.runtime_has_ttd
            &&& location.dir@.root == places.runtime_dir@
            &&& location.dir@.steps.len() == 0
        },
        ToolPathSource::AppStore => {
            &&& location.dir@.root == places.windows_apps@
            &&& location.dir@.steps.len() > 0
        },
        ToolPathSource::WindowsSdk => exists|i: int|
            0 <= i < places.sdks@.len() && holds_engine(
                #[trigger] places.sdks@[i],
                places.arch,
                location.dir@,
            ),
        ToolPathSource::System32 => {
            &&& places.system_has_dbgeng
            &&& location.dir@.root == places.system_root@
            &&& location.dir@.steps == seq![PartView::Normal("System32"@)]
        },
        ToolPathSource::DbgEngSibling => false,
    }
}

/// The first comes before the second: this tool's own copy, the store, an SDK,
/// the system.
pub open spec fn is_preferred(one: ToolPathSource, other: ToolPathSource) -> bool {
    ||| one is DbgAtlasInstall && !(other is DbgAtlasInstall)
    ||| one is AppStore && (other is WindowsSdk || other is System32)
    ||| one is WindowsSdk && other is System32
}

/// The candidates for the debugger engine come in the order of preference, no
/// two are the same directory, each is where its source says, and none is left
/// out: an own copy that is complete is the first, and the system's engine is
/// among them where it has one.
pub proof fn law_candidates_come_in_order(places: DbgEngPlaces, candidates: Vec<ToolLocation>)
    requires
        call_ensures(resolve_dbgeng_dirs_from_roots, (&places,), candidates),
    ensures
        forall|i: int|
            0 <= i < candidates@.len() ==> is_where_told(#[trigger] candidates@[i], places),
        forall|i: int, k: int|
            0 <= i < k < candidates@.len() ==> is_preferred(
                (#[trigger] candidates@[i]).source,
                (#[trigger] candidates@[k]).source,
            ) && candidates@[i].dir@.key() != candidates@[k].dir@.key(),
        places.runtime_has_dbgeng && places.runtime_has_ttd ==> candidates@.len() > 0
            && candidates@[0].source is DbgAtlasInstall,
        places.system_has_dbgeng ==> exists|i: int|
            0 <= i < candidates@.len() && (#[trigger] candidates@[i]).dir@.key() == path::keys(
                places.system_root@.parts.push(PartView::Normal("System32"@)),
            ),
{
    let store = choose|store: Option<runtime::DirView>|
        #[trigger] runtime::store_outcome(places, store) && runtime::location_views(candidates@)
            == runtime::candidates_of(places, store);
    let all = runtime::candidates_of(places, store);
    assert(all.len() == candidates@.len());
    runtime::law_candidates_are_in_order(places, store);
    lemma_first_sdk(places.sdks@, places.arch);
    assert forall|i: int| 0 <= i < candidates@.len() implies is_where_told(
        #[trigger] candidates@[i],
        places,
    ) by {
        assert(all[i] == candidates@[i]@);
        lemma_where_told(places, store, i);
    }
    assert forall|i: int, k: int| 0 <= i < k < candidates@.len() implies is_preferred(
        (#[trigger] candidates@[i]).source,
        (#[trigger] candidates@[k]).source,
    ) && candidates@[i].dir@.key() != candidates@[k].dir@.key() by {
        assert(all[i] == candidates@[i]@);
        assert(all[k] == candidates@[k]@);
        lemma_where_told(places, store, k);
    }
    if places.runtime_has_dbgeng && places.runtime_has_ttd {
        assert(all[0] == candidates@[0]@);
    }
    if places.system_has_dbgeng {
        let dir = runtime::dir_below(places.system_root@, seq![]).join("System32"@);
        assert(dir.parts() =~= places.system_root@.parts.push(PartView::Normal("System32"@)));
        assert(exists|i: int| 0 <= i < all.len() && (#[trigger] all[i]).dir.key() == dir.key()) by {
            let last = all[all.len() - 1];
            if last.dir.key() != dir.key() {
                assert(all.len() > 0);
            }
        }
        let i = choose|i: int| 0 <= i < all.len() && (#[trigger] all[i]).dir.key() == dir.key();
        assert(all[i] == candidates@[i]@);
    }
}

proof fn lemma_where_told(places: DbgEngPlaces, store: Option<runtime::DirView>, i: int)
    requires
        runtime::store_outcome(places, store),
        0 <= i < runtime::candidates_of(places, store).len(),
    ensures
        ({
            let location = runtime::candidates_of(places, store)[i];
            match location.source {
                ToolPathSource::DbgAtlasInstall => {
                    &&& places.runtime_has_dbgeng
                    &&& places.runtime_has_ttd
                    &&& location.dir.root == places.runtime_dir@
                    &&& location.dir.steps.len() == 0
                },
                ToolPathSource::AppStore => {
                    &&& location.dir.root == places.windows_apps@
                    &&& location.dir.steps.len() > 0
                },
                ToolPathSource::WindowsSdk => exists|k: int|
                    0 <= k < places.sdks@.len() && holds_engine(
                        #[trigger] places.sdks@[k],
                        places.arch,
                        location.dir,
                    ),
                ToolPathSource::System32 => {
                    &&& places.system_has_dbgeng
                    &&& location.dir.root == places.system_root@
                    &&& location.dir.steps == seq![PartView::Normal("System32"@)]
                },
                ToolPathSource::DbgEngSibling => false,
            }
        }),
{
    lemma_first_sdk(places.sdks@, places.arch);
    let system = runtime::dir_below(places.system_root@, seq![]).join("System32"@);
    assert(system.steps =~= seq![PartView::Normal("System32"@)]);
}

/// The recorder is the one beside the first candidate that has one, and else
/// that of the store.
pub proof fn law_the_recorder_stands_beside_the_engine(
    candidates: Vec<ToolLocation>,
    siblings: Vec<bool>,
    windows_apps: HostPath,
    packages: Vec<StorePackage>,
    location: Option<ToolLocation>,
    at: int,
)
    requires
        call_ensures(
            resolve_ttd_dir_from_roots,
            (&candidates, &siblings, &windows_apps, &packages),
            location,
        ),
        siblings@.len() == candidates@.len(),
    ensures
        0 <= at < siblings@.len() && siblings@[at] && (forall|k: int|
            0 <= k < at ==> !#[trigger] siblings@[k]) ==> {
            &&& location matches Some(found)
            &&& found.source is DbgEngSibling
            &&& found.dir@.root == candidates@[at].dir@.root
            &&& found.dir@.steps == candidates@[at].dir@.steps.push(PartView::Normal("ttd"@))
        },
        (forall|k: int| 0 <= k < siblings@.len() ==> !#[trigger] siblings@[k]) ==> {
            &&& location matches Some(found) ==> {
                &&& found.source is AppStore
                &&& found.dir@.root == windows_apps@
                &&& exists|i: int|
                    #![trigger packages@[i]]
                    {
                        &&& 0 <= i < packages@.len()
                        &&& packages@[i].has_ttd
                        &&& "Microsoft.TimeTravelDebugging"@.is_prefix_of(packages@[i].name@)
                        &&& found.dir@.steps == seq![PartView::Normal(packages@[i].name@)]
                    }
            }
            &&& location is None ==> forall|i: int|
                0 <= i < packages@.len() && "Microsoft.TimeTravelDebugging"@.is_prefix_of(
                    (#[trigger] packages@[i]).name@,
                ) ==> !packages@[i].has_ttd
        },
{
    if 0 <= at < siblings@.len() && siblings@[at] {
        assert(siblings@.contains(true));
    }
    if forall|k: int| 0 <= k < siblings@.len() ==> !#[trigger] siblings@[k] {
        assert(!siblings@.contains(true));
        if let Some(found) = location {
            let i = choose|i: int|
                {
                    &&& 0 <= i < packages@.len()
                    &&& runtime::gives_ttd(#[trigger] packages@[i])
                    &&& found.dir@ == runtime::dir_below(windows_apps@, seq![]).join(
                        packages@[i].name@,
                    )
                    &&& forall|k: int|
                        0 <= k < packages@.len() && runtime::gives_ttd(#[trigger] packages@[k])
                            ==> !text::precedes(packages@[i].name@, packages@[k].name@)
                };
            assert(found.dir@.steps =~= seq![PartView::Normal(packages@[i].name@)]);
            assert(packages@[i].has_ttd);
        } else {
            assert forall|i: int|
                0 <= i < packages@.len() && "Microsoft.TimeTravelDebugging"@.is_prefix_of(
                    (#[trigger] packages@[i]).name@,
                ) implies !packages@[i].has_ttd by {
                assert(!runtime::gives_ttd(packages@[i]));
            }
        }
    }
}

/// The engine that is used is the first candidate, and the others are kept in
/// order behind it.
pub proof fn law_the_first_candidate_is_used(
    candidates: Vec<ToolLocation>,
    ttd: Option<ToolLocation>,
    paths: ResolvedToolPaths,
    dirs: Vec<ToolDir>,
    dir: Option<&ToolDir>,
    recorder: Option<&ToolDir>,
)
    requires
        call_ensures(resolve_tool_paths, (candidates, ttd), paths),
        call_ensures(ResolvedToolPaths::dbgeng_dirs, (&paths,), dirs),
        call_ensures(ResolvedToolPaths::dbgeng_dir, (&paths,), dir),
        call_ensures(ResolvedToolPaths::ttd_dir, (&paths,), recorder),
    ensures
        dirs@.len() == candidates@.len(),
        forall|i: int|
            0 <= i < candidates@.len() ==> (#[trigger] dirs@[i])@ == candidates@[i].dir@,
        dir is Some <==> candidates@.len() > 0,
        dir matches Some(first) ==> first@ == candidates@[0].dir@,
        recorder is Some <==> ttd is Some,
        recorder matches Some(found) ==> *found == ttd->0.dir,
{
}

/// Tools are searched for where the environment says.
pub proof fn law_tools_are_searched_where_the_environment_says(
    environment: HostEnvironment,
    arch: Arch,
    roots: ToolSearchRoots,
)
    requires
        call_ensures(tool_search_roots, (environment, arch), roots),
    ensures
        environment.program_data matches Some(data) ==> roots.dbgatlas_windbg_runtime_dir@.base
            == data@,
        roots.dbgatlas_windbg_runtime_dir@.names == seq![
            "DbgAtlas"@,
            "rt"@,
            "windbg"@,
            store_name(arch),
        ],
        environment.program_files matches Some(files) ==> roots.program_files_windows_apps@.base
            == files@,
        roots.program_files_windows_apps@.names == seq!["WindowsApps"@],
        environment.system_root matches Some(system) ==> roots.system_root@.base == system@,
        roots.system_root@.names.len() == 0,
        roots.windows_kits_roots@.len() == 2 + given_before(environment, 3),
        environment.windows_sdk_dir matches Some(sdk) ==> is_at(
            roots.windows_kits_roots@[0]@,
            sdk@,
        ),
        environment.wdk_content_root matches Some(wdk) ==> is_at(
            roots.windows_kits_roots@[given_before(environment, 1)]@,
            wdk@,
        ),
        environment.windows_sdk_executable_path_x64 matches Some(tools) ==> is_at(
            roots.windows_kits_roots@[given_before(environment, 2)]@,
            tools@,
        ),
        environment.program_files_x86 matches Some(files) ==> {
            let kit = roots.windows_kits_roots@[roots.windows_kits_roots@.len() - 2]@;
            kit.base == files@ && kit.names == seq!["Windows Kits"@, "10"@]
        },
        environment.program_files matches Some(files) ==> {
            let kit = roots.windows_kits_roots@[roots.windows_kits_roots@.len() - 1]@;
            kit.base == files@ && kit.names == seq!["Windows Kits"@, "10"@]
        },
{
}

/// How many of the first roots of SDKs the environment gives.
pub open spec fn given_before(environment: HostEnvironment, count: int) -> int {
    (if count > 0 && environment.windows_sdk_dir is Some {
        1int
    } else {
        0int
    }) + (if count > 1 && environment.wdk_content_root is Some {
        1int
    } else {
        0int
    }) + (if count > 2 && environment.windows_sdk_executable_path_x64 is Some {
        1int
    } else {
        0int
    })
}

/// The directory is the root itself.
pub open spec fn is_at(found: path::JoinedView, root: path::PathView) -> bool {
    found.base == root && found.names.len() == 0
}

/// A configuration that could not be read is refused by why, and one whose
/// file could not be read by its path too.
pub proof fn law_unread_configurations_say_why(
    reason: String,
    read: Result<RuntimeConfig, RuntimeConfigError>,
    file: HostPath,
    loaded: Result<RuntimeConfig, RuntimeConfigError>,
    text: Result<Result<RuntimeConfig, String>, String>,
)
    requires
        call_ensures(RuntimeConfig::from_toml_str, (Err(reason),), read),
        call_ensures(RuntimeConfig::load, (file, text), loaded),
    ensures
        read == Err::<RuntimeConfig, RuntimeConfigError>(RuntimeConfigError::ParseToml(reason)),
        text matches Err(source) ==> loaded == Err::<RuntimeConfig, RuntimeConfigError>(
            RuntimeConfigError::Io { path: file, source },
        ),
        text matches Ok(Err(parse)) ==> loaded == Err::<RuntimeConfig, RuntimeConfigError>(
            RuntimeConfigError::ParseToml(parse),
        ),
{
}

/// A configuration that says nothing is safe, sets up nothing, and raises no
/// rights.
pub proof fn law_default_configurations_are_safe(config: RuntimeConfig)
    requires
        call_ensures(RuntimeConfig::default, (), config),
    ensures
        is_safe(config),
        config.version == 1,
        config.server.bind.port == 0,
        config.server.bind.shown@ == "127.0.0.1:0"@,
        config.server.bind.host matches BindHost::V4(octets) && octets@ == seq![
            127u8,
            0u8,
            0u8,
            1u8,
        ],
        config.tools.symbol_path is None,
        config.tools.ida.install_dir is None,
        config.tools.ida.python_executable is None,
        config.tools.ida.vendor_src_dir is None,
        !config.tools.ida.allow_py_eval,
        config.process.child_identity is CurrentProcess,
        config.process.fallback_child_identity is CurrentProcess,
        !config.process.elevate_if_admin,
        config.proxy is Unset,
{
}

/// Where parts of a configuration are left out, they are as in one that says
/// nothing.
pub proof fn law_default_parts_are_those_of_the_whole(
    config: RuntimeConfig,
    server: ServerRuntimeConfig,
    tools: ToolRuntimeConfig,
    ida: IdaRuntimeConfig,
    process: ProcessLaunchPolicy,
    proxy: ProxyConfig,
    identity: ChildIdentity,
    fallback: FallbackChildIdentity,
)
    requires
        call_ensures(RuntimeConfig::default, (), config),
        call_ensures(ServerRuntimeConfig::default, (), server),
        call_ensures(ToolRuntimeConfig::default, (), tools),
        call_ensures(IdaRuntimeConfig::default, (), ida),
        call_ensures(ProcessLaunchPolicy::default, (), process),
        call_ensures(ProxyConfig::default, (), proxy),
        call_ensures(ChildIdentity::default, (), identity),
        call_ensures(FallbackChildIdentity::default, (), fallback),
    ensures
        is_local(server.bind.host),
        server.bind.port == config.server.bind.port,
        server.bind.shown@ == config.server.bind.shown@,
        tools == config.tools,
        ida == config.tools.ida,
        process == config.process,
        proxy == config.proxy,
        identity == config.process.child_identity,
        fallback == config.process.fallback_child_identity,
{
    lemma_local(server.bind.host);
}

/// New variables are none, and are told in the order of their keys.
pub proof fn law_variables_are_told_in_order(
    none: ProxyVariables,
    variables: ProxyVariables,
    entries: &Vec<(String, String)>,
)
    requires
        call_ensures(ProxyVariables::new, (), none),
        call_ensures(ProxyVariables::entries, (&variables,), entries),
    ensures
        none@.len() == 0,
        entries@ == variables@,
        forall|i: int, k: int|
            0 <= i < k < entries@.len() ==> comes_before(
                (#[trigger] entries@[i]).0@,
                (#[trigger] entries@[k]).0@,
            ),
{
    assert forall|i: int, k: int| 0 <= i < k < entries@.len() implies comes_before(
        (#[trigger] entries@[i]).0@,
        (#[trigger] entries@[k]).0@,
    ) by {
        laws::text::lemma_order_is_by_difference(entries@[i].0@, entries@[k].0@);
    }
}

/// A kind of processor has a name of its own for the SDK and for the store.
pub proof fn law_processors_are_named(arch: Arch, sdk: &'static str, store: &'static str)
    requires
        call_ensures(Arch::debugger_arch, (arch,), sdk),
        call_ensures(Arch::windbg_runtime_arch, (arch,), store),
    ensures
        sdk@ == sdk_name(arch),
        store@ == store_name(arch),
{
}

/// A directory is made of its root and its steps, and two are the same where
/// their components are, one by one.
pub proof fn law_directories_are_told_by_their_components(
    root: HostPath,
    at: ToolDir,
    given: ToolDir,
    name: &str,
    joined: ToolDir,
    other: ToolDir,
    same: bool,
)
    requires
        call_ensures(ToolDir::at, (&root,), at),
        call_ensures(ToolDir::join, (given, name), joined),
        call_ensures(ToolDir::same, (&given, &other), same),
    ensures
        at@.root == root@ && at@.steps.len() == 0,
        joined@.root == given@.root && joined@.steps == given@.steps.push(PartView::Normal(name@)),
        same <==> {
            let left = given@.root.parts + given@.steps;
            let right = other@.root.parts + other@.steps;
            left.len() == right.len() && forall|i: int|
                0 <= i < left.len() ==> path::part_key(#[trigger] left[i]) == path::part_key(
                    right[i],
                )
        },
{
    let left = given@.root.parts + given@.steps;
    let right = other@.root.parts + other@.steps;
    let a = path::keys(left);
    let b = path::keys(right);
    assert(a.len() == left.len());
    assert(b.len() == right.len());
    if same {
        assert forall|i: int| 0 <= i < left.len() implies path::part_key(#[trigger] left[i])
            == path::part_key(right[i]) by {
            assert(a[i] == b[i]);
        }
    }
    if left.len() == right.len() && (forall|i: int|
        0 <= i < left.len() ==> path::part_key(#[trigger] left[i]) == path::part_key(right[i])) {
        assert forall|i: int| 0 <= i < a.len() implies a[i] == b[i] by {
            assert(path::part_key(left[i]) == path::part_key(right[i]));
        }
        assert(a =~= b);
    }
}

/// The engine of the store stands in the directory of its file: the file that
/// was found, without its own name, below its package.
pub proof fn law_engines_stand_beside_their_file(
    root: HostPath,
    packages: Vec<StorePackage>,
    arch: Arch,
    dir: Option<ToolDir>,
)
    requires
        call_ensures(find_store_dbgeng_dir, (&root, &packages, arch), dir),
    ensures
        dir matches Some(found) ==> exists|i: int, file: PartView|
            #![trigger packages@[i], found@.steps.push(file)]
            {
                &&& 0 <= i < packages@.len()
                &&& "Microsoft.WinDbg"@.is_prefix_of(packages@[i].name@)
                &&& found@.root == root@
                &&& found@.steps.len() > 0
                &&& found@.steps[0] == PartView::Normal(packages@[i].name@)
                &&& !packages@[i].arch_has_dbgeng ==> leads_to(
                    packages@[i].entries@,
                    found@.steps.push(file).drop_first(),
                    "dbgeng.dll"@,
                ) && found@.steps.len() <= 4
            },
        dir is None ==> forall|k: int, steps: Seq<PartView>|
            #![trigger packages@[k], leads_to(packages@[k].entries@, steps, "dbgeng.dll"@)]
            0 <= k < packages@.len() && "Microsoft.WinDbg"@.is_prefix_of(packages@[k].name@)
                && steps.len() <= 4 ==> !leads_to(
                packages@[k].entries@,
                steps,
                "dbgeng.dll"@,
            ),
{
    if dir is None {
        assert forall|k: int, steps: Seq<PartView>|
            #![trigger packages@[k], leads_to(packages@[k].entries@, steps, "dbgeng.dll"@)]
            0 <= k < packages@.len() && "Microsoft.WinDbg"@.is_prefix_of(packages@[k].name@)
                && steps.len() <= 4 implies !leads_to(
            packages@[k].entries@,
            steps,
            "dbgeng.dll"@,
        ) by {
            assert(!runtime::gives_dbgeng(packages@[k], arch));
            if leads_to(packages@[k].entries@, steps, "dbgeng.dll"@) {
                lemma_file_is_found(
                    packages@[k].entries@,
                    "dbgeng.dll"@,
                    runtime::PACKAGE_DEPTH as nat,
                    steps,
                );
            }
        }
    }
    if let Some(found) = dir {
        let i = choose|i: int|
            {
                &&& 0 <= i < packages@.len()
                &&& runtime::gives_dbgeng(#[trigger] packages@[i], arch)
                &&& found@ == runtime::dir_below(
                    root@,
                    runtime::package_steps(packages@[i], arch)->0,
                )
                &&& forall|k: int|
                    0 <= k < packages@.len() && runtime::gives_dbgeng(
                        #[trigger] packages@[k],
                        arch,
                    ) ==> !text::precedes(packages@[i].name@, packages@[k].name@)
            };
        let package = packages@[i];
        lemma_first_file(package.entries@, "dbgeng.dll"@, runtime::PACKAGE_DEPTH as nat);
        let file = if package.arch_has_dbgeng {
            PartView::Normal(package.name@)
        } else {
            runtime::first_file(
                package.entries@,
                "dbgeng.dll"@,
                runtime::PACKAGE_DEPTH as nat,
            )->0.last()
        };
        if !package.arch_has_dbgeng {
            let steps = runtime::first_file(
                package.entries@,
                "dbgeng.dll"@,
                runtime::PACKAGE_DEPTH as nat,
            )->0;
            assert(found@.steps.push(file).drop_first() =~= steps);
        }
        assert(packages@[i].name@ == package.name@);
    }
}

/// The recorder of the store is the latest that is there.
pub proof fn law_the_latest_recorder_is_used(
    root: HostPath,
    packages: Vec<StorePackage>,
    dir: Option<ToolDir>,
)
    requires
        call_ensures(find_store_ttd_dir, (&root, &packages), dir),
    ensures
        dir matches Some(found) ==> exists|i: int|
            #![trigger packages@[i]]
            {
                &&& 0 <= i < packages@.len()
                &&& packages@[i].has_ttd
                &&& "Microsoft.TimeTravelDebugging"@.is_prefix_of(packages@[i].name@)
                &&& found@.root == root@
                &&& found@.steps == seq![PartView::Normal(packages@[i].name@)]
                &&& forall|k: int|
                    0 <= k < packages@.len() && "Microsoft.TimeTravelDebugging"@.is_prefix_of(
                        (#[trigger] packages@[k]).name@,
                    ) && packages@[k].has_ttd ==> !comes_before(
                        packages@[i].name@,
                        packages@[k].name@,
                    )
            },
        dir is None ==> forall|k: int|
            0 <= k < packages@.len() && "Microsoft.TimeTravelDebugging"@.is_prefix_of(
                (#[trigger] packages@[k]).name@,
            ) ==> !packages@[k].has_ttd,
{
    if let Some(found) = dir {
        let i = choose|i: int|
            {
                &&& 0 <= i < packages@.len()
                &&& runtime::gives_ttd(#[trigger] packages@[i])
                &&& found@ == runtime::dir_below(root@, seq![]).join(packages@[i].name@)
                &&& forall|k: int|
                    0 <= k < packages@.len() && runtime::gives_ttd(#[trigger] packages@[k])
                        ==> !text::precedes(packages@[i].name@, packages@[k].name@)
            };
        assert(found@.steps =~= seq![PartView::Normal(packages@[i].name@)]);
        assert forall|k: int|
            0 <= k < packages@.len() && "Microsoft.TimeTravelDebugging"@.is_prefix_of(
                (#[trigger] packages@[k]).name@,
            ) && packages@[k].has_ttd implies !comes_before(
            packages@[i].name@,
            packages@[k].name@,
        ) by {
            assert(runtime::gives_ttd(packages@[k]));
            laws::text::lemma_order_is_by_difference(packages@[i].name@, packages@[k].name@);
        }
        assert(packages@[i].has_ttd);
    } else {
        assert forall|k: int|
            0 <= k < packages@.len() && "Microsoft.TimeTravelDebugging"@.is_prefix_of(
                (#[trigger] packages@[k]).name@,
            ) implies !packages@[k].has_ttd by {
            assert(!runtime::gives_ttd(packages@[k]));
        }
    }
}

/// Without an environment the host's own directories are searched.
pub proof fn law_the_hosts_directories_are_searched(
    environment: HostEnvironment,
    arch: Arch,
    roots: ToolSearchRoots,
    data: Option<HostPath>,
    own: JoinedPath,
)
    requires
        call_ensures(tool_search_roots, (environment, arch), roots),
        call_ensures(default_dbgatlas_windbg_runtime_dir, (&data, arch), own),
    ensures
        environment.program_data is None ==> roots.dbgatlas_windbg_runtime_dir@.base.text
            == "C:\\ProgramData"@,
        environment.program_files is None ==> roots.program_files_windows_apps@.base.text
            == "C:\\Program Files"@,
        environment.system_root is None ==> roots.system_root@.base.text == "C:\\Windows"@,
        environment.program_files_x86 is None ==> roots.windows_kits_roots@[
            roots.windows_kits_roots@.len() - 2
        ]@.base.text == "C:\\Program Files (x86)"@,
        environment.program_files is None ==> roots.windows_kits_roots@[
            roots.windows_kits_roots@.len() - 1
        ]@.base.text == "C:\\Program Files"@,
        data matches Some(given) ==> own@.base == given@,
        data is None ==> own@.base.text == "C:\\ProgramData"@,
        own@.names == seq!["DbgAtlas"@, "rt"@, "windbg"@, store_name(arch)],
{
}

/// The tools are those that were found, whatever is configured.
pub proof fn law_configured_tools_are_searched_for(
    config: RuntimeConfig,
    candidates: Vec<ToolLocation>,
    ttd: Option<ToolLocation>,
    paths: ResolvedToolPaths,
    dirs: Vec<ToolDir>,
)
    requires
        call_ensures(RuntimeConfig::resolve_tool_paths, (&config, candidates, ttd), paths),
        call_ensures(ResolvedToolPaths::dbgeng_dirs, (&paths,), dirs),
    ensures
        dirs@.len() == candidates@.len(),
        forall|i: int|
            0 <= i < candidates@.len() ==> (#[trigger] dirs@[i])@ == candidates@[i].dir@,
{
}

/// Files are looked for in order: what is found in a directory is found in its
/// first entry, where that holds it, and else among the entries behind it; and
/// what an entry that is a directory holds is found below its name, one step
/// less deep.
pub proof fn law_files_are_looked_for_in_order(
    entries: Vec<TreeEntry>,
    first: Vec<TreeEntry>,
    rest: Vec<TreeEntry>,
    wanted: &str,
    max_depth: usize,
    found: Option<Vec<PathPart>>,
    in_first: Option<Vec<PathPart>>,
    in_rest: Option<Vec<PathPart>>,
    inside: Option<Vec<PathPart>>,
)
    requires
        entries@.len() > 0,
        first@ == seq![entries@[0]],
        rest@ == entries@.drop_first(),
        max_depth > 0,
        call_ensures(find_file_limited, (&entries, wanted, max_depth), found),
        call_ensures(find_file_limited, (&first, wanted, max_depth), in_first),
        call_ensures(find_file_limited, (&rest, wanted, max_depth), in_rest),
        entries@[0] is Dir ==> call_ensures(
            find_file_limited,
            (&entries@[0]->entries, wanted, (max_depth - 1) as usize),
            inside,
        ),
    ensures
        found is Some <==> in_first is Some || in_rest is Some,
        in_first matches Some(steps) ==> path::part_views(found->0@) == path::part_views(steps@),
        in_first is None && in_rest is Some ==> path::part_views(found->0@) == path::part_views(
            in_rest->0@,
        ),
        entries@[0] matches TreeEntry::File { name } ==> (in_first is Some <==> is_called(
            name@,
            wanted@,
        )) && (in_first matches Some(steps) ==> path::part_views(steps@) == seq![name@]),
        entries@[0] matches TreeEntry::Dir { name, .. } ==> (in_first is Some <==> inside is Some)
            && (in_first matches Some(steps) ==> path::part_views(steps@) == seq![name@]
            + path::part_views(inside->0@)),
{
    assert(first@[0] == entries@[0]);
    assert(first@.drop_first() =~= seq![]);
    reveal_with_fuel(runtime::first_file, 2);
    if let TreeEntry::File { name } = entries@[0] {
        lemma_is_called(name@, wanted@);
    }
}

/// The first candidate is the one that is preferred among those that are
/// there: this tool's own copy, then the store's, then that of an SDK, then
/// the system's. That of an SDK is never left out, nor the store's where this
/// tool's own copy stands elsewhere, and there is none where none is there.
pub proof fn law_the_preferred_engine_comes_first(
    places: DbgEngPlaces,
    candidates: Vec<ToolLocation>,
    store: Option<ToolDir>,
    sdk: Option<ToolDir>,
)
    requires
        call_ensures(resolve_dbgeng_dirs_from_roots, (&places,), candidates),
        call_ensures(
            find_store_dbgeng_dir,
            (&places.windows_apps, &places.packages, places.arch),
            store,
        ),
        call_ensures(find_sdk_dbgeng_dir, (&places.sdks, places.arch), sdk),
    ensures
        ({
            let own = places.runtime_has_dbgeng && places.runtime_has_ttd;
            &&& own ==> candidates@.len() > 0 && candidates@[0].source is DbgAtlasInstall
            &&& !own && store is Some ==> candidates@.len() > 0 && candidates@[0].source is AppStore
            &&& !own && store is None && sdk is Some ==> candidates@.len() > 0
                && candidates@[0].source is WindowsSdk && candidates@[0].dir@ == sdk->0@
            &&& !own && store is None && sdk is None && places.system_has_dbgeng ==> candidates@.len()
                > 0 && candidates@[0].source is System32
            &&& !own && store is None && sdk is None && !places.system_has_dbgeng ==> candidates@.len()
                == 0
            &&& own && store is Some && !laws::workspace::lies_in(
                places.runtime_dir@,
                places.windows_apps@,
            ) ==> candidates@.len() > 1 && candidates@[1].source is AppStore
            &&& sdk matches Some(found) ==> exists|i: int|
                0 <= i < candidates@.len() && (#[trigger] candidates@[i]).dir@.key() == found@.key()
        }),
{
    let named = choose|named: Option<runtime::DirView>|
        #[trigger] runtime::store_outcome(places, named) && runtime::location_views(candidates@)
            == runtime::candidates_of(places, named);
    let all = runtime::candidates_of(places, named);
    assert(all.len() == candidates@.len());
    assert forall|i: int| 0 <= i < candidates@.len() implies all[i] == (
    #[trigger] candidates@[i])@ by {}
    lemma_store_is_there(places, named, store);
    let own = places.runtime_has_dbgeng && places.runtime_has_ttd;
    let one = if own {
        seq![
            runtime::LocationView {
                dir: runtime::dir_below(places.runtime_dir@, seq![]),
                source: ToolPathSource::DbgAtlasInstall,
            },
        ]
    } else {
        seq![]
    };
    let two = runtime::with_found(one, named, ToolPathSource::AppStore);
    let three = runtime::with_found(
        two,
        runtime::first_sdk_dir(places.sdks@, places.arch),
        ToolPathSource::WindowsSdk,
    );
    assert(runtime::with_found(
        seq![],
        if own {
            Some(runtime::dir_below(places.runtime_dir@, seq![]))
        } else {
            None
        },
        ToolPathSource::DbgAtlasInstall,
    ) =~= one);
    lemma_prefix(one, named, ToolPathSource::AppStore);
    lemma_prefix(
        two,
        runtime::first_sdk_dir(places.sdks@, places.arch),
        ToolPathSource::WindowsSdk,
    );
    let system = if places.system_has_dbgeng {
        Some(runtime::dir_below(places.system_root@, seq![]).join("System32"@))
    } else {
        None
    };
    lemma_prefix(three, system, ToolPathSource::System32);
    assert(all == runtime::with_found(three, system, ToolPathSource::System32));
    if candidates@.len() > 0 {
        assert(all[0] == candidates@[0]@);
    }
    if candidates@.len() > 1 {
        assert(all[1] == candidates@[1]@);
    }
    if own && store is Some && !laws::workspace::lies_in(
        places.runtime_dir@,
        places.windows_apps@,
    ) {
        lemma_apart(places, named->0);
    }
    if let Some(found) = sdk {
        let i = choose|i: int| 0 <= i < three.len() && (#[trigger] three[i]).dir.key() == found@.key();
        assert(all[i] == three[i]);
        assert(all[i] == candidates@[i]@);
    }
}

/// Adding a location keeps those before it, and the directory is then among
/// them.
proof fn lemma_prefix(
    before: Seq<runtime::LocationView>,
    dir: Option<runtime::DirView>,
    source: ToolPathSource,
)
    ensures
        ({
            let after = runtime::with_found(before, dir, source);
            &&& after.len() >= before.len()
            &&& forall|i: int| 0 <= i < before.len() ==> #[trigger] after[i] == before[i]
            &&& dir matches Some(found) ==> exists|i: int|
                0 <= i < after.len() && (#[trigger] after[i]).dir.key() == found.key()
        }),
{
    let after = runtime::with_found(before, dir, source);
    if let Some(found) = dir {
        if !(exists|i: int|
            0 <= i < before.len() && (#[trigger] before[i]).dir.key() == found.key()) {
            assert(after[before.len() as int].dir.key() == found.key());
        } else {
            let i = choose|i: int|
                0 <= i < before.len() && (#[trigger] before[i]).dir.key() == found.key();
            assert(after[i].dir.key() == found.key());
        }
    }
}

/// The store holds an engine for one call where it does for another.
proof fn lemma_store_is_there(
    places: DbgEngPlaces,
    named: Option<runtime::DirView>,
    store: Option<ToolDir>,
)
    requires
        runtime::store_outcome(places, named),
        call_ensures(
            find_store_dbgeng_dir,
            (&places.windows_apps, &places.packages, places.arch),
            store,
        ),
    ensures
        named is Some <==> store is Some,
{
}

/// A directory of the store stands apart from one that is not below it.
proof fn lemma_apart(places: DbgEngPlaces, dir: runtime::DirView)
    requires
        runtime::store_outcome(places, Some(dir)),
        !laws::workspace::lies_in(places.runtime_dir@, places.windows_apps@),
    ensures
        dir.key() != runtime::dir_below(places.runtime_dir@, seq![]).key(),
{
    let own = runtime::dir_below(places.runtime_dir@, seq![]);
    assert(own.parts() =~= places.runtime_dir@.parts);
    assert(dir.root == places.windows_apps@);
    if dir.key() == own.key() {
        assert(dir.key().len() == dir.parts().len());
        assert(own.key().len() == own.parts().len());
        assert forall|i: int| 0 <= i < places.windows_apps@.parts.len() implies path::part_key(
            #[trigger] places.windows_apps@.parts[i],
        ) == path::part_key(places.runtime_dir@.parts[i]) by {
            assert(dir.key()[i] == path::part_key(dir.parts()[i]));
            assert(own.key()[i] == path::part_key(own.parts()[i]));
        }
    }
}

/// A variable that is set changes no other: each that was there under another
/// key is there still, with its value, and no other has come.
pub proof fn law_other_variables_stay(
    variables: ProxyVariables,
    before: &Vec<(String, String)>,
    key: String,
    value: String,
    set: ProxyVariables,
    after: &Vec<(String, String)>,
    name: Seq<char>,
    held: Seq<char>,
)
    requires
        call_ensures(ProxyVariables::entries, (&variables,), before),
        call_ensures(ProxyVariables::with, (variables, key, value), set),
        call_ensures(ProxyVariables::entries, (&set,), after),
    ensures
        name != key@ ==> (stands_in(before@, name, held) <==> stands_in(after@, name, held)),
        stands_in(after@, key@, held) <==> held == value@,
{
    lemma_stands_in(before@, name, held);
    lemma_stands_in(after@, name, held);
    lemma_stands_in(after@, key@, held);
    assert(runtime::value_under(set@, name) == if name == key@ {
        Some(value@)
    } else {
        runtime::value_under(variables@, name)
    });
    assert(runtime::value_under(set@, key@) == Some(value@));
}

/// The variable stands among the entries with that value.
pub open spec fn stands_in(
    entries: Seq<(String, String)>,
    name: Seq<char>,
    held: Seq<char>,
) -> bool {
    exists|i: int| 0 <= i < entries.len() && (#[trigger] entries[i]).0@ == name && entries[i].1@ == held
}

proof fn lemma_stands_in(entries: Seq<(String, String)>, name: Seq<char>, held: Seq<char>)
    requires
        runtime::keys_ascend(entries),
    ensures
        stands_in(entries, name, held) <==> runtime::value_under(entries, name) == Some(held),
    decreases entries.len(),
{
    if entries.len() > 0 {
        let rest = entries.drop_last();
        let last = entries.len() - 1;
        assert forall|i: int, k: int| 0 <= i < k < rest.len() implies text::precedes(
            (#[trigger] rest[i]).0@,
            (#[trigger] rest[k]).0@,
        ) by {
            assert(rest[i] == entries[i] && rest[k] == entries[k]);
        }
        lemma_stands_in(rest, name, held);
        if entries[last].0@ == name {
            text::law_texts_are_ordered(name, name);
            if stands_in(entries, name, held) {
                let i = choose|i: int|
                    0 <= i < entries.len() && (#[trigger] entries[i]).0@ == name && entries[i].1@
                        == held;
                if i < last {
                    assert(text::precedes(entries[i].0@, entries[last].0@));
                }
            }
            if runtime::value_under(entries, name) == Some(held) {
                assert(entries[last].1@ == held);
            }
        } else {
            if stands_in(entries, name, held) {
                let i = choose|i: int|
                    0 <= i < entries.len() && (#[trigger] entries[i]).0@ == name && entries[i].1@
                        == held;
                assert(rest[i] == entries[i]);
            }
            if stands_in(rest, name, held) {
                let i = choose|i: int|
                    0 <= i < rest.len() && (#[trigger] rest[i]).0@ == name && rest[i].1@ == held;
                assert(entries[i] == rest[i]);
            }
        }
    }
}

} // verus!
