//! Laws on recordings.

use crate::laws::text::{all_white, some_control, tells};
use crate::path::HostPath;
use crate::recording::{
    build_ttd_args, default_presets, ttd_stop_target, CommandArg, RecordTtd, RecordingError,
    RecordingPreset, RecordingState, RecordingTarget, StartRecording, StopTarget, TtdRecordMode,
    TtdRecordingOptions, TtdReplayCpuSupport, TtdTarget,
};
use crate::{laws, path, recording};
use vstd::prelude::*;
use vstd::string::*;

verus! {

/// The argument is this text.
pub open spec fn says(arg: CommandArg, text: Seq<char>) -> bool {
    arg matches CommandArg::Text(given) && given@ == text
}

/// The argument is the numeral of this number.
pub open spec fn counts(arg: CommandArg, value: int) -> bool {
    arg matches CommandArg::Text(given) && tells(given@, value)
}

/// The argument is this path.
pub open spec fn shows(arg: CommandArg, shown: path::PathView) -> bool {
    arg matches CommandArg::Path(given) && given@ == shown
}

/// One where it holds.
pub open spec fn one_if(holds: bool) -> int {
    if holds {
        1
    } else {
        0
    }
}

/// From a position on, the module stands behind those before it.
pub open spec fn names_module(
    args: Seq<CommandArg>,
    from: int,
    modules: Seq<String>,
    i: int,
) -> bool {
    says(args[from + 2 * i], "-module"@) && says(args[from + 2 * i + 1], modules[i]@)
}

/// How many arguments stand before the size of the recording.
pub open spec fn size_at(options: TtdRecordingOptions) -> int {
    2 + one_if(options.no_ui) + one_if(options.accept_eula) + one_if(options.children) + one_if(
        options.ring,
    )
}

/// Where the arguments on how to record begin: behind two for each module.
pub open spec fn modes_at(options: TtdRecordingOptions) -> int {
    size_at(options) + 2 + 2 * options.modules@.len()
}

/// Where the arguments of the target begin.
pub open spec fn target_at(options: TtdRecordingOptions) -> int {
    modes_at(options) + 2 * one_if(options.record_mode is Manual) + 2 * one_if(
        !(options.replay_cpu_support is Default),
    )
}

proof fn lemma_modules(modules: Seq<String>, i: int)
    requires
        0 <= i < modules.len(),
    ensures
        recording::module_args(modules)[2 * i] == recording::ArgView::Text("-module"@),
        recording::module_args(modules)[2 * i + 1] == recording::ArgView::Text(modules[i]@),
    decreases modules.len(),
{
    lemma_module_count(modules.drop_last());
    if i < modules.len() - 1 {
        lemma_modules(modules.drop_last(), i);
    }
}

proof fn lemma_module_count(modules: Seq<String>)
    ensures
        recording::module_args(modules).len() == 2 * modules.len(),
    decreases modules.len(),
{
    if modules.len() > 0 {
        lemma_module_count(modules.drop_last());
    }
}

/// The arguments before the target, part by part.
#[verifier::spinoff_prover]
#[verifier::rlimit(40)]
proof fn lemma_settings(options: TtdRecordingOptions, traces_dir: path::PathView)
    ensures
        ({
            let all = recording::setting_args(options, traces_dir);
            let size = size_at(options);
            let modes = modes_at(options);
            let end = target_at(options);
            let switches = 2 + one_if(options.no_ui);
            &&& all.len() == end
            &&& all[0] == recording::ArgView::Text("-out"@)
            &&& all[1] == recording::ArgView::Path(traces_dir)
            &&& options.no_ui ==> all[2] == recording::ArgView::Text("-noUI"@)
            &&& options.accept_eula ==> all[switches] == recording::ArgView::Text("-accepteula"@)
            &&& options.children ==> all[switches + one_if(options.accept_eula)]
                == recording::ArgView::Text("-children"@)
            &&& options.ring ==> all[size - 1] == recording::ArgView::Text("-ring"@)
            &&& all[size] == recording::ArgView::Text("-maxFile"@)
            &&& all[size + 1] == recording::ArgView::Text(
                crate::text::decimal(options.max_file_mb as nat),
            )
            &&& all.subrange(size + 2, modes) == recording::module_args(options.modules@)
            &&& options.record_mode is Manual ==> all[modes] == recording::ArgView::Text(
                "-recordmode"@,
            ) && all[modes + 1] == recording::ArgView::Text("Manual"@)
            &&& !(options.replay_cpu_support is Default) ==> all[end - 2]
                == recording::ArgView::Text("-replayCpuSupport"@) && all[end - 1]
                == recording::ArgView::Text(options.replay_cpu_support.arg())
        }),
{
    lemma_module_count(options.modules@);
    let a = seq![recording::ArgView::Text("-out"@), recording::ArgView::Path(traces_dir)];
    let b = a + recording::flag_args(options.no_ui, "-noUI"@);
    let c = b + recording::flag_args(options.accept_eula, "-accepteula"@);
    let d = c + recording::flag_args(options.children, "-children"@);
    let e = d + recording::flag_args(options.ring, "-ring"@);
    let number = crate::text::decimal(options.max_file_mb as nat);
    let f = e + recording::option_args(true, "-maxFile"@, number);
    let g = f + recording::module_args(options.modules@);
    let h = g + recording::option_args(
        options.record_mode != TtdRecordMode::Automatic,
        "-recordmode"@,
        options.record_mode.arg(),
    );
    let all = h + recording::option_args(
        options.replay_cpu_support != TtdReplayCpuSupport::Default,
        "-replayCpuSupport"@,
        options.replay_cpu_support.arg(),
    );
    assert(all == recording::setting_args(options, traces_dir));
    assert(f.is_prefix_of(all)) by {
        assert(all.subrange(0, f.len() as int) =~= f);
    }
    assert(forall|i: int| 0 <= i < f.len() ==> all[i] == #[trigger] f[i]);
    assert(e.len() == size_at(options));
    assert(f.len() == size_at(options) + 2);
    assert(g.len() == modes_at(options));
    assert(a[0] == f[0] && a[1] == f[1]);
    if options.no_ui {
        assert(b[2] == f[2]);
    }
    if options.accept_eula {
        assert(c[b.len() as int] == f[b.len() as int]);
    }
    if options.children {
        assert(d[c.len() as int] == f[c.len() as int]);
    }
    if options.ring {
        assert(e[d.len() as int] == f[d.len() as int]);
    }
    assert(f[e.len() as int] == recording::ArgView::Text("-maxFile"@));
    assert(f[e.len() as int + 1] == recording::ArgView::Text(number));
    assert(all.subrange(f.len() as int, g.len() as int) =~= recording::module_args(
        options.modules@,
    ));
    if options.record_mode is Manual {
        assert(h[g.len() as int] == recording::ArgView::Text("-recordmode"@));
        assert(h[g.len() as int + 1] == recording::ArgView::Text("Manual"@));
        assert(all[g.len() as int] == h[g.len() as int]);
        assert(all[g.len() as int + 1] == h[g.len() as int + 1]);
    }
    if !(options.replay_cpu_support is Default) {
        assert(all[h.len() as int] == recording::ArgView::Text("-replayCpuSupport"@));
        assert(all[h.len() as int + 1] == recording::ArgView::Text(options.replay_cpu_support.arg()));
    }
}

#[verifier::spinoff_prover]
#[verifier::rlimit(40)]
proof fn lemma_setting_of_module(
    options: TtdRecordingOptions,
    traces_dir: path::PathView,
    i: int,
)
    requires
        0 <= i < options.modules@.len(),
    ensures
        ({
            let all = recording::setting_args(options, traces_dir);
            let at = size_at(options) + 2 + 2 * i;
            &&& at + 1 < all.len()
            &&& all[at] == recording::ArgView::Text("-module"@)
            &&& all[at + 1] == recording::ArgView::Text(options.modules@[i]@)
        }),
{
    lemma_settings(options, traces_dir);
    lemma_modules(options.modules@, i);
    let all = recording::setting_args(options, traces_dir);
    let from = size_at(options) + 2;
    let part = all.subrange(from, modes_at(options));
    assert(part[2 * i] == all[from + 2 * i]);
    assert(part[2 * i + 1] == all[from + 2 * i + 1]);
}

/// The command line of the recorder says where the traces go, then each switch
/// that is on and none that is off, then the size, then every module in order,
/// and then how to record, where that is not the recorder's own choice.
#[verifier::spinoff_prover]
#[verifier::rlimit(40)]
pub proof fn law_command_lines_carry_every_option(
    target: TtdTarget,
    options: TtdRecordingOptions,
    traces_dir: HostPath,
    args: Vec<CommandArg>,
)
    requires
        call_ensures(build_ttd_args, (&target, &options, &traces_dir), args),
    ensures
        args@.len() > target_at(options),
        says(args@[0], "-out"@),
        shows(args@[1], traces_dir@),
        options.no_ui ==> says(args@[2], "-noUI"@),
        options.accept_eula ==> says(args@[2 + one_if(options.no_ui)], "-accepteula"@),
        options.children ==> says(
            args@[2 + one_if(options.no_ui) + one_if(options.accept_eula)],
            "-children"@,
        ),
        options.ring ==> says(args@[size_at(options) - 1], "-ring"@),
        says(args@[size_at(options)], "-maxFile"@),
        counts(args@[size_at(options) + 1], options.max_file_mb as int),
        forall|i: int|
            0 <= i < options.modules@.len() ==> #[trigger] names_module(
                args@,
                size_at(options) + 2,
                options.modules@,
                i,
            ),
        options.record_mode is Manual ==> says(args@[modes_at(options)], "-recordmode"@) && says(
            args@[modes_at(options) + 1],
            "Manual"@,
        ),
        !(options.replay_cpu_support is Default) ==> says(
            args@[target_at(options) - 2],
            "-replayCpuSupport"@,
        ),
        options.replay_cpu_support is MostConservative ==> says(
            args@[target_at(options) - 1],
            "MostConservative"@,
        ),
        options.replay_cpu_support is MostAggressive ==> says(
            args@[target_at(options) - 1],
            "MostAggressive"@,
        ),
        options.replay_cpu_support is IntelAvxRequired ==> says(
            args@[target_at(options) - 1],
            "IntelAvxRequired"@,
        ),
        options.replay_cpu_support is IntelAvx2Required ==> says(
            args@[target_at(options) - 1],
            "IntelAvx2Required"@,
        ),
{
    let line = recording::arg_views(args@);
    let before = recording::setting_args(options, traces_dir@);
    assert(line == before + recording::target_args(target));
    lemma_settings(options, traces_dir@);
    laws::text::law_numbers_are_read_back(options.max_file_mb as nat);
    assert(recording::target_args(target).len() >= 2);
    assert forall|i: int| #![trigger args@[i]] 0 <= i < before.len() implies args@[i]@
        == before[i] by {
        assert(args@[i]@ == line[i]);
    }
    assert forall|i: int| 0 <= i < options.modules@.len() implies #[trigger] names_module(
        args@,
        size_at(options) + 2,
        options.modules@,
        i,
    ) by {
        lemma_setting_of_module(options, traces_dir@, i);
    }
}

proof fn lemma_target_comes_last(
    target: TtdTarget,
    options: TtdRecordingOptions,
    traces_dir: HostPath,
    args: Vec<CommandArg>,
)
    requires
        recording::arg_views(args@) == recording::ttd_args(target, options, traces_dir@),
    ensures
        args@.len() == target_at(options) + recording::target_args(target).len(),
        forall|i: int|
            0 <= i < recording::target_args(target).len() ==> args@[target_at(options) + i]@
                == #[trigger] recording::target_args(target)[i],
{
    let line = recording::arg_views(args@);
    let before = recording::setting_args(options, traces_dir@);
    let named = recording::target_args(target);
    lemma_settings(options, traces_dir@);
    assert(line.len() == args@.len());
    assert(line == before + named);
    assert forall|i: int| 0 <= i < named.len() implies args@[target_at(options) + i]@
        == #[trigger] named[i] by {
        assert(line[before.len() + i] == named[i]);
        assert(args@[before.len() + i]@ == line[before.len() + i]);
    }
}

/// The command line of the recorder ends with the target: a program with all
/// of its arguments in order, a process by its number, or a program to watch
/// for, behind the filter where there is one.
pub proof fn law_command_lines_end_with_the_target(
    target: TtdTarget,
    options: TtdRecordingOptions,
    traces_dir: HostPath,
    args: Vec<CommandArg>,
)
    requires
        call_ensures(build_ttd_args, (&target, &options, &traces_dir), args),
    ensures
        target matches TtdTarget::Launch { executable, args: given } ==> {
            let at = target_at(options);
            &&& args@.len() == at + 2 + given@.len()
            &&& says(args@[at], "-launch"@)
            &&& shows(args@[at + 1], executable@)
            &&& forall|i: int|
                #![trigger given@[i]]
                0 <= i < given@.len() ==> says(args@[at + 2 + i], given@[i]@)
        },
        target matches TtdTarget::Attach { pid } ==> {
            let at = target_at(options);
            &&& args@.len() == at + 2
            &&& says(args@[at], "-attach"@)
            &&& counts(args@[at + 1], pid as int)
        },
        target matches TtdTarget::Monitor { program, cmd_line_filter } ==> {
            let at = args@.len() - 2;
            &&& says(args@[at], "-monitor"@)
            &&& shows(args@[at + 1], program@)
            &&& match cmd_line_filter {
                None => at == target_at(options),
                Some(filter) => at == target_at(options) + 2 && says(
                    args@[at - 2],
                    "-cmdLineFilter"@,
                ) && says(args@[at - 1], filter@),
            }
        },
{
    let named = recording::target_args(target);
    let at = target_at(options);
    lemma_target_comes_last(target, options, traces_dir, args);
    match target {
        TtdTarget::Launch { executable, args: given } => {
            assert(args@[at + 0]@ == named[0]);
            assert(args@[at + 1]@ == named[1]);
            assert forall|i: int|
                #![trigger given@[i]]
                0 <= i < given@.len() implies says(args@[at + 2 + i], given@[i]@) by {
                assert(named[2 + i] == recording::ArgView::Text(given@[i]@));
                assert(args@[at + (2 + i)]@ == named[2 + i]);
            }
        },
        TtdTarget::Attach { pid } => {
            laws::text::law_numbers_are_read_back(pid as nat);
            assert(args@[at + 0]@ == named[0]);
            assert(args@[at + 1]@ == named[1]);
        },
        TtdTarget::Monitor { program, cmd_line_filter } => {
            let last = named.len() - 2;
            assert(args@[at + last]@ == named[last]);
            assert(args@[at + (last + 1)]@ == named[last + 1]);
            if cmd_line_filter is Some {
                assert(args@[at + 0]@ == named[0]);
                assert(args@[at + 1]@ == named[1]);
            }
        },
    }
}

/// The recorder is told to stop what it records: everything where it watches,
/// the process that is recorded where it is known, and else what the request
/// names.
pub proof fn law_what_is_recorded_is_stopped(
    target: TtdTarget,
    recorded_pid: Option<u32>,
    stop: Option<StopTarget>,
)
    requires
        call_ensures(ttd_stop_target, (&target, recorded_pid), stop),
    ensures
        target is Monitor ==> (stop matches Some(StopTarget::Text(text)) && text@ == "all"@),
        !(target is Monitor) && recorded_pid is Some ==> (stop matches Some(StopTarget::Text(text))
            && tells(text@, recorded_pid->0 as int)),
        (target matches TtdTarget::Attach { pid } && recorded_pid is None) ==> (stop matches Some(
            StopTarget::Text(text),
        ) && tells(text@, target->pid as int)),
        (target is Launch && recorded_pid is None) ==> {
            let parts = target->executable@.parts;
            match stop {
                Some(StopTarget::Text(text)) => parts.len() > 0 && parts.last()
                    == path::PartView::Normal(text@),
                Some(StopTarget::Opaque(bytes)) => parts.len() > 0 && parts.last()
                    == path::PartView::Opaque(bytes@),
                None => parts.len() == 0 || !(parts.last() is Normal || parts.last() is Opaque),
            }
        },
{
    if let Some(pid) = recorded_pid {
        laws::text::law_numbers_are_read_back(pid as nat);
    }
    if let TtdTarget::Attach { pid } = target {
        laws::text::law_numbers_are_read_back(pid as nat);
    }
}

/// A path that can stand on a command line.
pub open spec fn usable_path(shown: path::PathView) -> bool {
    shown.text.len() > 0 && !some_control(shown.text)
}

/// Texts that can stand on a command line.
pub open spec fn usable_texts(texts: Seq<String>) -> bool {
    forall|i: int| 0 <= i < texts.len() ==> !some_control(#[trigger] texts[i]@)
}

/// The path names a program to watch for: no step upwards, and no directory
/// unless all of it is given.
pub open spec fn names_program(program: path::PathView) -> bool {
    &&& forall|i: int| 0 <= i < program.parts.len() ==> !((#[trigger] program.parts[i]) is ParentDir)
    &&& program.absolute || forall|i: int|
        0 <= i < program.text.len() ==> (#[trigger] program.text[i]) != '/' && program.text[i]
            != '\\'
}

/// What a time travel recording can record.
pub open spec fn usable_target(target: TtdTarget) -> bool {
    match target {
        TtdTarget::Launch { executable, args } => usable_path(executable@) && usable_texts(args@),
        TtdTarget::Attach { pid } => pid != 0,
        TtdTarget::Monitor { program, cmd_line_filter } => {
            &&& usable_path(program@)
            &&& names_program(program@)
            &&& cmd_line_filter matches Some(filter) ==> !all_white(filter@) && !some_control(
                filter@,
            )
        },
    }
}

/// The size of a recording lies within what the recorder takes: less for a
/// ring.
pub open spec fn usable_size(options: TtdRecordingOptions) -> bool {
    1 <= options.max_file_mb <= (if options.ring {
        32768int
    } else {
        1048576int
    })
}

/// A request is accepted where it has a timeout, a target, a size and modules
/// that the recorder takes, and is refused otherwise. It is accepted as it is.
pub proof fn law_recordable_requests_are_accepted(
    request: RecordTtd,
    outcome: Result<RecordTtd, RecordingError>,
)
    requires
        call_ensures(RecordTtd::validate, (request,), outcome),
    ensures
        outcome is Ok <==> {
            &&& request.timeout_ms > 0
            &&& usable_target(request.target)
            &&& usable_size(request.options)
            &&& request.target is Monitor || request.options.modules@.len() <= 64
            &&& forall|i: int|
                0 <= i < request.options.modules@.len() ==> !all_white(
                    (#[trigger] request.options.modules@[i])@,
                ) && !some_control(request.options.modules@[i]@)
        },
        outcome matches Ok(accepted) ==> accepted == request,
{
    lemma_targets(request.target);
    lemma_modules_refused(request.options.modules@);
}

proof fn lemma_texts_refused(texts: Seq<String>)
    ensures
        recording::any_has_control(texts) == !usable_texts(texts),
{
    if recording::any_has_control(texts) {
        let i = choose|i: int|
            0 <= i < texts.len() && crate::text::has_control(#[trigger] texts[i]@);
        laws::text::lemma_control_is_found(texts[i]@);
    }
    if !usable_texts(texts) {
        let i = choose|i: int| 0 <= i < texts.len() && some_control(#[trigger] texts[i]@);
        laws::text::lemma_control_is_found(texts[i]@);
    }
}

proof fn lemma_modules_refused(modules: Seq<String>)
    ensures
        (exists|i: int| 0 <= i < modules.len() && recording::bad_module(#[trigger] modules[i]))
            == !(forall|i: int|
            0 <= i < modules.len() ==> !all_white((#[trigger] modules[i])@) && !some_control(
                modules[i]@,
            )),
{
    assert forall|i: int| 0 <= i < modules.len() implies recording::bad_module(
        #[trigger] modules[i],
    ) == (all_white(modules[i]@) || some_control(modules[i]@)) by {
        laws::text::lemma_control_is_found(modules[i]@);
        laws::text::lemma_blank_is_white(modules[i]@);
    }
}

proof fn lemma_targets(target: TtdTarget)
    ensures
        recording::ttd_target_refusal(target) is None <==> usable_target(target),
{
    match target {
        TtdTarget::Launch { executable, args } => {
            laws::text::lemma_control_is_found(executable@.text);
            lemma_texts_refused(args@);
        },
        TtdTarget::Attach { pid } => {},
        TtdTarget::Monitor { program, cmd_line_filter } => {
            laws::text::lemma_control_is_found(program@.text);
            if let Some(filter) = cmd_line_filter {
                laws::text::lemma_control_is_found(filter@);
                laws::text::lemma_blank_is_white(filter@);
            }
            if program@.parts.contains(path::PartView::ParentDir) {
                let i = choose|i: int|
                    0 <= i < program@.parts.len() && program@.parts[i]
                        == path::PartView::ParentDir;
                assert(program@.parts[i] is ParentDir);
            }
        },
    }
}

/// The first thing that is wrong with a request decides the error.
pub proof fn law_time_travel_refusals_name_their_cause(
    request: RecordTtd,
    outcome: Result<RecordTtd, RecordingError>,
)
    requires
        call_ensures(RecordTtd::validate, (request,), outcome),
        outcome is Err,
    ensures
        ({
            let error = outcome->Err_0;
            let options = request.options;
            let named = request.target is Monitor;
            &&& error is InvalidTtdTimeout <==> request.timeout_ms == 0
            &&& request.timeout_ms > 0 && usable_target(request.target) ==> {
                &&& error is InvalidTtdMaxFile <==> options.max_file_mb == 0
                &&& error is TtdRingFileTooLarge <==> options.ring && options.max_file_mb > 32768
                &&& error is TtdFileTooLarge <==> !options.ring && options.max_file_mb > 1048576
                &&& error is TtdModulesTooLarge <==> usable_size(options) && !named
                    && options.modules@.len() > 64
                &&& error is ControlCharacters <==> usable_size(options) && (named
                    || options.modules@.len() <= 64)
            }
            &&& request.timeout_ms > 0 && !usable_target(request.target) ==> match request.target {
                TtdTarget::Launch { executable, .. } => if executable@.text.len() == 0 {
                    error is EmptyTtdExecutable
                } else {
                    error is ControlCharacters
                },
                TtdTarget::Attach { .. } => error is InvalidTtdAttachPid,
                TtdTarget::Monitor { program, cmd_line_filter } => if program@.text.len() == 0 {
                    error is EmptyTtdMonitorProgram
                } else if some_control(program@.text) {
                    error is ControlCharacters
                } else if !names_program(program@) {
                    error is InvalidTtdMonitorProgram
                } else if all_white(cmd_line_filter->0@) {
                    error is EmptyTtdCommandLineFilter
                } else {
                    error is ControlCharacters
                },
            }
        }),
{
    lemma_targets(request.target);
    lemma_modules_refused(request.options.modules@);
    match request.target {
        TtdTarget::Launch { executable, args } => {
            laws::text::lemma_control_is_found(executable@.text);
        },
        TtdTarget::Attach { pid } => {},
        TtdTarget::Monitor { program, cmd_line_filter } => {
            laws::text::lemma_control_is_found(program@.text);
            if let Some(filter) = cmd_line_filter {
                laws::text::lemma_control_is_found(filter@);
                laws::text::lemma_blank_is_white(filter@);
            }
        },
    }
}

/// An event recording is accepted, as it is, where it names a family of events
/// and a program or process that can be recorded, and is refused otherwise by
/// the first thing that is wrong.
pub proof fn law_event_recordings_are_checked(
    request: StartRecording,
    outcome: Result<StartRecording, RecordingError>,
)
    requires
        call_ensures(StartRecording::validate, (request,), outcome),
    ensures
        outcome is Ok <==> request.presets@.len() > 0 && match request.target {
            RecordingTarget::Launch { executable, args } => usable_path(executable@)
                && usable_texts(args@),
            RecordingTarget::Attach { pid } => pid != 0,
        },
        outcome matches Ok(accepted) ==> accepted == request,
        outcome matches Err(error) ==> {
            &&& error is EmptyPresets <==> request.presets@.len() == 0
            &&& error is InvalidAttachPid <==> request.presets@.len() > 0 && request.target is Attach
            &&& error is EmptyExecutable <==> request.presets@.len() > 0 && request.target is Launch
                && request.target->executable@.text.len() == 0
            &&& error is EmptyPresets || error is InvalidAttachPid || error is EmptyExecutable
                || error is ControlCharacters
        },
{
    if let RecordingTarget::Launch { executable, args } = request.target {
        laws::text::lemma_control_is_found(executable@.text);
        lemma_texts_refused(args@);
    }
}

/// A recording has ended where nothing more comes of it: not while it starts,
/// runs or stops.
pub proof fn law_recordings_end(state: RecordingState, ended: bool)
    requires
        call_ensures(RecordingState::is_terminal, (&state,), ended),
    ensures
        ended == !(state is Starting || state is Running || state is Stopping),
{
}

/// The events of a family go to a file of their own, which is named after it.
pub proof fn law_families_have_files_of_their_own(
    one: RecordingPreset,
    other: RecordingPreset,
    file: &'static str,
    other_file: &'static str,
    category: &'static str,
)
    requires
        call_ensures(RecordingPreset::artifact_file_name, (one,), file),
        call_ensures(RecordingPreset::artifact_file_name, (other,), other_file),
        call_ensures(RecordingPreset::category, (one,), category),
    ensures
        file@ == category@ + ".jsonl"@,
        one != other ==> file@ != other_file@,
        one is Process ==> category@ == "process"@,
        one is Thread ==> category@ == "thread"@,
        one is Image ==> category@ == "image"@,
        one is File ==> category@ == "file"@,
        one is Registry ==> category@ == "registry"@,
        one is Network ==> category@ == "network"@,
{
    reveal_strlit("process");
    reveal_strlit("thread");
    reveal_strlit("image");
    reveal_strlit("file");
    reveal_strlit("registry");
    reveal_strlit("network");
    reveal_strlit(".jsonl");
    if one != other {
        assert(file@[0] == one.name()[0]);
        assert(other_file@[0] == other.name()[0]);
        assert(file@.len() == one.name().len() + 6);
        assert(other_file@.len() == other.name().len() + 6);
    }
}

/// A target can be recorded where, and only where, a request for it is
/// accepted, and is kept as it is.
pub proof fn law_targets_are_kept(
    event: RecordingTarget,
    event_verdict: Result<RecordingTarget, RecordingError>,
    ttd: TtdTarget,
    ttd_verdict: Result<TtdTarget, RecordingError>,
)
    requires
        call_ensures(RecordingTarget::validate, (event,), event_verdict),
        call_ensures(TtdTarget::validate, (ttd,), ttd_verdict),
    ensures
        event_verdict matches Ok(kept) ==> kept == event,
        ttd_verdict matches Ok(kept) ==> kept == ttd,
        event_verdict is Ok <==> match event {
            RecordingTarget::Launch { executable, args } => usable_path(executable@)
                && usable_texts(args@),
            RecordingTarget::Attach { pid } => pid != 0,
        },
        ttd_verdict is Ok <==> usable_target(ttd),
        event matches RecordingTarget::Attach { pid } ==> (pid == 0 ==> event_verdict == Err::<
            RecordingTarget,
            RecordingError,
        >(RecordingError::InvalidAttachPid)),
        ttd matches TtdTarget::Attach { pid } ==> (pid == 0 ==> ttd_verdict == Err::<
            TtdTarget,
            RecordingError,
        >(RecordingError::InvalidTtdAttachPid)),
{
    match event {
        RecordingTarget::Launch { executable, args } => {
            laws::text::lemma_control_is_found(executable@.text);
            lemma_texts_refused(args@);
        },
        RecordingTarget::Attach { .. } => {},
    }
    lemma_targets(ttd);
}

/// Options are accepted where the size fits the kind of file and every module
/// can be named; only a target that is not watched for limits their number.
pub proof fn law_options_are_checked(
    options: TtdRecordingOptions,
    target: TtdTarget,
    verdict: Result<(), RecordingError>,
)
    requires
        call_ensures(TtdRecordingOptions::validate, (&options, &target), verdict),
    ensures
        verdict is Ok <==> usable_size(options) && (target is Monitor || options.modules@.len()
            <= 64) && forall|i: int|
            0 <= i < options.modules@.len() ==> !all_white((#[trigger] options.modules@[i])@)
                && !some_control(options.modules@[i]@),
        verdict matches Err(error) ==> if options.max_file_mb == 0 {
            error is InvalidTtdMaxFile
        } else if options.ring && options.max_file_mb > 32768 {
            error is TtdRingFileTooLarge
        } else if options.max_file_mb > 1048576 {
            error is TtdFileTooLarge
        } else if !(target is Monitor) && options.modules@.len() > 64 {
            error is TtdModulesTooLarge
        } else {
            error is ControlCharacters
        },
{
    lemma_modules_refused(options.modules@);
}

/// A target says how it is recorded.
pub proof fn law_targets_say_how_they_are_recorded(
    event: RecordingTarget,
    event_mode: &'static str,
    ttd: TtdTarget,
    ttd_mode: &'static str,
)
    requires
        call_ensures(RecordingTarget::mode, (&event,), event_mode),
        call_ensures(TtdTarget::mode, (&ttd,), ttd_mode),
    ensures
        event is Launch ==> event_mode@ == "launch"@,
        event is Attach ==> event_mode@ == "attach"@,
        ttd is Launch ==> ttd_mode@ == "launch"@,
        ttd is Attach ==> ttd_mode@ == "attach"@,
        ttd is Monitor ==> ttd_mode@ == "monitor"@,
{
}

/// The recorder's own names stand for the modes.
pub proof fn law_modes_are_named_as_the_recorder_names_them(
    mode: TtdRecordMode,
    mode_arg: &'static str,
    support: TtdReplayCpuSupport,
    support_arg: &'static str,
)
    requires
        call_ensures(TtdRecordMode::as_ttd_arg, (mode,), mode_arg),
        call_ensures(TtdReplayCpuSupport::as_ttd_arg, (support,), support_arg),
    ensures
        mode is Automatic ==> mode_arg@ == "Automatic"@,
        mode is Manual ==> mode_arg@ == "Manual"@,
        support is Default ==> support_arg@ == "Default"@,
        support is MostConservative ==> support_arg@ == "MostConservative"@,
        support is MostAggressive ==> support_arg@ == "MostAggressive"@,
        support is IntelAvxRequired ==> support_arg@ == "IntelAvxRequired"@,
        support is IntelAvx2Required ==> support_arg@ == "IntelAvx2Required"@,
{
}

/// Where a request names no family, every family is recorded once; where it
/// names no options, nothing is accepted in the user's name.
pub proof fn law_defaults_record_every_family(
    presets: Vec<RecordingPreset>,
    options: TtdRecordingOptions,
    preset: RecordingPreset,
)
    requires
        call_ensures(default_presets, (), presets),
        call_ensures(TtdRecordingOptions::default, (), options),
    ensures
        presets@.len() == 6,
        presets@.contains(preset),
        presets@.no_duplicates(),
        !options.accept_eula,
        !options.children,
        !options.ring,
        options.no_ui,
        options.max_file_mb == 2048,
        usable_size(options),
        options.modules@.len() == 0,
        options.record_mode is Automatic,
        options.replay_cpu_support is Default,
{
    assert(presets@[0] is Process && presets@[1] is Thread && presets@[2] is Image && presets@[3]
        is File && presets@[4] is Registry && presets@[5] is Network);
}

/// The file of a family bears the family's name.
pub proof fn law_files_bear_the_name_of_their_family(preset: RecordingPreset, file: &'static str)
    requires
        call_ensures(RecordingPreset::artifact_file_name, (preset,), file),
    ensures
        preset is Process ==> file@ == "process.jsonl"@,
        preset is Thread ==> file@ == "thread.jsonl"@,
        preset is Image ==> file@ == "image.jsonl"@,
        preset is File ==> file@ == "file.jsonl"@,
        preset is Registry ==> file@ == "registry.jsonl"@,
        preset is Network ==> file@ == "network.jsonl"@,
{
    reveal_strlit(".jsonl");
    reveal_strlit("process");
    reveal_strlit("process.jsonl");
    reveal_strlit("thread");
    reveal_strlit("thread.jsonl");
    reveal_strlit("image");
    reveal_strlit("image.jsonl");
    reveal_strlit("file");
    reveal_strlit("file.jsonl");
    reveal_strlit("registry");
    reveal_strlit("registry.jsonl");
    reveal_strlit("network");
    reveal_strlit("network.jsonl");
    match preset {
        RecordingPreset::Process => {
            assert(file@ =~= "process.jsonl"@);
        },
        RecordingPreset::Thread => {
            assert(file@ =~= "thread.jsonl"@);
        },
        RecordingPreset::Image => {
            assert(file@ =~= "image.jsonl"@);
        },
        RecordingPreset::File => {
            assert(file@ =~= "file.jsonl"@);
        },
        RecordingPreset::Registry => {
            assert(file@ =~= "registry.jsonl"@);
        },
        RecordingPreset::Network => {
            assert(file@ =~= "network.jsonl"@);
        },
    }
}

} // verus!
