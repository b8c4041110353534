use dbgatlas::path::HostPath;
use dbgatlas::recording::{
    build_ttd_args, default_presets, ttd_stop_target, CommandArg, RecordTtd, RecordingError,
    RecordingPreset, RecordingState, RecordingTarget, StartRecording, StopTarget, TtdRecordMode,
    TtdRecordingOptions, TtdReplayCpuSupport, TtdTarget,
};

fn shown(args: &[CommandArg]) -> Vec<String> {
    args.iter()
        .map(|arg| match arg {
            CommandArg::Text(text) => text.clone(),
            CommandArg::Path(path) => path.text.clone(),
        })
        .collect()
}

#[test]
fn validates_launch_target() {
    let request = StartRecording {
        target: RecordingTarget::Launch {
            executable: HostPath::new(r"C:\Windows\System32\notepad.exe"),
            args: vec!["sample.txt".to_string()],
        },
        presets: default_presets(),
    };

    assert!(request.validate().is_ok());
}

#[test]
fn rejects_zero_attach_pid() {
    let request = StartRecording {
        target: RecordingTarget::Attach { pid: 0 },
        presets: default_presets(),
    };

    assert!(matches!(
        request.validate(),
        Err(RecordingError::InvalidAttachPid)
    ));
}

#[test]
fn rejects_empty_presets() {
    let request = StartRecording {
        target: RecordingTarget::Attach { pid: 42 },
        presets: Vec::new(),
    };

    assert!(matches!(
        request.validate(),
        Err(RecordingError::EmptyPresets)
    ));
}

#[test]
fn validates_ttd_request_and_rejects_bad_options() {
    let request = RecordTtd {
        target: TtdTarget::Attach { pid: 42 },
        timeout_ms: 1000,
        options: TtdRecordingOptions::default(),
    };
    assert!(request.validate().is_ok());

    let request = RecordTtd {
        target: TtdTarget::Attach { pid: 0 },
        timeout_ms: 1000,
        options: TtdRecordingOptions::default(),
    };
    assert!(matches!(
        request.validate(),
        Err(RecordingError::InvalidTtdAttachPid)
    ));

    let request = RecordTtd {
        target: TtdTarget::Attach { pid: 42 },
        timeout_ms: 0,
        options: TtdRecordingOptions::default(),
    };
    assert!(matches!(
        request.validate(),
        Err(RecordingError::InvalidTtdTimeout)
    ));
}

#[test]
fn builds_ttd_launch_args() {
    let target = TtdTarget::Launch {
        executable: HostPath::new(r"C:\Windows\System32\cmd.exe"),
        args: vec!["/C".to_string(), "exit 0".to_string()],
    };
    let options = TtdRecordingOptions {
        accept_eula: true,
        children: true,
        modules: vec!["kernel32.dll".to_string()],
        record_mode: TtdRecordMode::Manual,
        replay_cpu_support: TtdReplayCpuSupport::MostConservative,
        ..Default::default()
    };

    let args = build_ttd_args(&target, &options, &HostPath::new(r"C:\case\traces"));
    let text = shown(&args);

    assert!(text.contains(&"-out".to_string()));
    assert!(text.contains(&"-accepteula".to_string()));
    assert!(text.contains(&"-children".to_string()));
    assert!(text.contains(&"-module".to_string()));
    assert!(text.contains(&"kernel32.dll".to_string()));
    assert!(text.contains(&"-recordmode".to_string()));
    assert!(text.contains(&"Manual".to_string()));
    assert!(text.contains(&"-replayCpuSupport".to_string()));
    assert!(text.contains(&"MostConservative".to_string()));
    assert!(text.contains(&"-launch".to_string()));

    assert_eq!(
        text,
        vec![
            "-out",
            r"C:\case\traces",
            "-noUI",
            "-accepteula",
            "-children",
            "-maxFile",
            "2048",
            "-module",
            "kernel32.dll",
            "-recordmode",
            "Manual",
            "-replayCpuSupport",
            "MostConservative",
            "-launch",
            r"C:\Windows\System32\cmd.exe",
            "/C",
            "exit 0",
        ]
    );
}

#[test]
fn ttd_monitor_rejects_relative_path_with_separator() {
    let request = RecordTtd {
        target: TtdTarget::Monitor {
            program: HostPath::new(r"bin\app.exe"),
            cmd_line_filter: None,
        },
        timeout_ms: 1000,
        options: TtdRecordingOptions::default(),
    };
    assert!(matches!(
        request.validate(),
        Err(RecordingError::InvalidTtdMonitorProgram)
    ));
}

#[test]
fn builds_ttd_attach_and_monitor_args() {
    let options = TtdRecordingOptions {
        no_ui: false,
        ring: true,
        max_file_mb: 16,
        ..Default::default()
    };
    let attach = build_ttd_args(
        &TtdTarget::Attach { pid: 42 },
        &options,
        &HostPath::new("traces"),
    );
    assert_eq!(
        shown(&attach),
        vec!["-out", "traces", "-ring", "-maxFile", "16", "-attach", "42"]
    );
    let monitor = build_ttd_args(
        &TtdTarget::Monitor {
            program: HostPath::new("app.exe"),
            cmd_line_filter: Some("--flag".to_string()),
        },
        &options,
        &HostPath::new("traces"),
    );
    assert_eq!(
        shown(&monitor),
        vec![
            "-out",
            "traces",
            "-ring",
            "-maxFile",
            "16",
            "-cmdLineFilter",
            "--flag",
            "-monitor",
            "app.exe"
        ]
    );
}

#[test]
fn chooses_what_to_stop() {
    let monitor = TtdTarget::Monitor {
        program: HostPath::new("app.exe"),
        cmd_line_filter: None,
    };
    assert_eq!(
        ttd_stop_target(&monitor, Some(3)),
        Some(StopTarget::Text("all".to_string()))
    );
    let attach = TtdTarget::Attach { pid: 42 };
    assert_eq!(
        ttd_stop_target(&attach, None),
        Some(StopTarget::Text("42".to_string()))
    );
    assert_eq!(
        ttd_stop_target(&attach, Some(7)),
        Some(StopTarget::Text("7".to_string()))
    );
    let launch = TtdTarget::Launch {
        executable: HostPath::new("bin/app.exe"),
        args: Vec::new(),
    };
    assert_eq!(
        ttd_stop_target(&launch, None),
        Some(StopTarget::Text("app.exe".to_string()))
    );
    assert_eq!(
        ttd_stop_target(&launch, Some(9)),
        Some(StopTarget::Text("9".to_string()))
    );
    let nameless = TtdTarget::Launch {
        executable: HostPath::new(".."),
        args: Vec::new(),
    };
    assert_eq!(ttd_stop_target(&nameless, None), None);
}

#[test]
fn each_refusal_has_its_reason() {
    let refuse = |target: TtdTarget, options: TtdRecordingOptions| {
        RecordTtd {
            target,
            timeout_ms: 1,
            options,
        }
        .validate()
        .unwrap_err()
    };
    let attach = || TtdTarget::Attach { pid: 42 };
    let monitor = |program: &str, filter: Option<&str>| TtdTarget::Monitor {
        program: HostPath::new(program),
        cmd_line_filter: filter.map(str::to_string),
    };
    let options = TtdRecordingOptions::default;

    let refusals = vec![
        (
            refuse(
                attach(),
                TtdRecordingOptions {
                    max_file_mb: 0,
                    ..options()
                },
            ),
            "TTD max_file_mb must be greater than zero",
        ),
        (
            refuse(
                attach(),
                TtdRecordingOptions {
                    ring: true,
                    max_file_mb: 32769,
                    ..options()
                },
            ),
            "TTD ring max_file_mb must be at most 32768",
        ),
        (
            refuse(
                attach(),
                TtdRecordingOptions {
                    max_file_mb: 1_048_577,
                    ..options()
                },
            ),
            "TTD max_file_mb must be at most 1048576",
        ),
        (
            refuse(
                attach(),
                TtdRecordingOptions {
                    modules: vec!["m".to_string(); 65],
                    ..options()
                },
            ),
            "TTD modules list is too large",
        ),
        (
            refuse(
                attach(),
                TtdRecordingOptions {
                    modules: vec![" ".to_string()],
                    ..options()
                },
            ),
            "recording arguments must not contain control characters",
        ),
        (
            refuse(
                TtdTarget::Launch {
                    executable: HostPath::new(""),
                    args: Vec::new(),
                },
                options(),
            ),
            "TTD launch executable must not be empty",
        ),
        (
            refuse(
                TtdTarget::Launch {
                    executable: HostPath::new("app.exe"),
                    args: vec!["a\u{2028}b".to_string()],
                },
                options(),
            ),
            "recording arguments must not contain control characters",
        ),
        (
            refuse(attach_zero(), options()),
            "TTD attach pid must not be zero",
        ),
        (
            refuse(monitor("", None), options()),
            "TTD monitor program must not be empty",
        ),
        (
            refuse(monitor("..", None), options()),
            "TTD monitor program must be a file name or an absolute path",
        ),
        (
            refuse(monitor("app.exe", Some(" ")), options()),
            "TTD monitor cmd_line_filter must not be empty",
        ),
        (
            refuse(monitor("app.exe", Some("a\nb")), options()),
            "recording arguments must not contain control characters",
        ),
    ];
    for (error, text) in refusals {
        assert_eq!(error.message(), text);
    }
}

fn attach_zero() -> TtdTarget {
    TtdTarget::Attach { pid: 0 }
}

#[test]
fn monitors_take_many_modules() {
    let request = RecordTtd {
        target: TtdTarget::Monitor {
            program: HostPath::new("app.exe"),
            cmd_line_filter: None,
        },
        timeout_ms: 1,
        options: TtdRecordingOptions {
            modules: vec!["m".to_string(); 65],
            ..TtdRecordingOptions::default()
        },
    };
    assert!(request.validate().is_ok());
}

#[test]
fn refuses_bad_recording_targets() {
    let refuse = |executable: &str, args: Vec<String>| {
        RecordingTarget::Launch {
            executable: HostPath::new(executable),
            args,
        }
        .validate()
        .unwrap_err()
    };
    assert_eq!(
        refuse("", Vec::new()).message(),
        "recording launch executable must not be empty"
    );
    assert_eq!(
        refuse("a\nb", Vec::new()),
        RecordingError::ControlCharacters
    );
    assert_eq!(
        refuse("app.exe", vec!["\u{7f}".to_string()]),
        RecordingError::ControlCharacters
    );
    assert_eq!(
        RecordingError::InvalidAttachPid.message(),
        "recording attach pid must not be zero"
    );
    assert_eq!(
        RecordingError::EmptyPresets.message(),
        "recording preset list must not be empty"
    );
    assert_eq!(
        RecordingError::InvalidTtdTimeout.message(),
        "TTD timeout_ms must be greater than zero"
    );
}

#[test]
fn names_of_presets_and_modes() {
    assert_eq!(RecordingPreset::DEFAULTS.to_vec(), default_presets());
    assert_eq!(default_presets().len(), 6);
    for preset in default_presets() {
        assert_eq!(
            preset.artifact_file_name(),
            format!("{}.jsonl", preset.category())
        );
    }
    assert_eq!(RecordingPreset::Registry.category(), "registry");
    assert_eq!(RecordingTarget::Attach { pid: 1 }.mode(), "attach");
    assert_eq!(TtdTarget::Attach { pid: 1 }.mode(), "attach");
    assert_eq!(
        TtdTarget::Monitor {
            program: HostPath::new("a"),
            cmd_line_filter: None
        }
        .mode(),
        "monitor"
    );
    assert_eq!(TtdRecordMode::Automatic.as_ttd_arg(), "Automatic");
    assert_eq!(
        TtdReplayCpuSupport::IntelAvx2Required.as_ttd_arg(),
        "IntelAvx2Required"
    );
    assert!(RecordingState::Killed.is_terminal());
    assert!(!RecordingState::Stopping.is_terminal());
}

#[test]
fn accepted_command_lines_hold_no_control_characters() {
    let request = RecordTtd {
        target: TtdTarget::Launch {
            executable: HostPath::new("app.exe"),
            args: vec!["one two".to_string()],
        },
        timeout_ms: 1,
        options: TtdRecordingOptions {
            modules: vec!["kernel32.dll".to_string()],
            ..TtdRecordingOptions::default()
        },
    }
    .validate()
    .unwrap();
    let args = build_ttd_args(&request.target, &request.options, &HostPath::new("traces"));
    assert!(shown(&args)
        .iter()
        .all(|arg| !arg.chars().any(char::is_control)));
    assert_eq!(shown(&args).last().unwrap(), "one two");
}
