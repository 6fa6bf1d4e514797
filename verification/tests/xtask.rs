use sha2::Digest;
use wasefire_core::xtask::{
    join_space, needs_copy, stack_report, top_stack_sizes, wasm_target, Applet, AppletCommand,
    AppletOptions, Cmd, CommandPlan, ElfSymbols, Flags, MainCommand, MainOptions, MainPlan,
    OptLevel, Runner, RunnerOptions, StackSize,
};

fn strings(words: &[&str]) -> Vec<String> {
    words.iter().map(|w| w.to_string()).collect()
}

fn args_of(cmd: &Cmd) -> Vec<String> {
    cmd.args.clone()
}

fn main_options() -> MainOptions {
    MainOptions { multivalue: false, release: false, size: false }
}

fn runner_options(name: &str) -> RunnerOptions {
    RunnerOptions {
        name: name.to_string(),
        no_default_features: false,
        features: vec![],
        opt_level: OptLevel::default(),
        erase_flash: false,
        gdb: false,
        log: None,
        measure_stack: false,
        measure_bloat: false,
        stack_sizes: None,
        host_target: "x86_64-unknown-linux-gnu".to_string(),
    }
}

fn applet_options(lang: &str, name: &str) -> AppletOptions {
    AppletOptions {
        lang: lang.to_string(),
        name: name.to_string(),
        profile: "release".to_string(),
        features: vec![],
        opt_level: OptLevel::default(),
        stack_size: StackSize::default(),
    }
}

#[test]
fn wasm_target_names_the_release_module() {
    assert_eq!(wasm_target("hello"), "target/wasm32-unknown-unknown/release/hello.wasm");
}

#[test]
fn log_env_matches_the_runner() {
    assert_eq!(runner_options("nordic").log_env(), "DEFMT_LOG");
    assert_eq!(runner_options("host").log_env(), "RUST_LOG");
}

#[test]
fn board_target_names_the_executable() {
    assert_eq!(
        runner_options("nordic").board_target(),
        "target/thumbv7em-none-eabi/release/runner-nordic"
    );
    assert_eq!(
        runner_options("host").board_target(),
        "target/x86_64-unknown-linux-gnu/release/runner-host"
    );
}

#[test]
fn opt_level_round_trips() {
    for (level, text) in [
        (OptLevel::O0, "0"),
        (OptLevel::O1, "1"),
        (OptLevel::O2, "2"),
        (OptLevel::O3, "3"),
        (OptLevel::Os, "s"),
        (OptLevel::Oz, "z"),
    ] {
        assert_eq!(level.as_str(), text);
        assert_eq!(OptLevel::from_str(text), Some(level));
    }
    assert_eq!(OptLevel::from_str("4"), None);
    assert_eq!(OptLevel::default(), OptLevel::O3);
}

#[test]
fn stack_size_defaults_to_16384() {
    assert_eq!(StackSize::default().0, 16384);
    assert_eq!(StackSize::default().text(), "16384");
    assert_eq!(StackSize(0).text(), "0");
    assert_eq!(StackSize(1048576).text(), "1048576");
}

#[test]
fn join_space_puts_single_spaces() {
    assert_eq!(join_space(&strings(&[])), "");
    assert_eq!(join_space(&strings(&["a"])), "a");
    assert_eq!(join_space(&strings(&["a", "bc", "d"])), "a bc d");
}

#[test]
fn needs_copy_compares_digests() {
    let bytes = b"applet contents".to_vec();
    let digest = sha2::Sha256::digest(&bytes).to_vec();
    let (changed, hash) = needs_copy(&bytes, None);
    assert!(changed);
    assert_eq!(hash, digest);
    let (changed, _) = needs_copy(&bytes, Some(&digest));
    assert!(!changed);
    let wrong = vec![0u8; 32];
    let (changed, _) = needs_copy(&bytes, Some(&wrong));
    assert!(changed);
}

#[test]
fn runner_build_plan_is_exact() {
    let mut options = runner_options("nordic");
    options.features = strings(&["debug-allocations"]);
    options.log = Some("trace".to_string());
    options.stack_sizes = Some(None);
    let main = main_options();
    let plan = options.execute(&main, false);
    assert_eq!(plan.cargo.program, "cargo");
    assert_eq!(
        args_of(&plan.cargo),
        strings(&[
            "build",
            "--release",
            "--target=thumbv7em-none-eabi",
            "--features=debug",
            "--features=debug-allocations",
        ])
    );
    let rustflags = "-C link-arg=--nmagic -C link-arg=-Tlink.x -C codegen-units=1 \
-C embed-bitcode=yes -C link-arg=-Tdefmt.x -C debuginfo=2 -C opt-level=3 \
-Z emit-stack-sizes -C link-arg=-Tstack-sizes.x";
    assert_eq!(
        plan.cargo.envs,
        vec![
            ("DEFMT_LOG".to_string(), "trace".to_string()),
            ("RUSTFLAGS".to_string(), rustflags.to_string()),
        ]
    );
    assert_eq!(plan.cargo.dir.as_deref(), Some("crates/runner-nordic"));
    assert!(!plan.replace_cargo);
    assert!(!plan.erase_storage);
    assert_eq!(plan.stack_sizes, Some(10));
    assert_eq!(plan.elf, "target/thumbv7em-none-eabi/release/runner-nordic");
    assert!(plan.bloat.is_none());
    assert!(plan.size.is_none());
    assert!(plan.probe_run.is_none());
    assert!(plan.erase_flash_chip.is_none());
    assert!(plan.gdb_chip.is_none());
}

#[test]
fn runner_release_build_uses_build_std() {
    let options = runner_options("nordic");
    let main = MainOptions { multivalue: false, release: true, size: false };
    let plan = options.execute(&main, false);
    assert_eq!(
        args_of(&plan.cargo),
        strings(&[
            "build",
            "--release",
            "--target=thumbv7em-none-eabi",
            "-Z",
            "build-std=core,alloc",
            "-Z",
            "build-std-features=panic_immediate_abort",
            "--features=release",
        ])
    );
    assert_eq!(
        plan.cargo.envs,
        vec![(
            "RUSTFLAGS".to_string(),
            "-C link-arg=--nmagic -C link-arg=-Tlink.x -C codegen-units=1 \
-C embed-bitcode=yes -C lto=fat -C opt-level=3"
                .to_string()
        )]
    );
}

#[test]
fn host_run_replaces_the_tool() {
    let mut options = runner_options("host");
    options.erase_flash = true;
    let plan = options.execute(&main_options(), true);
    assert_eq!(args_of(&plan.cargo)[0], "run");
    assert!(plan.replace_cargo);
    assert!(plan.erase_storage);
    assert!(plan.probe_run.is_none());
    assert_eq!(plan.stack_sizes, None);
}

#[test]
fn nordic_run_flashes_through_the_probe() {
    let mut options = runner_options("nordic");
    options.erase_flash = true;
    options.gdb = true;
    options.measure_stack = true;
    let plan = options.execute(&main_options(), true);
    assert_eq!(args_of(&plan.cargo)[0], "build");
    assert!(!plan.replace_cargo);
    assert_eq!(plan.erase_flash_chip.as_deref(), Some("nRF52840_xxAA"));
    assert_eq!(plan.gdb_chip.as_deref(), Some("nRF52840_xxAA"));
    let probe = plan.probe_run.expect("probe run");
    assert_eq!(probe.program, "./scripts/wrapper.sh");
    assert_eq!(
        args_of(&probe),
        strings(&[
            "probe-run",
            "--chip=nRF52840_xxAA",
            "--measure-stack",
            "target/thumbv7em-none-eabi/release/runner-nordic",
        ])
    );
}

#[test]
fn runner_bloat_copies_the_build() {
    let mut options = runner_options("nordic");
    options.measure_bloat = true;
    let plan = options.execute(&main_options(), false);
    let ensure = plan.ensure_bloat.expect("ensure bloat");
    assert_eq!(ensure.program, "./scripts/wrapper.sh");
    assert_eq!(args_of(&ensure), strings(&["cargo", "bloat"]));
    assert_eq!(ensure.envs, vec![("WASEFIRE_WRAPPER_EXEC".to_string(), "n".to_string())]);
    let bloat = plan.bloat.expect("bloat");
    assert_eq!(bloat.program, "cargo");
    assert_eq!(
        args_of(&bloat),
        strings(&[
            "bloat",
            "--release",
            "--target=thumbv7em-none-eabi",
            "--features=debug",
            "--crates",
            "--split-std",
        ])
    );
}

#[test]
fn rust_applet_plan_is_exact() {
    let options = applet_options("rust", "hello");
    let main = main_options();
    let plan = options.execute(&main, None, true);
    assert!(plan.setup.is_empty());
    assert_eq!(plan.build.program, "cargo");
    assert_eq!(
        args_of(&plan.build),
        strings(&["build", "--target=wasm32-unknown-unknown", "--profile=release"])
    );
    assert_eq!(
        plan.build.envs,
        vec![
            ("FIRWASM_DEBUG".to_string(), "".to_string()),
            (
                "RUSTFLAGS".to_string(),
                "-C link-arg=-zstack-size=16384 -C panic=abort -C codegen-units=1 \
-C embed-bitcode=yes -C opt-level=3 -C lto=fat"
                    .to_string()
            ),
        ]
    );
    assert_eq!(plan.build.dir.as_deref(), Some("examples/rust/hello"));
    assert_eq!(
        plan.wasm_source.as_deref(),
        Some("target/wasm32-unknown-unknown/release/hello.wasm")
    );
    assert_eq!(plan.build.program, "cargo");
    assert_eq!(plan.wasm.strip.program, "./scripts/wrapper.sh");
    assert_eq!(args_of(&plan.wasm.strip), strings(&["wasm-strip", "target/applet.wasm"]));
    assert_eq!(
        args_of(&plan.wasm.opt),
        strings(&[
            "wasm-opt",
            "--enable-bulk-memory",
            "--enable-sign-ext",
            "-O3",
            "target/applet.wasm",
            "-o",
            "target/applet.wasm",
        ])
    );
    assert!(!plan.wasm.report_size);
}

#[test]
fn rust_applet_path_uses_the_manifest_package() {
    let options = applet_options("rust", "./my/applet");
    let package = "pkg".to_string();
    let plan = options.execute(&main_options(), Some(&package), true);
    assert_eq!(plan.build.dir.as_deref(), Some("./my/applet"));
    assert_eq!(
        plan.wasm_source.as_deref(),
        Some("./my/applet/target/wasm32-unknown-unknown/release/pkg.wasm")
    );
}

#[test]
fn assemblyscript_applet_plan_is_exact() {
    let options = applet_options("assemblyscript", "hello");
    let plan = options.execute(&main_options(), None, false);
    assert_eq!(plan.setup.len(), 2);
    assert_eq!(plan.setup[0].program, "./scripts/wrapper.sh");
    assert_eq!(args_of(&plan.setup[0]), strings(&["npm"]));
    assert_eq!(plan.setup[1].program, "../../scripts/wrapper.sh");
    assert_eq!(
        args_of(&plan.setup[1]),
        strings(&["npm", "install", "--no-save", "assemblyscript"])
    );
    assert_eq!(plan.setup[1].dir.as_deref(), Some("examples/assemblyscript"));
    assert_eq!(plan.build.program, "./node_modules/.bin/asc");
    assert_eq!(
        args_of(&plan.build),
        strings(&[
            "-o",
            "../../target/applet.wasm",
            "-O3",
            "--lowMemoryLimit",
            "--stackSize",
            "16384",
            "--use",
            "abort=hello/main/abort",
            "--debug",
            "hello/main.ts",
        ])
    );
    assert_eq!(plan.build.dir.as_deref(), Some("examples/assemblyscript"));
    assert!(plan.wasm_source.is_none());
}

#[test]
fn twiggy_replaces_the_placeholder() {
    let command = AppletCommand::Twiggy { args: strings(&["top", "APPLET", "-n", "20"]) };
    let plan = command.execute(&main_options());
    match plan {
        CommandPlan::Twiggy(cmd) => {
            assert_eq!(cmd.program, "twiggy");
            assert_eq!(args_of(&cmd), strings(&["top", "target/applet.wasm", "-n", "20"]));
        }
        CommandPlan::Runner(_) => panic!("expected a twiggy plan"),
    }
}

#[test]
fn twiggy_appends_the_module_without_placeholder() {
    let command = AppletCommand::Twiggy { args: strings(&["top"]) };
    let plan = command.execute(&main_options());
    match plan {
        CommandPlan::Twiggy(cmd) => {
            assert_eq!(args_of(&cmd), strings(&["top", "target/applet.wasm"]));
        }
        CommandPlan::Runner(_) => panic!("expected a twiggy plan"),
    }
}

#[test]
fn applet_with_runner_plans_both() {
    let applet = Applet {
        options: applet_options("rust", "hello"),
        command: Some(AppletCommand::Runner(runner_options("nordic"))),
    };
    let (plan, follow) = applet.execute(&main_options(), None, true);
    assert_eq!(plan.build.program, "cargo");
    match follow.expect("follow-up plan") {
        CommandPlan::Runner(runner) => {
            assert!(runner.probe_run.is_some());
        }
        CommandPlan::Twiggy(_) => panic!("expected a runner plan"),
    }
}

#[test]
fn update_apis_plans_the_generator() {
    let flags = Flags { options: main_options(), command: MainCommand::UpdateApis };
    match flags.execute(None, true) {
        MainPlan::UpdateApis(cmd) => {
            assert_eq!(cmd.program, "cargo");
            assert_eq!(
                args_of(&cmd),
                strings(&[
                    "run",
                    "--manifest-path=crates/api-desc/Cargo.toml",
                    "--",
                    "--lang=assemblyscript",
                    "--output=examples/assemblyscript/api.ts",
                ])
            );
        }
        _ => panic!("expected the api update plan"),
    }
}

#[test]
fn runner_subcommand_plans_a_build() {
    let flags = Flags {
        options: main_options(),
        command: MainCommand::Runner(Runner { options: runner_options("host") }),
    };
    match flags.execute(None, true) {
        MainPlan::Runner(plan) => {
            assert!(!plan.replace_cargo);
            assert_eq!(args_of(&plan.cargo)[0], "build");
        }
        _ => panic!("expected a runner plan"),
    }
}

#[test]
fn top_stack_sizes_keeps_the_largest() {
    let entries = vec![
        (5u64, 1u64, "a".to_string()),
        (9, 2, "b".to_string()),
        (1, 3, "c".to_string()),
        (9, 1, "d".to_string()),
    ];
    let top = top_stack_sizes(&entries, 2);
    assert_eq!(top, vec![(9, 1, "d".to_string()), (9, 2, "b".to_string())]);
    let all = top_stack_sizes(&entries, 10);
    assert_eq!(
        all,
        vec![
            (1, 3, "c".to_string()),
            (5, 1, "a".to_string()),
            (9, 1, "d".to_string()),
            (9, 2, "b".to_string()),
        ]
    );
    assert_eq!(top_stack_sizes(&entries, 0), vec![]);
}

fn analyzed_symbols() -> ElfSymbols {
    ElfSymbols {
        have_32_bit_addresses: true,
        undefined: vec![],
        functions: vec![
            (0x100, Some(64), vec!["_ZN3foo3bar17h0123456789abcdefE".to_string()]),
            // No stack usage recorded: skipped, a name is not required.
            (0x200, None, vec![]),
            (0x300, Some(128), vec!["main".to_string(), "alias".to_string()]),
        ],
    }
}

#[test]
fn stack_report_selects_and_demangles() {
    let rows = stack_report(&analyzed_symbols(), 10).expect("expected shape");
    assert_eq!(rows.len(), 2);
    assert_eq!((rows[0].0, rows[0].1), (64, 0x100));
    assert_eq!(rows[0].2, "foo::bar::h0123456789abcdef");
    assert_ne!(rows[0].2, "_ZN3foo3bar17h0123456789abcdefE");
    assert_eq!((rows[1].0, rows[1].1), (128, 0x300));
    assert_eq!(rows[1].2, "main");
    let top_one = stack_report(&analyzed_symbols(), 1).expect("expected shape");
    assert_eq!(top_one.len(), 1);
    assert_eq!((top_one[0].0, top_one[0].1), (128, 0x300));
}

#[test]
fn stack_report_rejects_unexpected_shapes() {
    let mut wide = analyzed_symbols();
    wide.have_32_bit_addresses = false;
    assert!(stack_report(&wide, 10).is_none());
    let mut dynamic = analyzed_symbols();
    dynamic.undefined = vec!["memcpy".to_string()];
    assert!(stack_report(&dynamic, 10).is_none());
    let mut nameless = analyzed_symbols();
    nameless.functions.push((0x400, Some(8), vec![]));
    assert!(stack_report(&nameless, 10).is_none());
}
