//! Build-tool planning: turns the command-line options of the applet/runner
//! build tool into exact command invocations, as plain data.
//!
//! The surrounding binary spawns the commands and touches the file system;
//! everything that decides or computes — argument lists, compiler flag sets,
//! target triples, content-hash comparisons, stack-size reports — stands
//! here, verified.

use sha2::Digest;
use vstd::prelude::*;
use vstd::string::StringExecFns;

verus! {

/// One command invocation: program, arguments, extra environment variables,
/// and the working directory, all as plain data.
pub struct Cmd {
    pub program: String,
    pub args: Vec<String>,
    pub envs: Vec<(String, String)>,
    pub dir: Option<String>,
}

/// Exec comparison of two string slices by contents.
pub fn str_eq(a: &str, b: &str) -> (r: bool)
    ensures
        r == (a@ == b@),
{
    let sa = String::from_str(a);
    let sb = String::from_str(b);
    sa == sb
}

/// Exec comparison of two byte vectors by contents.
pub fn bytes_eq(a: &Vec<u8>, b: &Vec<u8>) -> (r: bool)
    ensures
        r == (a@ == b@),
{
    if a.len() != b.len() {
        return false;
    }
    let mut i: usize = 0;
    while i < a.len()
        invariant
            i <= a.len(),
            a@.len() == b@.len(),
            forall|j: int| 0 <= j < i ==> a@[j] == b@[j],
        decreases a.len() - i,
    {
        if a[i] != b[i] {
            return false;
        }
        i += 1;
    }
    proof {
        assert(a@ =~= b@);
    }
    true
}

/// The words joined with single spaces, as compiler flag lists are handed to
/// the build through one environment variable.
pub open spec fn spec_join_space(parts: Seq<Seq<char>>) -> Seq<char>
    decreases parts.len(),
{
    if parts.len() == 0 {
        Seq::<char>::empty()
    } else if parts.len() == 1 {
        parts[0]
    } else {
        spec_join_space(parts.drop_last()) + " "@ + parts.last()
    }
}

/// Joins the parts with single spaces.
pub fn join_space(parts: &Vec<String>) -> (r: String)
    ensures
        r@ == spec_join_space(parts.deep_view()),
{
    let mut r = String::new();
    let mut i: usize = 0;
    while i < parts.len()
        invariant
            i <= parts.len(),
            r@ == spec_join_space(parts.deep_view().take(i as int)),
        decreases parts.len() - i,
    {
        if i > 0 {
            r.append(" ");
        }
        r.append(parts[i].as_str());
        proof {
            let dv = parts.deep_view();
            assert(dv.take(i + 1 as int).drop_last() =~= dv.take(i as int));
            assert(dv.take(i + 1 as int).last() == dv[i as int]);
        }
        i += 1;
    }
    proof {
        assert(parts.deep_view().take(parts.deep_view().len() as int) =~= parts.deep_view());
    }
    r
}

/// The decimal digit characters.
pub open spec fn digit_char(d: int) -> char {
    if d == 0 {
        '0'
    } else if d == 1 {
        '1'
    } else if d == 2 {
        '2'
    } else if d == 3 {
        '3'
    } else if d == 4 {
        '4'
    } else if d == 5 {
        '5'
    } else if d == 6 {
        '6'
    } else if d == 7 {
        '7'
    } else if d == 8 {
        '8'
    } else {
        '9'
    }
}

/// The decimal rendering of a nonnegative number, most significant digit
/// first, with no sign and no padding.
pub open spec fn spec_decimal(n: int) -> Seq<char>
    recommends
        n >= 0,
    decreases n,
{
    if n < 10 {
        seq![digit_char(n)]
    } else {
        spec_decimal(n / 10).push(digit_char(n % 10))
    }
}

/// Relies on the std `Display` implementation for `usize`: it formats the
/// value in decimal, with no sign and no padding.
#[verifier::external_body]
pub fn usize_decimal(n: usize) -> (r: String)
    ensures
        r@ == spec_decimal(n as int),
{
    format!("{}", n)
}

/// The SHA-256 digest of a byte sequence; a function of the bytes alone.
pub uninterp spec fn sha256_of(bytes: Seq<u8>) -> Seq<u8>;

/// Relies on `sha2::Sha256::digest`: the SHA-256 digest of the input, 32
/// bytes, a function of the input alone.
#[verifier::external_body]
fn sha256(bytes: &Vec<u8>) -> (r: Vec<u8>)
    ensures
        r@ == sha256_of(bytes@),
        r@.len() == 32,
{
    sha2::Sha256::digest(bytes.as_slice()).to_vec()
}

/// Decides whether a file must be copied again, from its current contents
/// and the recorded digest of the last copy: a copy is due unless the
/// recorded digest exists and matches. Also returns the digest to record
/// after copying.
pub fn needs_copy(src_bytes: &Vec<u8>, dst_hash: Option<&Vec<u8>>) -> (r: (bool, Vec<u8>))
    ensures
        r.1@ == sha256_of(src_bytes@),
        r.0 == !(dst_hash matches Some(h) && h@ == sha256_of(src_bytes@)),
{
    let hash = sha256(src_bytes);
    let changed = match dst_hash {
        None => true,
        Some(h) => !bytes_eq(h, &hash),
    };
    (changed, hash)
}

/// The demangled form of a symbol name; a function of the name alone.
pub uninterp spec fn demangled(name: Seq<char>) -> Seq<char>;

/// Relies on `rustc_demangle::demangle`: renders the demangled form of the
/// symbol name, a function of the name alone.
#[verifier::external_body]
fn demangle_symbol(name: &str) -> (r: String)
    ensures
        r@ == demangled(name@),
{
    format!("{}", rustc_demangle::demangle(name))
}

/// What the binding's ELF analysis reports, as plain values: whether the
/// addresses are 32-bit, the undefined symbol names, and the functions as
/// (address, stack usage, names) rows.
pub struct ElfSymbols {
    pub have_32_bit_addresses: bool,
    pub undefined: Vec<String>,
    pub functions: Vec<(u64, Option<u64>, Vec<String>)>,
}

/// Optimization level handed to the compilers (0, 1, 2, 3, s, z).
#[derive(Debug, PartialEq, Eq, Structural, Clone, Copy)]
pub enum OptLevel {
    O0,
    O1,
    O2,
    O3,
    Os,
    Oz,
}

impl OptLevel {
    /// The level as it is written on a command line.
    pub open spec fn spec_str(self) -> Seq<char> {
        match self {
            OptLevel::O0 => "0"@,
            OptLevel::O1 => "1"@,
            OptLevel::O2 => "2"@,
            OptLevel::O3 => "3"@,
            OptLevel::Os => "s"@,
            OptLevel::Oz => "z"@,
        }
    }

    /// Renders the level as it is written on a command line.
    pub fn as_str(&self) -> (r: &'static str)
        ensures
            r@ == self.spec_str(),
    {
        match self {
            OptLevel::O0 => "0",
            OptLevel::O1 => "1",
            OptLevel::O2 => "2",
            OptLevel::O3 => "3",
            OptLevel::Os => "s",
            OptLevel::Oz => "z",
        }
    }

    /// The level a command-line word denotes, if any.
    pub open spec fn spec_parse(s: Seq<char>) -> Option<OptLevel> {
        if s == "0"@ {
            Some(OptLevel::O0)
        } else if s == "1"@ {
            Some(OptLevel::O1)
        } else if s == "2"@ {
            Some(OptLevel::O2)
        } else if s == "3"@ {
            Some(OptLevel::O3)
        } else if s == "s"@ {
            Some(OptLevel::Os)
        } else if s == "z"@ {
            Some(OptLevel::Oz)
        } else {
            None
        }
    }

    /// Parses a command-line word into a level.
    pub fn from_str(s: &str) -> (r: Option<OptLevel>)
        ensures
            r == Self::spec_parse(s@),
    {
        if str_eq(s, "0") {
            Some(OptLevel::O0)
        } else if str_eq(s, "1") {
            Some(OptLevel::O1)
        } else if str_eq(s, "2") {
            Some(OptLevel::O2)
        } else if str_eq(s, "3") {
            Some(OptLevel::O3)
        } else if str_eq(s, "s") {
            Some(OptLevel::Os)
        } else if str_eq(s, "z") {
            Some(OptLevel::Oz)
        } else {
            None
        }
    }
}

impl Default for OptLevel {
    /// The default level is 3.
    fn default() -> (r: Self)
        ensures
            r == OptLevel::O3,
    {
        OptLevel::O3
    }
}

/// Stack size handed to the applet build, in bytes.
#[derive(Debug, PartialEq, Eq, Structural, Clone, Copy)]
pub struct StackSize(pub usize);

impl StackSize {
    /// Renders the size as it is written on a command line.
    pub fn text(&self) -> (r: String)
        ensures
            r@ == spec_decimal(self.0 as int),
    {
        usize_decimal(self.0)
    }
}

impl Default for StackSize {
    /// The default stack size is 16384 bytes.
    fn default() -> (r: Self)
        ensures
            r.0 == 16384,
    {
        StackSize(16384)
    }
}

/// Options common to every subcommand of the build tool.
#[derive(Debug, PartialEq, Eq, Structural, Clone, Copy)]
pub struct MainOptions {
    /// Compiles with multivalue support.
    pub multivalue: bool,
    /// Compiles without debugging support.
    pub release: bool,
    /// Prints basic size information.
    pub size: bool,
}

/// Options of the runner build subcommand.
pub struct RunnerOptions {
    /// Runner name.
    pub name: String,
    /// Cargo no-default-features.
    pub no_default_features: bool,
    /// Cargo features.
    pub features: Vec<String>,
    /// Optimization level.
    pub opt_level: OptLevel,
    /// Erases all the flash first.
    pub erase_flash: bool,
    /// Prints the command lines to use a debugger.
    pub gdb: bool,
    /// Log filter handed to the runner.
    pub log: Option<String>,
    /// Measures stack usage while running.
    pub measure_stack: bool,
    /// Measures bloat after building.
    pub measure_bloat: bool,
    /// Shows the (top N) stack sizes of the firmware.
    pub stack_sizes: Option<Option<usize>>,
    /// The toolchain triple of the host, supplied by the binding (which
    /// queries the toolchain once); used when `name` is "host".
    pub host_target: String,
}

impl RunnerOptions {
    /// The runner targets the on-device board.
    pub open spec fn is_nordic(&self) -> bool {
        self.name@ == "nordic"@
    }

    /// The runner targets the host.
    pub open spec fn is_host(&self) -> bool {
        self.name@ == "host"@
    }

    /// The compilation target triple of this runner.
    pub open spec fn spec_target(&self) -> Seq<char> {
        if self.is_nordic() {
            "thumbv7em-none-eabi"@
        } else {
            self.host_target@
        }
    }

    /// The compilation target triple: the embedded triple for the on-device
    /// runner, the host triple for the host runner.
    pub fn target(&self) -> (r: String)
        requires
            self.is_nordic() || self.is_host(),
        ensures
            r@ == self.spec_target(),
    {
        if str_eq(self.name.as_str(), "nordic") {
            String::from_str("thumbv7em-none-eabi")
        } else {
            self.host_target.clone()
        }
    }

    /// The environment variable that carries the log filter of this runner.
    pub fn log_env(&self) -> (r: &'static str)
        requires
            self.is_nordic() || self.is_host(),
        ensures
            self.is_nordic() ==> r@ == "DEFMT_LOG"@,
            !self.is_nordic() ==> r@ == "RUST_LOG"@,
    {
        if str_eq(self.name.as_str(), "nordic") {
            "DEFMT_LOG"
        } else {
            "RUST_LOG"
        }
    }

    /// Where the built runner executable lands.
    pub fn board_target(&self) -> (r: String)
        requires
            self.is_nordic() || self.is_host(),
        ensures
            r@ == "target/"@ + self.spec_target() + "/release/runner-"@ + self.name@,
    {
        let target = self.target();
        let mut r = String::from_str("target/");
        r.append(target.as_str());
        r.append("/release/runner-");
        r.append(self.name.as_str());
        r
    }
}

/// Builds one string from a literal prefix and a tail.
pub fn lit_plus(prefix: &str, rest: &str) -> (r: String)
    ensures
        r@ == prefix@ + rest@,
{
    let mut s = String::from_str(prefix);
    s.append(rest);
    s
}

/// Appends one argument, seen as its contents.
fn push_str(v: &mut Vec<String>, s: String)
    ensures
        final(v).deep_view() == old(v).deep_view().push(s@),
{
    let ghost pre = v.deep_view();
    v.push(s);
    proof {
        assert(v.deep_view() =~= pre.push(s@));
    }
}

/// Appends one environment entry, seen as its contents.
fn push_pair(v: &mut Vec<(String, String)>, key: String, value: String)
    ensures
        final(v).deep_view() == old(v).deep_view().push((key@, value@)),
{
    let ghost pre = v.deep_view();
    v.push((key, value));
    proof {
        assert(v.deep_view() =~= pre.push((key@, value@)));
    }
}

/// Copies a vector of strings by contents.
fn clone_strings(v: &Vec<String>) -> (r: Vec<String>)
    ensures
        r@ == v@,
        r.deep_view() == v.deep_view(),
{
    let mut r: Vec<String> = Vec::new();
    let mut i: usize = 0;
    while i < v.len()
        invariant
            i <= v.len(),
            r@ =~= v@.take(i as int),
        decreases v.len() - i,
    {
        r.push(v[i].clone());
        proof {
            assert(r@ =~= v@.take(i + 1 as int));
        }
        i += 1;
    }
    proof {
        assert(v@.take(v@.len() as int) =~= v@);
        assert(r.deep_view() =~= v.deep_view());
    }
    r
}

/// Copies a vector of environment entries by contents.
fn clone_pairs(v: &Vec<(String, String)>) -> (r: Vec<(String, String)>)
    ensures
        r.deep_view() == v.deep_view(),
{
    let mut r: Vec<(String, String)> = Vec::new();
    let mut i: usize = 0;
    while i < v.len()
        invariant
            i <= v.len(),
            r@ =~= v@.take(i as int),
        decreases v.len() - i,
    {
        r.push((v[i].0.clone(), v[i].1.clone()));
        proof {
            assert((v@[i as int].0, v@[i as int].1) == v@[i as int]);
            assert(r@ =~= v@.take(i + 1 as int));
        }
        i += 1;
    }
    proof {
        assert(v@.take(v@.len() as int) =~= v@);
        assert(r.deep_view() =~= v.deep_view());
    }
    r
}

/// What a tool bootstrap check looks like: the named command is run through
/// the wrapper script with execution switched off, so the wrapper only
/// checks and installs the tool.
pub open spec fn ensure_cmd_ok(words: Seq<Seq<char>>, c: Cmd) -> bool {
    &&& c.program@ == "./scripts/wrapper.sh"@
    &&& c.args.deep_view() == words
    &&& c.envs.deep_view() == seq![("WASEFIRE_WRAPPER_EXEC"@, "n"@)]
    &&& c.dir is None
}

/// The invocation that checks a tool is installed without running it.
pub fn ensure_command(cmd: &Vec<String>) -> (r: Cmd)
    ensures
        ensure_cmd_ok(cmd.deep_view(), r),
{
    let mut envs: Vec<(String, String)> = Vec::new();
    push_pair(&mut envs, String::from_str("WASEFIRE_WRAPPER_EXEC"), String::from_str("n"));
    proof {
        assert(envs.deep_view() =~= seq![("WASEFIRE_WRAPPER_EXEC"@, "n"@)]);
    }
    Cmd {
        program: String::from_str("./scripts/wrapper.sh"),
        args: clone_strings(cmd),
        envs,
        dir: None,
    }
}

/// The chip of the on-device runner, as the flashing tools name it.
pub open spec fn spec_chip() -> Seq<char> {
    "nRF52840_xxAA"@
}

/// The cargo arguments of a runner build, before the extra feature flags.
pub open spec fn spec_runner_args_base(o: RunnerOptions, main: MainOptions, run: bool) -> Seq<
    Seq<char>,
> {
    seq![
        (if run && o.is_host() {
            "run"@
        } else {
            "build"@
        }),
        "--release"@,
        "--target="@ + o.spec_target(),
    ] + (if o.is_nordic() && main.release {
        seq!["-Z"@, "build-std=core,alloc"@, "-Z"@, "build-std-features=panic_immediate_abort"@]
    } else {
        Seq::<Seq<char>>::empty()
    }) + seq![
        (if main.release {
            "--features=release"@
        } else {
            "--features=debug"@
        }),
    ] + (if o.no_default_features {
        seq!["--no-default-features"@]
    } else {
        Seq::<Seq<char>>::empty()
    })
}

/// The full cargo arguments of a runner build.
pub open spec fn spec_runner_cargo_args(o: RunnerOptions, main: MainOptions, run: bool) -> Seq<
    Seq<char>,
> {
    spec_runner_args_base(o, main, run) + o.features.deep_view().map_values(
        |f: Seq<char>| "--features="@ + f,
    )
}

/// The compiler flags of a runner build.
pub open spec fn spec_runner_rustflags(o: RunnerOptions, main: MainOptions) -> Seq<Seq<char>> {
    (if o.is_nordic() {
        seq![
            "-C link-arg=--nmagic"@,
            "-C link-arg=-Tlink.x"@,
            "-C codegen-units=1"@,
            "-C embed-bitcode=yes"@,
        ] + (if main.release {
            seq!["-C lto=fat"@]
        } else {
            seq!["-C link-arg=-Tdefmt.x"@, "-C debuginfo=2"@]
        })
    } else {
        Seq::<Seq<char>>::empty()
    }) + seq!["-C opt-level="@ + o.opt_level.spec_str()] + (if o.stack_sizes is Some {
        seq!["-Z emit-stack-sizes"@, "-C link-arg=-Tstack-sizes.x"@]
    } else {
        Seq::<Seq<char>>::empty()
    })
}

/// The environment of a runner build: the log filter when one was asked
/// for, and the joined compiler flags.
pub open spec fn spec_runner_envs(o: RunnerOptions, main: MainOptions) -> Seq<
    (Seq<char>, Seq<char>),
> {
    (match o.log {
        Some(l) => seq![
            (
                (if o.is_nordic() {
                    "DEFMT_LOG"@
                } else {
                    "RUST_LOG"@
                }),
                l@,
            ),
        ],
        None => Seq::<(Seq<char>, Seq<char>)>::empty(),
    }) + seq![("RUSTFLAGS"@, spec_join_space(spec_runner_rustflags(o, main)))]
}

/// Where the built runner executable lands.
pub open spec fn spec_elf(o: RunnerOptions) -> Seq<char> {
    "target/"@ + o.spec_target() + "/release/runner-"@ + o.name@
}

/// The probe invocation that flashes and runs the on-device runner.
pub open spec fn spec_probe_args(o: RunnerOptions, main: MainOptions) -> Seq<Seq<char>> {
    seq!["probe-run"@, "--chip=nRF52840_xxAA"@] + (if main.release {
        seq!["--backtrace=never"@]
    } else {
        Seq::<Seq<char>>::empty()
    }) + (if o.measure_stack {
        seq!["--measure-stack"@]
    } else {
        Seq::<Seq<char>>::empty()
    }) + seq![spec_elf(o)]
}

/// Everything one runner build does, as plain data for the binding to
/// carry out in order: the build (or in-place run), the optional bloat and
/// size measurements, the stack-size report, and the flash/run steps.
pub struct RunnerPlan {
    /// The cargo invocation.
    pub cargo: Cmd,
    /// Execute `cargo` in place of the tool (host run); nothing follows.
    pub replace_cargo: bool,
    /// Remove the host flash file first, when it exists.
    pub erase_storage: bool,
    /// Check that the bloat tool is installed.
    pub ensure_bloat: Option<Cmd>,
    /// Measure bloat after building.
    pub bloat: Option<Cmd>,
    /// Print basic size information of the executable.
    pub size: Option<Cmd>,
    /// Report this many top stack consumers of the built executable.
    pub stack_sizes: Option<usize>,
    /// Where the built executable lands.
    pub elf: String,
    /// Erase the flash of this chip through the probe first.
    pub erase_flash_chip: Option<String>,
    /// Print debugger instructions for this chip.
    pub gdb_chip: Option<String>,
    /// Execute this in place of the tool at the end (on-device run).
    pub probe_run: Option<Cmd>,
}

/// What the plan of one runner build holds, exactly, for given options.
pub open spec fn runner_plan_ok(
    o: RunnerOptions,
    main: MainOptions,
    run: bool,
    r: RunnerPlan,
) -> bool {
    let replace = run && o.is_host();
    &&& r.cargo.program@ == "cargo"@
    &&& r.cargo.args.deep_view() == spec_runner_cargo_args(o, main, run)
    &&& r.cargo.envs.deep_view() == spec_runner_envs(o, main)
    &&& r.cargo.dir matches Some(d) && d@ == "crates/runner-"@ + o.name@
    &&& r.replace_cargo == replace
    &&& r.erase_storage == (replace && o.erase_flash)
    &&& r.elf@ == spec_elf(o)
    &&& if o.measure_bloat && !replace {
        &&& r.ensure_bloat matches Some(c) && ensure_cmd_ok(seq!["cargo"@, "bloat"@], c)
        &&& r.bloat matches Some(b) && {
            &&& b.program@ == "cargo"@
            &&& b.args.deep_view() == seq!["bloat"@] + spec_runner_cargo_args(
                o,
                main,
                run,
            ).drop_first() + seq!["--crates"@, "--split-std"@]
            &&& b.envs.deep_view() == spec_runner_envs(o, main)
            &&& b.dir matches Some(d) && d@ == "crates/runner-"@ + o.name@
        }
    } else {
        r.ensure_bloat is None && r.bloat is None
    }
    &&& if main.size && !replace {
        r.size matches Some(c) && {
            &&& c.program@ == "./scripts/wrapper.sh"@
            &&& c.args.deep_view() == seq!["rust-size"@, spec_elf(o)]
            &&& c.envs.deep_view() == Seq::<(Seq<char>, Seq<char>)>::empty()
            &&& c.dir is None
        }
    } else {
        r.size is None
    }
    &&& r.stack_sizes == (if replace {
        None::<usize>
    } else {
        match o.stack_sizes {
            Some(Some(n)) => Some(n),
            Some(None) => Some(10usize),
            None => None,
        }
    })
    &&& if run && !replace && o.erase_flash {
        r.erase_flash_chip matches Some(s) && s@ == spec_chip()
    } else {
        r.erase_flash_chip is None
    }
    &&& if run && !replace && o.gdb {
        r.gdb_chip matches Some(s) && s@ == spec_chip()
    } else {
        r.gdb_chip is None
    }
    &&& if run && !replace {
        r.probe_run matches Some(c) && {
            &&& c.program@ == "./scripts/wrapper.sh"@
            &&& c.args.deep_view() == spec_probe_args(o, main)
            &&& c.envs.deep_view() == Seq::<(Seq<char>, Seq<char>)>::empty()
            &&& c.dir is None
        }
    } else {
        r.probe_run is None
    }
}

impl RunnerOptions {
    /// Lays out everything one runner build does. With `run`, a host build
    /// ends by executing cargo in place, and an on-device build ends by
    /// flashing and running through the probe.
    #[verifier::rlimit(60)]
    pub fn execute(&self, main: &MainOptions, run: bool) -> (r: RunnerPlan)
        requires
            self.is_nordic() || self.is_host(),
        ensures
            runner_plan_ok(*self, *main, run, r),
    {
        proof {
            reveal_strlit("nordic");
            reveal_strlit("host");
            assert("nordic"@.len() == 6);
            assert("host"@.len() == 4);
        }
        let nordic = str_eq(self.name.as_str(), "nordic");
        let replace_cargo = run && !nordic;
        let mut args: Vec<String> = Vec::new();
        if replace_cargo {
            push_str(&mut args, String::from_str("run"));
        } else {
            push_str(&mut args, String::from_str("build"));
        }
        push_str(&mut args, String::from_str("--release"));
        let target = self.target();
        push_str(&mut args, lit_plus("--target=", target.as_str()));
        if nordic && main.release {
            push_str(&mut args, String::from_str("-Z"));
            push_str(&mut args, String::from_str("build-std=core,alloc"));
            push_str(&mut args, String::from_str("-Z"));
            push_str(&mut args, String::from_str("build-std-features=panic_immediate_abort"));
        }
        if main.release {
            push_str(&mut args, String::from_str("--features=release"));
        } else {
            push_str(&mut args, String::from_str("--features=debug"));
        }
        if self.no_default_features {
            push_str(&mut args, String::from_str("--no-default-features"));
        }
        proof {
            assert(args.deep_view() =~= spec_runner_args_base(*self, *main, run));
        }
        let ghost feature_flag = |f: Seq<char>| "--features="@ + f;
        let mut i: usize = 0;
        while i < self.features.len()
            invariant
                i <= self.features.len(),
                args.deep_view() =~= spec_runner_args_base(*self, *main, run)
                    + self.features.deep_view().take(i as int).map_values(feature_flag),
                feature_flag == (|f: Seq<char>| "--features="@ + f),
            decreases self.features.len() - i,
        {
            push_str(&mut args, lit_plus("--features=", self.features[i].as_str()));
            proof {
                let dv = self.features.deep_view();
                assert(dv.take(i + 1 as int).map_values(feature_flag) =~= dv.take(
                    i as int,
                ).map_values(feature_flag).push(feature_flag(dv[i as int])));
                assert(args.deep_view() =~= spec_runner_args_base(*self, *main, run) + dv.take(
                    i + 1 as int,
                ).map_values(feature_flag));
            }
            i += 1;
        }
        proof {
            let dv = self.features.deep_view();
            assert(dv.take(dv.len() as int) =~= dv);
            assert(args.deep_view() =~= spec_runner_cargo_args(*self, *main, run));
        }
        let mut rustflags: Vec<String> = Vec::new();
        if nordic {
            push_str(&mut rustflags, String::from_str("-C link-arg=--nmagic"));
            push_str(&mut rustflags, String::from_str("-C link-arg=-Tlink.x"));
            push_str(&mut rustflags, String::from_str("-C codegen-units=1"));
            push_str(&mut rustflags, String::from_str("-C embed-bitcode=yes"));
            if main.release {
                push_str(&mut rustflags, String::from_str("-C lto=fat"));
            } else {
                push_str(&mut rustflags, String::from_str("-C link-arg=-Tdefmt.x"));
                push_str(&mut rustflags, String::from_str("-C debuginfo=2"));
            }
        }
        push_str(&mut rustflags, lit_plus("-C opt-level=", self.opt_level.as_str()));
        if self.stack_sizes.is_some() {
            push_str(&mut rustflags, String::from_str("-Z emit-stack-sizes"));
            push_str(&mut rustflags, String::from_str("-C link-arg=-Tstack-sizes.x"));
        }
        proof {
            assert(rustflags.deep_view() =~= spec_runner_rustflags(*self, *main));
        }
        let mut envs: Vec<(String, String)> = Vec::new();
        match &self.log {
            Some(l) => {
                let key = self.log_env();
                push_pair(&mut envs, String::from_str(key), l.clone());
            },
            None => {},
        }
        push_pair(&mut envs, String::from_str("RUSTFLAGS"), join_space(&rustflags));
        proof {
            assert(envs.deep_view() =~= spec_runner_envs(*self, *main));
        }
        let dir = lit_plus("crates/runner-", self.name.as_str());
        let cargo = Cmd {
            program: String::from_str("cargo"),
            args,
            envs,
            dir: Some(dir),
        };
        let elf = self.board_target();
        let (ensure_bloat, bloat) = if self.measure_bloat && !replace_cargo {
            let mut ensure_words: Vec<String> = Vec::new();
            push_str(&mut ensure_words, String::from_str("cargo"));
            push_str(&mut ensure_words, String::from_str("bloat"));
            proof {
                assert(ensure_words.deep_view() =~= seq!["cargo"@, "bloat"@]);
            }
            let ensure = ensure_command(&ensure_words);
            let mut bargs: Vec<String> = Vec::new();
            push_str(&mut bargs, String::from_str("bloat"));
            let mut k: usize = 1;
            while k < cargo.args.len()
                invariant
                    1 <= k <= cargo.args.len(),
                    cargo.args.deep_view().len() >= 1,
                    bargs.deep_view() =~= seq!["bloat"@] + cargo.args.deep_view().subrange(
                        1,
                        k as int,
                    ),
                decreases cargo.args.len() - k,
            {
                push_str(&mut bargs, cargo.args[k].clone());
                proof {
                    assert(bargs.deep_view() =~= seq!["bloat"@] + cargo.args.deep_view().subrange(
                        1,
                        k + 1 as int,
                    ));
                }
                k += 1;
            }
            push_str(&mut bargs, String::from_str("--crates"));
            push_str(&mut bargs, String::from_str("--split-std"));
            proof {
                let cdv = cargo.args.deep_view();
                assert(cdv.subrange(1, cdv.len() as int) =~= cdv.drop_first());
                assert(bargs.deep_view() =~= seq!["bloat"@] + spec_runner_cargo_args(
                    *self,
                    *main,
                    run,
                ).drop_first() + seq!["--crates"@, "--split-std"@]);
            }
            let bloat_cmd = Cmd {
                program: String::from_str("cargo"),
                args: bargs,
                envs: clone_pairs(&cargo.envs),
                dir: Some(lit_plus("crates/runner-", self.name.as_str())),
            };
            (Some(ensure), Some(bloat_cmd))
        } else {
            (None, None)
        };
        let size = if main.size && !replace_cargo {
            let mut sargs: Vec<String> = Vec::new();
            push_str(&mut sargs, String::from_str("rust-size"));
            push_str(&mut sargs, elf.clone());
            proof {
                assert(sargs.deep_view() =~= seq!["rust-size"@, spec_elf(*self)]);
            }
            let senvs: Vec<(String, String)> = Vec::new();
            proof {
                assert(senvs.deep_view() =~= Seq::<(Seq<char>, Seq<char>)>::empty());
            }
            Some(
                Cmd {
                    program: String::from_str("./scripts/wrapper.sh"),
                    args: sargs,
                    envs: senvs,
                    dir: None,
                },
            )
        } else {
            None
        };
        let stack_sizes = if replace_cargo {
            None
        } else {
            match self.stack_sizes {
                Some(Some(n)) => Some(n),
                Some(None) => Some(10),
                None => None,
            }
        };
        let erase_flash_chip = if run && !replace_cargo && self.erase_flash {
            Some(String::from_str("nRF52840_xxAA"))
        } else {
            None
        };
        let gdb_chip = if run && !replace_cargo && self.gdb {
            Some(String::from_str("nRF52840_xxAA"))
        } else {
            None
        };
        let probe_run = if run && !replace_cargo {
            let mut pargs: Vec<String> = Vec::new();
            push_str(&mut pargs, String::from_str("probe-run"));
            push_str(&mut pargs, String::from_str("--chip=nRF52840_xxAA"));
            if main.release {
                push_str(&mut pargs, String::from_str("--backtrace=never"));
            }
            if self.measure_stack {
                push_str(&mut pargs, String::from_str("--measure-stack"));
            }
            push_str(&mut pargs, elf.clone());
            proof {
                assert(pargs.deep_view() =~= spec_probe_args(*self, *main));
            }
            let penvs: Vec<(String, String)> = Vec::new();
            proof {
                assert(penvs.deep_view() =~= Seq::<(Seq<char>, Seq<char>)>::empty());
            }
            Some(
                Cmd {
                    program: String::from_str("./scripts/wrapper.sh"),
                    args: pargs,
                    envs: penvs,
                    dir: None,
                },
            )
        } else {
            None
        };
        let erase_storage = replace_cargo && self.erase_flash;
        RunnerPlan {
            cargo,
            replace_cargo,
            erase_storage,
            ensure_bloat,
            bloat,
            size,
            stack_sizes,
            elf,
            erase_flash_chip,
            gdb_chip,
            probe_run,
        }
    }
}

/// Options of the runner subcommand.
pub struct Runner {
    pub options: RunnerOptions,
}

impl Runner {
    /// Lays out the runner build, without running it.
    pub fn execute(&self, main: &MainOptions) -> (r: RunnerPlan)
        requires
            self.options.is_nordic() || self.options.is_host(),
        ensures
            runner_plan_ok(self.options, *main, false, r),
    {
        self.options.execute(main, false)
    }
}

/// Where the wasm build of an applet with the given package name lands.
pub open spec fn spec_wasm_target(name: Seq<char>) -> Seq<char> {
    "target/wasm32-unknown-unknown/release/"@ + name + ".wasm"@
}

/// Where the wasm build of an applet with the given package name lands.
pub fn wasm_target(name: &str) -> (r: String)
    ensures
        r@ == spec_wasm_target(name@),
{
    let mut r = String::from_str("target/wasm32-unknown-unknown/release/");
    r.append(name);
    r.append(".wasm");
    r
}

/// Options of the applet build subcommand.
pub struct AppletOptions {
    /// Applet language.
    pub lang: String,
    /// Applet name, or its path when it starts with a dot or slash.
    pub name: String,
    /// Cargo profile.
    pub profile: String,
    /// Cargo features.
    pub features: Vec<String>,
    /// Optimization level.
    pub opt_level: OptLevel,
    /// Stack size.
    pub stack_size: StackSize,
}

/// The wasm post-processing of one applet build: strip, then optimize.
pub struct WasmPlan {
    /// Strip the wasm module.
    pub strip: Cmd,
    /// Optimize the wasm module in place.
    pub opt: Cmd,
    /// Print the module's size around each step.
    pub report_size: bool,
}

/// The arguments of the wasm strip step.
pub open spec fn spec_strip_args() -> Seq<Seq<char>> {
    seq!["wasm-strip"@, "target/applet.wasm"@]
}

/// The arguments of the wasm optimization step.
pub open spec fn spec_wasm_opt_args(o: AppletOptions, main: MainOptions) -> Seq<Seq<char>> {
    seq!["wasm-opt"@] + (if main.multivalue {
        seq!["--enable-multivalue"@]
    } else {
        Seq::<Seq<char>>::empty()
    }) + seq![
        "--enable-bulk-memory"@,
        "--enable-sign-ext"@,
        "-O"@ + o.opt_level.spec_str(),
        "target/applet.wasm"@,
        "-o"@,
        "target/applet.wasm"@,
    ]
}

/// What the wasm post-processing plan holds, exactly.
pub open spec fn wasm_plan_ok(o: AppletOptions, main: MainOptions, r: WasmPlan) -> bool {
    &&& r.strip.program@ == "./scripts/wrapper.sh"@
    &&& r.strip.args.deep_view() == spec_strip_args()
    &&& r.strip.envs.deep_view() == Seq::<(Seq<char>, Seq<char>)>::empty()
    &&& r.strip.dir is None
    &&& r.opt.program@ == "./scripts/wrapper.sh"@
    &&& r.opt.args.deep_view() == spec_wasm_opt_args(o, main)
    &&& r.opt.envs.deep_view() == Seq::<(Seq<char>, Seq<char>)>::empty()
    &&& r.opt.dir is None
    &&& r.report_size == main.size
}

/// The cargo arguments of a rust applet build.
pub open spec fn spec_applet_cargo_args(o: AppletOptions, main: MainOptions) -> Seq<Seq<char>> {
    seq!["build"@, "--target=wasm32-unknown-unknown"@, "--profile="@ + o.profile@]
        + o.features.deep_view().map_values(|f: Seq<char>| "--features="@ + f) + (
    if main.release {
        seq!["-Zbuild-std=core,alloc"@, "-Zbuild-std-features=panic_immediate_abort"@]
    } else {
        Seq::<Seq<char>>::empty()
    })
}

/// The compiler flags of a rust applet build.
pub open spec fn spec_applet_rustflags(o: AppletOptions, main: MainOptions) -> Seq<Seq<char>> {
    seq![
        "-C link-arg=-zstack-size="@ + spec_decimal(o.stack_size.0 as int),
        "-C panic=abort"@,
        "-C codegen-units=1"@,
        "-C embed-bitcode=yes"@,
        "-C opt-level="@ + o.opt_level.spec_str(),
        "-C lto=fat"@,
    ] + (if main.multivalue {
        seq!["-C target-feature=+multivalue"@]
    } else {
        Seq::<Seq<char>>::empty()
    })
}

/// The environment of a rust applet build.
pub open spec fn spec_applet_envs(o: AppletOptions, main: MainOptions) -> Seq<
    (Seq<char>, Seq<char>),
> {
    (if !main.release {
        seq![("FIRWASM_DEBUG"@, ""@)]
    } else {
        Seq::<(Seq<char>, Seq<char>)>::empty()
    }) + seq![("RUSTFLAGS"@, spec_join_space(spec_applet_rustflags(o, main)))]
}

/// The directory a rust applet is built in: the applet path itself when the
/// name is a path (the binding then supplies the package name read from its
/// manifest), else the named example.
pub open spec fn spec_applet_dir(o: AppletOptions, dir_package: Option<&String>) -> Seq<char> {
    match dir_package {
        Some(_) => o.name@,
        None => "examples/"@ + o.lang@ + "/"@ + o.name@,
    }
}

/// Where the wasm module of a rust applet build lands.
pub open spec fn spec_applet_wasm(o: AppletOptions, dir_package: Option<&String>) -> Seq<char> {
    match dir_package {
        Some(p) => o.name@ + "/"@ + spec_wasm_target(p@),
        None => spec_wasm_target(o.name@),
    }
}

/// Everything one applet build does, as plain data: optional tool
/// bootstrap, the build itself, and the wasm post-processing. When
/// `wasm_source` is set, the module is first copied to
/// `target/applet.wasm` when its hash changed, and the post-processing
/// runs only then; otherwise the post-processing always runs.
pub struct AppletPlan {
    /// Tool bootstrap commands, in order.
    pub setup: Vec<Cmd>,
    /// The build invocation.
    pub build: Cmd,
    /// The built module to copy to `target/applet.wasm` when changed.
    pub wasm_source: Option<String>,
    /// The wasm post-processing.
    pub wasm: WasmPlan,
}

/// What a rust applet build plan holds, exactly.
pub open spec fn applet_rust_plan_ok(
    o: AppletOptions,
    main: MainOptions,
    dir_package: Option<&String>,
    r: AppletPlan,
) -> bool {
    &&& r.setup@.len() == 0
    &&& r.build.program@ == "cargo"@
    &&& r.build.args.deep_view() == spec_applet_cargo_args(o, main)
    &&& r.build.envs.deep_view() == spec_applet_envs(o, main)
    &&& r.build.dir matches Some(d) && d@ == spec_applet_dir(o, dir_package)
    &&& r.wasm_source matches Some(w) && w@ == spec_applet_wasm(o, dir_package)
    &&& wasm_plan_ok(o, main, r.wasm)
}

/// The arguments of an assemblyscript applet build.
pub open spec fn spec_asc_args(o: AppletOptions, main: MainOptions) -> Seq<Seq<char>> {
    seq![
        "-o"@,
        "../../target/applet.wasm"@,
        "-O"@ + o.opt_level.spec_str(),
        "--lowMemoryLimit"@,
        "--stackSize"@,
        spec_decimal(o.stack_size.0 as int),
        "--use"@,
        "abort="@ + o.name@ + "/main/abort"@,
        (if main.release {
            "--noAssert"@
        } else {
            "--debug"@
        }),
        o.name@ + "/main.ts"@,
    ]
}

/// What an assemblyscript applet build plan holds, exactly. When the
/// compiler is not installed yet, the plan starts by checking for npm and
/// installing it.
pub open spec fn applet_as_plan_ok(
    o: AppletOptions,
    main: MainOptions,
    asc_installed: bool,
    r: AppletPlan,
) -> bool {
    &&& if asc_installed {
        r.setup@.len() == 0
    } else {
        &&& r.setup@.len() == 2
        &&& ensure_cmd_ok(seq!["npm"@], r.setup@[0])
        &&& r.setup@[1].program@ == "../../scripts/wrapper.sh"@
        &&& r.setup@[1].args.deep_view() == seq![
            "npm"@,
            "install"@,
            "--no-save"@,
            "assemblyscript"@,
        ]
        &&& r.setup@[1].envs.deep_view() == Seq::<(Seq<char>, Seq<char>)>::empty()
        &&& r.setup@[1].dir matches Some(d) && d@ == "examples/"@ + o.lang@
    }
    &&& r.build.program@ == "./node_modules/.bin/asc"@
    &&& r.build.args.deep_view() == spec_asc_args(o, main)
    &&& r.build.envs.deep_view() == Seq::<(Seq<char>, Seq<char>)>::empty()
    &&& r.build.dir matches Some(d) && d@ == "examples/"@ + o.lang@
    &&& r.wasm_source is None
    &&& wasm_plan_ok(o, main, r.wasm)
}

/// What an applet build plan holds, for either language.
pub open spec fn applet_plan_ok(
    o: AppletOptions,
    main: MainOptions,
    dir_package: Option<&String>,
    asc_installed: bool,
    r: AppletPlan,
) -> bool {
    if o.lang@ == "rust"@ {
        applet_rust_plan_ok(o, main, dir_package, r)
    } else {
        applet_as_plan_ok(o, main, asc_installed, r)
    }
}

impl AppletOptions {
    /// Lays out an applet build in the language the options name.
    /// `dir_package` carries the package name that the binding read from the
    /// applet directory's manifest, when the applet name is a path;
    /// `asc_installed` whether the assemblyscript compiler is present.
    pub fn execute(&self, main: &MainOptions, dir_package: Option<&String>, asc_installed: bool)
        -> (r: AppletPlan)
        requires
            self.lang@ == "rust"@ || self.lang@ == "assemblyscript"@,
        ensures
            applet_plan_ok(*self, *main, dir_package, asc_installed, r),
    {
        if str_eq(self.lang.as_str(), "rust") {
            self.execute_rust(main, dir_package)
        } else {
            self.execute_assemblyscript(main, asc_installed)
        }
    }

    /// Lays out a rust applet build.
    pub fn execute_rust(&self, main: &MainOptions, dir_package: Option<&String>) -> (r: AppletPlan)
        ensures
            applet_rust_plan_ok(*self, *main, dir_package, r),
    {
        let (dir, wasm) = match dir_package {
            Some(package) => {
                let mut w = self.name.clone();
                w.append("/");
                let t = wasm_target(package.as_str());
                w.append(t.as_str());
                (self.name.clone(), w)
            },
            None => {
                let mut d = String::from_str("examples/");
                d.append(self.lang.as_str());
                d.append("/");
                d.append(self.name.as_str());
                (d, wasm_target(self.name.as_str()))
            },
        };
        let mut args: Vec<String> = Vec::new();
        push_str(&mut args, String::from_str("build"));
        push_str(&mut args, String::from_str("--target=wasm32-unknown-unknown"));
        push_str(&mut args, lit_plus("--profile=", self.profile.as_str()));
        let ghost feature_flag = |f: Seq<char>| "--features="@ + f;
        let ghost head = seq!["build"@, "--target=wasm32-unknown-unknown"@, "--profile="@ + self.profile@];
        proof {
            assert(args.deep_view() =~= head);
        }
        let mut i: usize = 0;
        while i < self.features.len()
            invariant
                i <= self.features.len(),
                args.deep_view() =~= head + self.features.deep_view().take(i as int).map_values(
                    feature_flag,
                ),
                head == seq![
                    "build"@,
                    "--target=wasm32-unknown-unknown"@,
                    "--profile="@ + self.profile@,
                ],
                feature_flag == (|f: Seq<char>| "--features="@ + f),
            decreases self.features.len() - i,
        {
            push_str(&mut args, lit_plus("--features=", self.features[i].as_str()));
            proof {
                let dv = self.features.deep_view();
                assert(dv.take(i + 1 as int).map_values(feature_flag) =~= dv.take(
                    i as int,
                ).map_values(feature_flag).push(feature_flag(dv[i as int])));
                assert(args.deep_view() =~= head + dv.take(i + 1 as int).map_values(feature_flag));
            }
            i += 1;
        }
        if main.release {
            push_str(&mut args, String::from_str("-Zbuild-std=core,alloc"));
            push_str(&mut args, String::from_str("-Zbuild-std-features=panic_immediate_abort"));
        }
        proof {
            let dv = self.features.deep_view();
            assert(dv.take(dv.len() as int) =~= dv);
            assert(args.deep_view() =~= spec_applet_cargo_args(*self, *main));
        }
        let mut rustflags: Vec<String> = Vec::new();
        push_str(&mut rustflags, lit_plus("-C link-arg=-zstack-size=", self.stack_size.text().as_str()));
        push_str(&mut rustflags, String::from_str("-C panic=abort"));
        push_str(&mut rustflags, String::from_str("-C codegen-units=1"));
        push_str(&mut rustflags, String::from_str("-C embed-bitcode=yes"));
        push_str(&mut rustflags, lit_plus("-C opt-level=", self.opt_level.as_str()));
        push_str(&mut rustflags, String::from_str("-C lto=fat"));
        if main.multivalue {
            push_str(&mut rustflags, String::from_str("-C target-feature=+multivalue"));
        }
        proof {
            assert(rustflags.deep_view() =~= spec_applet_rustflags(*self, *main));
        }
        let mut envs: Vec<(String, String)> = Vec::new();
        proof {
            assert(envs.deep_view() =~= Seq::<(Seq<char>, Seq<char>)>::empty());
        }
        if !main.release {
            push_pair(&mut envs, String::from_str("FIRWASM_DEBUG"), String::from_str(""));
        }
        push_pair(&mut envs, String::from_str("RUSTFLAGS"), join_space(&rustflags));
        proof {
            assert(envs.deep_view() =~= spec_applet_envs(*self, *main));
        }
        AppletPlan {
            setup: Vec::new(),
            build: Cmd { program: String::from_str("cargo"), args, envs, dir: Some(dir) },
            wasm_source: Some(wasm),
            wasm: self.execute_wasm(main),
        }
    }

    /// Lays out an assemblyscript applet build.
    pub fn execute_assemblyscript(&self, main: &MainOptions, asc_installed: bool) -> (r: AppletPlan)
        ensures
            applet_as_plan_ok(*self, *main, asc_installed, r),
    {
        let mut setup: Vec<Cmd> = Vec::new();
        if !asc_installed {
            let mut npm_word: Vec<String> = Vec::new();
            push_str(&mut npm_word, String::from_str("npm"));
            proof {
                assert(npm_word.deep_view() =~= seq!["npm"@]);
            }
            setup.push(ensure_command(&npm_word));
            let mut iargs: Vec<String> = Vec::new();
            push_str(&mut iargs, String::from_str("npm"));
            push_str(&mut iargs, String::from_str("install"));
            push_str(&mut iargs, String::from_str("--no-save"));
            push_str(&mut iargs, String::from_str("assemblyscript"));
            proof {
                assert(iargs.deep_view() =~= seq!["npm"@, "install"@, "--no-save"@, "assemblyscript"@]);
            }
            let ienvs: Vec<(String, String)> = Vec::new();
            proof {
                assert(ienvs.deep_view() =~= Seq::<(Seq<char>, Seq<char>)>::empty());
            }
            setup.push(
                Cmd {
                    program: String::from_str("../../scripts/wrapper.sh"),
                    args: iargs,
                    envs: ienvs,
                    dir: Some(lit_plus("examples/", self.lang.as_str())),
                },
            );
        }
        let mut args: Vec<String> = Vec::new();
        push_str(&mut args, String::from_str("-o"));
        push_str(&mut args, String::from_str("../../target/applet.wasm"));
        push_str(&mut args, lit_plus("-O", self.opt_level.as_str()));
        push_str(&mut args, String::from_str("--lowMemoryLimit"));
        push_str(&mut args, String::from_str("--stackSize"));
        push_str(&mut args, self.stack_size.text());
        push_str(&mut args, String::from_str("--use"));
        let mut abort = String::from_str("abort=");
        abort.append(self.name.as_str());
        abort.append("/main/abort");
        push_str(&mut args, abort);
        if main.release {
            push_str(&mut args, String::from_str("--noAssert"));
        } else {
            push_str(&mut args, String::from_str("--debug"));
        }
        push_str(&mut args, lit_plus(&self.name.as_str(), "/main.ts"));
        proof {
            assert(args.deep_view() =~= spec_asc_args(*self, *main));
        }
        let benvs: Vec<(String, String)> = Vec::new();
        proof {
            assert(benvs.deep_view() =~= Seq::<(Seq<char>, Seq<char>)>::empty());
        }
        AppletPlan {
            setup,
            build: Cmd {
                program: String::from_str("./node_modules/.bin/asc"),
                args,
                envs: benvs,
                dir: Some(lit_plus("examples/", self.lang.as_str())),
            },
            wasm_source: None,
            wasm: self.execute_wasm(main),
        }
    }

    /// Lays out the wasm post-processing of an applet build.
    pub fn execute_wasm(&self, main: &MainOptions) -> (r: WasmPlan)
        ensures
            wasm_plan_ok(*self, *main, r),
    {
        let mut sargs: Vec<String> = Vec::new();
        push_str(&mut sargs, String::from_str("wasm-strip"));
        push_str(&mut sargs, String::from_str("target/applet.wasm"));
        proof {
            assert(sargs.deep_view() =~= spec_strip_args());
        }
        let senvs: Vec<(String, String)> = Vec::new();
        proof {
            assert(senvs.deep_view() =~= Seq::<(Seq<char>, Seq<char>)>::empty());
        }
        let mut oargs: Vec<String> = Vec::new();
        push_str(&mut oargs, String::from_str("wasm-opt"));
        if main.multivalue {
            push_str(&mut oargs, String::from_str("--enable-multivalue"));
        }
        push_str(&mut oargs, String::from_str("--enable-bulk-memory"));
        push_str(&mut oargs, String::from_str("--enable-sign-ext"));
        push_str(&mut oargs, lit_plus("-O", self.opt_level.as_str()));
        push_str(&mut oargs, String::from_str("target/applet.wasm"));
        push_str(&mut oargs, String::from_str("-o"));
        push_str(&mut oargs, String::from_str("target/applet.wasm"));
        proof {
            assert(oargs.deep_view() =~= spec_wasm_opt_args(*self, *main));
        }
        let oenvs: Vec<(String, String)> = Vec::new();
        proof {
            assert(oenvs.deep_view() =~= Seq::<(Seq<char>, Seq<char>)>::empty());
        }
        WasmPlan {
            strip: Cmd {
                program: String::from_str("./scripts/wrapper.sh"),
                args: sargs,
                envs: senvs,
                dir: None,
            },
            opt: Cmd {
                program: String::from_str("./scripts/wrapper.sh"),
                args: oargs,
                envs: oenvs,
                dir: None,
            },
            report_size: main.size,
        }
    }
}

/// The applet subcommand: build the applet, then optionally run a runner
/// with it or inspect it.
pub struct Applet {
    pub options: AppletOptions,
    pub command: Option<AppletCommand>,
}

/// What follows an applet build.
pub enum AppletCommand {
    /// Compiles a runner with the applet and runs it.
    Runner(RunnerOptions),
    /// Runs the twiggy inspector on the applet.
    Twiggy { args: Vec<String> },
}

/// The inspector arguments with the placeholder word replaced by the built
/// module's path; when the placeholder never occurs the path is appended.
pub open spec fn spec_twiggy_args(args: Seq<Seq<char>>, used: bool) -> Seq<Seq<char>>
    decreases args.len(),
{
    if args.len() == 0 {
        if used {
            Seq::<Seq<char>>::empty()
        } else {
            seq!["target/applet.wasm"@]
        }
    } else {
        (if !used && args.first() == "APPLET"@ {
            seq!["target/applet.wasm"@]
        } else {
            seq![args.first()]
        }) + spec_twiggy_args(args.drop_first(), used || args.first() == "APPLET"@)
    }
}

/// The plan of what follows an applet build.
pub enum CommandPlan {
    Runner(RunnerPlan),
    Twiggy(Cmd),
}

/// What the follow-up plan holds for each subcommand.
pub open spec fn command_plan_ok(c: AppletCommand, main: MainOptions, r: CommandPlan) -> bool {
    match c {
        AppletCommand::Runner(o) => r matches CommandPlan::Runner(p) && runner_plan_ok(
            o,
            main,
            true,
            p,
        ),
        AppletCommand::Twiggy { args } => r matches CommandPlan::Twiggy(t) && {
            &&& t.program@ == "twiggy"@
            &&& t.args.deep_view() == spec_twiggy_args(args.deep_view(), false)
            &&& t.envs.deep_view() == Seq::<(Seq<char>, Seq<char>)>::empty()
            &&& t.dir is None
        },
    }
}

/// What must hold of a follow-up subcommand before planning it: a runner
/// must be a known board, and the placeholder word may occur at most once
/// among inspector arguments (a second occurrence would stop the tool).
pub open spec fn command_wf(c: AppletCommand) -> bool {
    match c {
        AppletCommand::Runner(o) => o.is_nordic() || o.is_host(),
        AppletCommand::Twiggy { args } => forall|i: int, j: int|
            0 <= i < j < args.deep_view().len() ==> !(args.deep_view()[i] == "APPLET"@
                && args.deep_view()[j] == "APPLET"@),
    }
}

impl AppletCommand {
    /// Lays out the follow-up of an applet build.
    pub fn execute(&self, main: &MainOptions) -> (r: CommandPlan)
        requires
            command_wf(*self),
        ensures
            command_plan_ok(*self, *main, r),
    {
        match self {
            AppletCommand::Runner(options) => CommandPlan::Runner(options.execute(main, true)),
            AppletCommand::Twiggy { args } => {
                let ghost dv = args.deep_view();
                let mut targs: Vec<String> = Vec::new();
                let mut used = false;
                let mut i: usize = 0;
                proof {
                    assert(targs.deep_view() =~= Seq::<Seq<char>>::empty());
                    assert(dv.skip(0) =~= dv);
                    assert(targs.deep_view() + spec_twiggy_args(dv.skip(0), false) =~=
                        spec_twiggy_args(dv, false));
                }
                while i < args.len()
                    invariant
                        i <= args.len(),
                        dv == args.deep_view(),
                        targs.deep_view() + spec_twiggy_args(dv.skip(i as int), used)
                            == spec_twiggy_args(dv, false),
                    decreases args.len() - i,
                {
                    proof {
                        assert(dv.skip(i as int).first() == dv[i as int]);
                        assert(dv.skip(i as int).drop_first() =~= dv.skip(i + 1 as int));
                    }
                    if !used && str_eq(args[i].as_str(), "APPLET") {
                        push_str(&mut targs, String::from_str("target/applet.wasm"));
                        used = true;
                    } else {
                        push_str(&mut targs, args[i].clone());
                    }
                    proof {
                        assert(targs.deep_view() + spec_twiggy_args(dv.skip(i + 1 as int), used)
                            =~= spec_twiggy_args(dv, false));
                    }
                    i += 1;
                }
                if !used {
                    push_str(&mut targs, String::from_str("target/applet.wasm"));
                }
                proof {
                    assert(dv.skip(dv.len() as int) =~= Seq::<Seq<char>>::empty());
                    assert(targs.deep_view() =~= spec_twiggy_args(dv, false));
                }
                let tenvs: Vec<(String, String)> = Vec::new();
                proof {
                    assert(tenvs.deep_view() =~= Seq::<(Seq<char>, Seq<char>)>::empty());
                }
                CommandPlan::Twiggy(
                    Cmd {
                        program: String::from_str("twiggy"),
                        args: targs,
                        envs: tenvs,
                        dir: None,
                    },
                )
            },
        }
    }
}

impl Applet {
    /// Lays out the applet build and its optional follow-up.
    pub fn execute(
        &self,
        main: &MainOptions,
        dir_package: Option<&String>,
        asc_installed: bool,
    ) -> (r: (AppletPlan, Option<CommandPlan>))
        requires
            self.options.lang@ == "rust"@ || self.options.lang@ == "assemblyscript"@,
            self.command matches Some(c) ==> command_wf(c),
        ensures
            applet_plan_ok(self.options, *main, dir_package, asc_installed, r.0),
            self.command matches Some(c) ==> r.1 matches Some(p) && command_plan_ok(c, *main, p),
            self.command is None ==> r.1 is None,
    {
        let plan = self.options.execute(main, dir_package, asc_installed);
        let follow = match &self.command {
            Some(command) => Some(command.execute(main)),
            None => None,
        };
        (plan, follow)
    }
}

/// The subcommands of the build tool.
pub enum MainCommand {
    /// Compiles an applet.
    Applet(Applet),
    /// Compiles a runner.
    Runner(Runner),
    /// Updates the applet language bindings.
    UpdateApis,
}

/// The whole command line of the build tool.
pub struct Flags {
    pub options: MainOptions,
    pub command: MainCommand,
}

/// The plan of one invocation of the build tool.
pub enum MainPlan {
    Applet(AppletPlan, Option<CommandPlan>),
    Runner(RunnerPlan),
    UpdateApis(Cmd),
}

/// What must hold of a command line before planning it.
pub open spec fn flags_wf(f: Flags) -> bool {
    match f.command {
        MainCommand::Applet(a) => {
            &&& a.options.lang@ == "rust"@ || a.options.lang@ == "assemblyscript"@
            &&& a.command matches Some(c) ==> command_wf(c)
        },
        MainCommand::Runner(r) => r.options.is_nordic() || r.options.is_host(),
        MainCommand::UpdateApis => true,
    }
}

/// What the plan of one invocation holds for each subcommand.
pub open spec fn main_plan_ok(f: Flags, dir_package: Option<&String>, asc_installed: bool, r: MainPlan) -> bool {
    match f.command {
        MainCommand::Applet(a) => r matches MainPlan::Applet(plan, follow) && {
            &&& applet_plan_ok(a.options, f.options, dir_package, asc_installed, plan)
            &&& a.command matches Some(c) ==> follow matches Some(p) && command_plan_ok(
                c,
                f.options,
                p,
            )
            &&& a.command is None ==> follow is None
        },
        MainCommand::Runner(runner) => r matches MainPlan::Runner(p) && runner_plan_ok(
            runner.options,
            f.options,
            false,
            p,
        ),
        MainCommand::UpdateApis => r matches MainPlan::UpdateApis(c) && {
            &&& c.program@ == "cargo"@
            &&& c.args.deep_view() == seq![
                "run"@,
                "--manifest-path=crates/api-desc/Cargo.toml"@,
                "--"@,
                "--lang=assemblyscript"@,
                "--output=examples/assemblyscript/api.ts"@,
            ]
            &&& c.envs.deep_view() == Seq::<(Seq<char>, Seq<char>)>::empty()
            &&& c.dir is None
        },
    }
}

impl Flags {
    /// Lays out everything one invocation of the build tool does.
    pub fn execute(&self, dir_package: Option<&String>, asc_installed: bool) -> (r: MainPlan)
        requires
            flags_wf(*self),
        ensures
            main_plan_ok(*self, dir_package, asc_installed, r),
    {
        match &self.command {
            MainCommand::Applet(applet) => {
                let (plan, follow) = applet.execute(&self.options, dir_package, asc_installed);
                MainPlan::Applet(plan, follow)
            },
            MainCommand::Runner(runner) => MainPlan::Runner(runner.execute(&self.options)),
            MainCommand::UpdateApis => {
                let mut args: Vec<String> = Vec::new();
                push_str(&mut args, String::from_str("run"));
                push_str(&mut args, String::from_str("--manifest-path=crates/api-desc/Cargo.toml"));
                push_str(&mut args, String::from_str("--"));
                push_str(&mut args, String::from_str("--lang=assemblyscript"));
                push_str(&mut args, String::from_str("--output=examples/assemblyscript/api.ts"));
                proof {
                    assert(args.deep_view() =~= seq![
                        "run"@,
                        "--manifest-path=crates/api-desc/Cargo.toml"@,
                        "--"@,
                        "--lang=assemblyscript"@,
                        "--output=examples/assemblyscript/api.ts"@,
                    ]);
                }
                let envs: Vec<(String, String)> = Vec::new();
                proof {
                    assert(envs.deep_view() =~= Seq::<(Seq<char>, Seq<char>)>::empty());
                }
                MainPlan::UpdateApis(
                    Cmd { program: String::from_str("cargo"), args, envs, dir: None },
                )
            },
        }
    }
}

/// Report-row order: by stack usage, then by address.
pub open spec fn row_le(a: (u64, u64, String), b: (u64, u64, String)) -> bool {
    a.0 < b.0 || (a.0 == b.0 && a.1 <= b.1)
}

/// Selects the rows with the largest stack usage, keeping at most `max` and
/// returning them in ascending order. Each row is (stack usage, address,
/// name).
pub fn top_stack_sizes(entries: &Vec<(u64, u64, String)>, max: usize) -> (r: Vec<
    (u64, u64, String),
>)
    ensures
        r@.len() == (if max as int <= entries@.len() {
            max as int
        } else {
            entries@.len() as int
        }),
        forall|x: int, y: int| 0 <= x < y < r@.len() ==> row_le(r@[x], r@[y]),
        forall|x: int| 0 <= x < r@.len() ==> entries@.contains(#[trigger] r@[x]),
        max > 0 ==> forall|x: int|
            0 <= x < entries@.len() ==> r@.contains(#[trigger] entries@[x]) || (r@.len() == max
                && row_le(entries@[x], r@[0])),
{
    let mut top: Vec<(u64, u64, String)> = Vec::new();
    let mut idx: usize = 0;
    while idx < entries.len()
        invariant
            idx <= entries.len(),
            top@.len() == (if max as int <= idx {
                max as int
            } else {
                idx as int
            }),
            forall|x: int, y: int| 0 <= x < y < top@.len() ==> row_le(top@[x], top@[y]),
            forall|x: int| 0 <= x < top@.len() ==> entries@.contains(#[trigger] top@[x]),
            max > 0 ==> forall|x: int|
                0 <= x < idx ==> top@.contains(#[trigger] entries@[x]) || (top@.len() == max
                    && row_le(entries@[x], top@[0])),
        decreases entries.len() - idx,
    {
        let e = (entries[idx].0, entries[idx].1, entries[idx].2.clone());
        proof {
            assert((entries@[idx as int].0, entries@[idx as int].1, entries@[idx as int].2)
                == entries@[idx as int]);
            assert(entries@.contains(entries@[idx as int]));
        }
        let mut pos: usize = top.len();
        loop
            invariant
                pos <= top@.len(),
                forall|k: int| pos <= k < top@.len() ==> !row_le(#[trigger] top@[k], e),
                forall|x: int, y: int| 0 <= x < y < top@.len() ==> row_le(top@[x], top@[y]),
            ensures
                pos <= top@.len(),
                pos == 0 || row_le(top@[pos - 1], e),
                forall|k: int| pos <= k < top@.len() ==> !row_le(#[trigger] top@[k], e),
            decreases pos,
        {
            if pos == 0 {
                break;
            }
            let prev = &top[pos - 1];
            if prev.0 > e.0 || (prev.0 == e.0 && prev.1 > e.1) {
                pos -= 1;
            } else {
                break;
            }
        }
        let ghost pre = top@;
        top.insert(pos, e);
        proof {
            pre.insert_ensures(pos as int, e);
            assert forall|x: int, y: int| 0 <= x < y < top@.len() implies row_le(
                top@[x],
                top@[y],
            ) by {
                if y < pos {
                    assert(top@[x] == pre[x] && top@[y] == pre[y]);
                } else if y == pos {
                    assert(top@[y] == e);
                    if x < pos {
                        assert(top@[x] == pre[x]);
                        assert(row_le(pre[pos - 1], e));
                        if x < pos - 1 {
                            assert(row_le(pre[x], pre[pos - 1]));
                        }
                    }
                } else {
                    assert(top@[y] == pre[y - 1]);
                    if x < pos {
                        assert(top@[x] == pre[x]);
                    } else if x == pos {
                        assert(top@[x] == e);
                        assert(!row_le(pre[y - 1], e));
                    } else {
                        assert(top@[x] == pre[x - 1]);
                    }
                }
            }
            assert forall|x: int| 0 <= x < top@.len() implies entries@.contains(
                #[trigger] top@[x],
            ) by {
                if x < pos {
                    assert(top@[x] == pre[x]);
                } else if x > pos {
                    assert(top@[x] == pre[x - 1]);
                }
            }
        }
        let ghost inserted = top@;
        if top.len() > max {
            let ghost mid = top@;
            top.remove(0);
            proof {
                mid.remove_ensures(0);
                assert forall|x: int, y: int| 0 <= x < y < top@.len() implies row_le(
                    top@[x],
                    top@[y],
                ) by {
                    assert(top@[x] == mid[x + 1] && top@[y] == mid[y + 1]);
                }
                assert forall|x: int| 0 <= x < top@.len() implies entries@.contains(
                    #[trigger] top@[x],
                ) by {
                    assert(top@[x] == mid[x + 1]);
                }
            }
        }
        proof {
            if max > 0 {
                assert forall|x: int|
                    0 <= x < idx + 1 implies top@.contains(#[trigger] entries@[x]) || (top@.len()
                        == max && row_le(entries@[x], top@[0])) by {
                    let v = entries@[x];
                    if inserted.len() <= max {
                        if x == idx {
                            assert(inserted[pos as int] == e);
                            assert(top@.contains(v));
                        } else {
                            assert(pre.len() < max);
                            assert(pre.contains(v));
                            let k = choose|k: int| 0 <= k < pre.len() && pre[k] == v;
                            if k < pos {
                                assert(inserted[k] == v);
                            } else {
                                assert(inserted[k + 1] == v);
                            }
                            assert(top@.contains(v));
                        }
                    } else {
                        assert(top@ == inserted.remove(0));
                        assert(top@.len() == max);
                        assert(forall|j: int|
                            0 <= j < top@.len() ==> top@[j] == inserted[j + 1]);
                        if x == idx {
                            if pos == 0 {
                                assert(inserted[0] == e);
                                assert(row_le(inserted[0], inserted[1]));
                                assert(row_le(v, top@[0]));
                            } else {
                                assert(inserted[pos as int] == e);
                                assert(top@[pos - 1] == v);
                                assert(top@.contains(v));
                            }
                        } else {
                            if pre.contains(v) {
                                let k = choose|k: int| 0 <= k < pre.len() && pre[k] == v;
                                let j: int = if k < pos {
                                    k
                                } else {
                                    k + 1
                                };
                                assert(inserted[j] == v);
                                if j == 0 {
                                    assert(row_le(inserted[0], inserted[1]));
                                    assert(row_le(v, top@[0]));
                                } else {
                                    assert(top@[j - 1] == v);
                                    assert(top@.contains(v));
                                }
                            } else {
                                assert(pre.len() == max && row_le(v, pre[0]));
                                if pos == 0 {
                                    assert(inserted[1] == pre[0]);
                                } else {
                                    assert(inserted[0] == pre[0]);
                                    if pos == 1 {
                                        assert(inserted[1] == e);
                                        assert(row_le(pre[0], e));
                                    } else {
                                        assert(inserted[1] == pre[1]);
                                        assert(row_le(pre[0], pre[1]));
                                    }
                                }
                                assert(row_le(pre[0], top@[0]));
                                assert(row_le(v, top@[0]));
                            }
                        }
                    }
                }
            }
        }
        idx += 1;
    }
    top
}

/// Whether the analyzed executable has the shape the report expects:
/// 32-bit addresses, no undefined symbols, and a name on every function
/// with a recorded stack usage. Any other shape is a build defect.
pub open spec fn spec_elf_shape_ok(symbols: ElfSymbols) -> bool {
    &&& symbols.have_32_bit_addresses
    &&& symbols.undefined@.len() == 0
    &&& forall|i: int|
        0 <= i < symbols.functions@.len() ==> ((#[trigger] symbols.functions@[i]).1 is Some
            ==> symbols.functions@[i].2@.len() > 0)
}

/// The report rows of the analyzed functions: one (stack usage, address,
/// first name) row per function with a recorded stack usage.
pub open spec fn spec_entry_rows(functions: Seq<(u64, Option<u64>, Vec<String>)>) -> Seq<
    (u64, u64, String),
>
    decreases functions.len(),
{
    if functions.len() == 0 {
        Seq::<(u64, u64, String)>::empty()
    } else {
        spec_entry_rows(functions.drop_last()) + (match functions.last().1 {
            Some(stack) => if functions.last().2@.len() > 0 {
                seq![(stack, functions.last().0, functions.last().2@[0])]
            } else {
                Seq::<(u64, u64, String)>::empty()
            },
            None => Seq::<(u64, u64, String)>::empty(),
        })
    }
}

/// The row stands for one of the report's entry rows: same stack usage and
/// address, and the name demangled.
pub open spec fn spec_row_reported(entries: Seq<(u64, u64, String)>, row: (u64, u64, String)) -> bool {
    exists|t: (u64, u64, String)|
        entries.contains(t) && row.0 == t.0 && row.1 == t.1 && row.2@ == demangled(t.2@)
}

/// The top stack consumers of an analyzed executable, in ascending order of
/// stack usage: at most `max` rows of (stack usage, address, demangled
/// name). `None` exactly when the analysis is not the shape the report
/// expects.
pub fn stack_report(symbols: &ElfSymbols, max: usize) -> (r: Option<Vec<(u64, u64, String)>>)
    ensures
        r is Some <==> spec_elf_shape_ok(*symbols),
        r matches Some(rows) ==> {
            &&& rows@.len() == (if max as int <= spec_entry_rows(symbols.functions@).len() {
                max as int
            } else {
                spec_entry_rows(symbols.functions@).len() as int
            })
            &&& forall|x: int, y: int| 0 <= x < y < rows@.len() ==> row_le(rows@[x], rows@[y])
            &&& forall|j: int|
                0 <= j < rows@.len() ==> spec_row_reported(
                    spec_entry_rows(symbols.functions@),
                    #[trigger] rows@[j],
                )
        },
{
    if !symbols.have_32_bit_addresses {
        return None;
    }
    if symbols.undefined.len() != 0 {
        return None;
    }
    let mut entries: Vec<(u64, u64, String)> = Vec::new();
    let mut i: usize = 0;
    while i < symbols.functions.len()
        invariant
            i <= symbols.functions.len(),
            entries@ =~= spec_entry_rows(symbols.functions@.take(i as int)),
            forall|j: int|
                0 <= j < i ==> ((#[trigger] symbols.functions@[j]).1 is Some
                    ==> symbols.functions@[j].2@.len() > 0),
        decreases symbols.functions.len() - i,
    {
        proof {
            assert(symbols.functions@.take(i + 1 as int).drop_last() =~= symbols.functions@.take(
                i as int,
            ));
            assert(symbols.functions@.take(i + 1 as int).last() == symbols.functions@[i as int]);
        }
        let stack = match symbols.functions[i].1 {
            Some(stack) => stack,
            None => {
                proof {
                    assert(entries@ =~= spec_entry_rows(symbols.functions@.take(i + 1 as int)));
                }
                i += 1;
                continue ;
            },
        };
        if symbols.functions[i].2.len() == 0 {
            proof {
                assert(symbols.functions@[i as int].1 is Some);
                assert(!spec_elf_shape_ok(*symbols));
            }
            return None;
        }
        // Multiple symbols can share an address; the first name stands for
        // all of them.
        let name = symbols.functions[i].2[0].clone();
        entries.push((stack, symbols.functions[i].0, name));
        proof {
            assert(entries@ =~= spec_entry_rows(symbols.functions@.take(i + 1 as int)));
        }
        i += 1;
    }
    proof {
        assert(symbols.functions@.take(symbols.functions@.len() as int) =~= symbols.functions@);
    }
    let top = top_stack_sizes(&entries, max);
    let mut rows: Vec<(u64, u64, String)> = Vec::new();
    let mut k: usize = 0;
    while k < top.len()
        invariant
            k <= top.len(),
            rows@.len() == k,
            entries@ == spec_entry_rows(symbols.functions@),
            forall|j: int|
                0 <= j < k ==> #[trigger] rows@[j].0 == top@[j].0 && rows@[j].1 == top@[j].1
                    && rows@[j].2@ == demangled(top@[j].2@),
            forall|x: int, y: int| 0 <= x < y < top@.len() ==> row_le(top@[x], top@[y]),
            forall|x: int| 0 <= x < top@.len() ==> entries@.contains(#[trigger] top@[x]),
            top@.len() == (if max as int <= entries@.len() {
                max as int
            } else {
                entries@.len() as int
            }),
        decreases top.len() - k,
    {
        let demangled_name = demangle_symbol(top[k].2.as_str());
        rows.push((top[k].0, top[k].1, demangled_name));
        k += 1;
    }
    proof {
        assert forall|x: int, y: int| 0 <= x < y < rows@.len() implies row_le(
            rows@[x],
            rows@[y],
        ) by {
            assert(row_le(top@[x], top@[y]));
        }
        assert forall|j: int|
            0 <= j < rows@.len() implies spec_row_reported(
            spec_entry_rows(symbols.functions@),
            #[trigger] rows@[j],
        ) by {
            let t = top@[j];
            assert(entries@.contains(t));
            assert(rows@[j].0 == t.0 && rows@[j].1 == t.1 && rows@[j].2@ == demangled(t.2@));
        }
    }
    Some(rows)
}

} // verus!
