//! Configuration records of the WebAssembly host: what the guest may see of
//! the host process, which proposals a module is compiled with, and which
//! features the runtime offers.

use vstd::prelude::*;

verus! {

/// What the WASI context of a module is given.
#[derive(Debug)]
pub struct WasiConfigNative {
    /// Whether to capture stdout instead of inheriting it.
    pub capture_stdout: bool,
    /// Whether to capture stderr instead of inheriting it.
    pub capture_stderr: bool,
    /// Whether to inherit stdin from the host process.
    pub inherit_stdin: bool,
    /// Whether to inherit environment variables from the host process.
    pub inherit_env: bool,
    /// Whether to inherit the process arguments from the host process.
    pub inherit_args: bool,
    /// Custom process arguments to pass to the module.
    pub args: Vec<String>,
    /// Custom environment variables to pass to the module.
    pub env: Vec<EnvVariable>,
    /// Custom preopened files to pass to the module.
    pub preopened_files: Vec<String>,
    /// Custom preopened directories; the module may read and edit them.
    pub preopened_dirs: Vec<PreopenedDir>,
}

/// An output stream of a module.
#[derive(Debug, Clone, Copy, PartialEq, Eq)]
#[allow(non_camel_case_types)]
pub enum StdIOKind {
    stdout,
    stderr,
}

/// An environment variable handed to a module.
#[derive(Debug, Clone)]
pub struct EnvVariable {
    /// The name of the environment variable.
    pub name: String,
    /// The value of the environment variable.
    pub value: String,
}

/// A preopened directory that a module will be able to access.
#[derive(Debug, Clone)]
pub struct PreopenedDir {
    /// The `/`-separated path inside the module.
    pub wasm_guest_path: String,
    /// The path on the host that `wasm_guest_path` stands for.
    pub host_path: String,
}

/// One step of building a WASI context, in the order they are taken.
#[derive(Debug, Clone)]
pub enum WasiStep {
    InheritArgs,
    InheritEnv,
    InheritStdin,
    InheritStdout,
    InheritStderr,
    Arg(String),
    Env(String, String),
    PreopenDir { host_path: String, guest_path: String },
}

/// The fixed steps of a WASI context, before the custom values.
pub open spec fn inherit_steps(c: WasiConfigNative) -> Seq<WasiStep> {
    (if c.inherit_args { seq![WasiStep::InheritArgs] } else { Seq::empty() })
        + (if c.inherit_env { seq![WasiStep::InheritEnv] } else { Seq::empty() })
        + (if c.inherit_stdin { seq![WasiStep::InheritStdin] } else { Seq::empty() })
        + (if !c.capture_stdout { seq![WasiStep::InheritStdout] } else { Seq::empty() })
        + (if !c.capture_stderr { seq![WasiStep::InheritStderr] } else { Seq::empty() })
}

/// The step a value of the configuration stands for, seen as plain text.
pub open spec fn step_view(s: WasiStep) -> (nat, Seq<char>, Seq<char>) {
    match s {
        WasiStep::InheritArgs => (0, Seq::empty(), Seq::empty()),
        WasiStep::InheritEnv => (1, Seq::empty(), Seq::empty()),
        WasiStep::InheritStdin => (2, Seq::empty(), Seq::empty()),
        WasiStep::InheritStdout => (3, Seq::empty(), Seq::empty()),
        WasiStep::InheritStderr => (4, Seq::empty(), Seq::empty()),
        WasiStep::Arg(a) => (5, a@, Seq::empty()),
        WasiStep::Env(n, v) => (6, n@, v@),
        WasiStep::PreopenDir { host_path, guest_path } => (7, host_path@, guest_path@),
    }
}

/// Argument steps, seen as plain text.
pub open spec fn args_view(a: Seq<String>) -> Seq<(nat, Seq<char>, Seq<char>)> {
    a.map_values(|a: String| (5nat, a@, Seq::<char>::empty()))
}

/// Environment steps, seen as plain text.
pub open spec fn env_view(e: Seq<EnvVariable>) -> Seq<(nat, Seq<char>, Seq<char>)> {
    e.map_values(|e: EnvVariable| (6nat, e.name@, e.value@))
}

/// Directory steps, seen as plain text.
pub open spec fn dirs_view(d: Seq<PreopenedDir>) -> Seq<(nat, Seq<char>, Seq<char>)> {
    d.map_values(|d: PreopenedDir| (7nat, d.host_path@, d.wasm_guest_path@))
}

/// Every step of building the WASI context of `c`: the inherited streams
/// and values, then each argument, each variable and each directory in
/// order.
pub open spec fn wasi_steps(c: WasiConfigNative) -> Seq<(nat, Seq<char>, Seq<char>)> {
    steps_view(inherit_steps(c)) + args_view(c.args@) + env_view(c.env@) + dirs_view(c.preopened_dirs@)
}

/// The steps of `v`, seen as plain text.
pub open spec fn steps_view(v: Seq<WasiStep>) -> Seq<(nat, Seq<char>, Seq<char>)> {
    v.map_values(|s: WasiStep| step_view(s))
}

fn clone_str(s: &String) -> (r: String)
    ensures
        r@ == s@,
{
    s.clone()
}

impl WasiConfigNative {
    /// The steps that build the WASI context this configuration describes.
    pub fn wasi_ctx_steps(&self) -> (r: Vec<WasiStep>)
        ensures
            steps_view(r@) == wasi_steps(*self),
    {
        let mut v: Vec<WasiStep> = Vec::new();
        if self.inherit_args {
            v.push(WasiStep::InheritArgs);
        }
        if self.inherit_env {
            v.push(WasiStep::InheritEnv);
        }
        if self.inherit_stdin {
            v.push(WasiStep::InheritStdin);
        }
        if !self.capture_stdout {
            v.push(WasiStep::InheritStdout);
        }
        if !self.capture_stderr {
            v.push(WasiStep::InheritStderr);
        }
        assert(v@ =~= inherit_steps(*self));
        let ghost base = steps_view(v@);
        let mut i: usize = 0;
        while i < self.args.len()
            invariant
                i <= self.args@.len(),
                steps_view(v@) == base + args_view(self.args@.subrange(0, i as int)),
            decreases self.args.len() - i,
        {
            let ghost old_v = v@;
            let ghost x = (5nat, self.args@[i as int]@, Seq::<char>::empty());
            v.push(WasiStep::Arg(clone_str(&self.args[i])));
            assert(steps_view(v@) =~= steps_view(old_v).push(x));
            assert(args_view(self.args@.subrange(0, i + 1)) =~= args_view(self.args@.subrange(0, i as int)).push(x));
            assert(steps_view(v@) =~= base + args_view(self.args@.subrange(0, i + 1)));
            i = i + 1;
        }
        assert(self.args@.subrange(0, self.args@.len() as int) =~= self.args@);
        let ghost base = steps_view(v@);
        let mut i: usize = 0;
        while i < self.env.len()
            invariant
                i <= self.env@.len(),
                steps_view(v@) == base + env_view(self.env@.subrange(0, i as int)),
            decreases self.env.len() - i,
        {
            let e = &self.env[i];
            let ghost old_v = v@;
            let ghost x = (6nat, e.name@, e.value@);
            v.push(WasiStep::Env(clone_str(&e.name), clone_str(&e.value)));
            assert(steps_view(v@) =~= steps_view(old_v).push(x));
            assert(env_view(self.env@.subrange(0, i + 1)) =~= env_view(self.env@.subrange(0, i as int)).push(x));
            assert(steps_view(v@) =~= base + env_view(self.env@.subrange(0, i + 1)));
            i = i + 1;
        }
        assert(self.env@.subrange(0, self.env@.len() as int) =~= self.env@);
        let ghost base = steps_view(v@);
        let mut i: usize = 0;
        while i < self.preopened_dirs.len()
            invariant
                i <= self.preopened_dirs@.len(),
                steps_view(v@) == base + dirs_view(self.preopened_dirs@.subrange(0, i as int)),
            decreases self.preopened_dirs.len() - i,
        {
            let d = &self.preopened_dirs[i];
            let ghost old_v = v@;
            let ghost x = (7nat, d.host_path@, d.wasm_guest_path@);
            v.push(WasiStep::PreopenDir {
                host_path: clone_str(&d.host_path),
                guest_path: clone_str(&d.wasm_guest_path),
            });
            assert(steps_view(v@) =~= steps_view(old_v).push(x));
            assert(dirs_view(self.preopened_dirs@.subrange(0, i + 1)) =~= dirs_view(self.preopened_dirs@.subrange(0, i as int)).push(x));
            assert(steps_view(v@) =~= base + dirs_view(self.preopened_dirs@.subrange(0, i + 1)));
            i = i + 1;
        }
        assert(self.preopened_dirs@.subrange(0, self.preopened_dirs@.len() as int) =~= self.preopened_dirs@);
        assert(steps_view(v@) =~= wasi_steps(*self));
        v
    }
}

/// The features of a runtime, as reported to the host.
pub struct WasmRuntimeFeatures {
    /// The name of the runtime, for example "wasmi".
    pub name: String,
    /// The version of the runtime, for example "0.31.0".
    pub version: String,
    /// Is `true` if the runtime is the one provided by the browser.
    pub is_browser: bool,
    /// The features supported by the runtime.
    pub supported_features: WasmFeatures,
    /// The features enabled by default. A supported feature that is off by
    /// default must be enabled through a [`ModuleConfig`].
    pub default_features: WasmFeatures,
}

impl Default for WasmRuntimeFeatures {
    fn default() -> (r: Self)
        ensures
            r.name@ == "wasmi"@,
            r.version@ == "0.31.0"@,
            !r.is_browser,
            r.supported_features == supported_features(),
            r.default_features == default_features(),
    {
        let mut name = String::new();
        name.append("wasmi");
        let mut version = String::new();
        version.append("0.31.0");
        WasmRuntimeFeatures {
            name,
            version,
            is_browser: false,
            supported_features: WasmFeatures::supported(),
            default_features: WasmFeatures::default(),
        }
    }
}

/// Options that a module is compiled and run with; `None` keeps the
/// runtime's default.
#[derive(Debug)]
pub struct ModuleConfig {
    /// Whether the `multi-value` proposal is enabled.
    pub multi_value: Option<bool>,
    /// Whether the `bulk-memory` proposal is enabled.
    pub bulk_memory: Option<bool>,
    /// Whether the `reference-types` proposal is enabled.
    pub reference_types: Option<bool>,
    /// Whether executions consume fuel.
    pub consume_fuel: Option<bool>,
    /// Options of the wasmi runtime.
    pub wasmi: Option<ModuleConfigWasmi>,
    /// Options of the wasmtime runtime.
    pub wasmtime: Option<ModuleConfigWasmtime>,
}

/// Options of the wasmi runtime.
#[derive(Debug)]
pub struct ModuleConfigWasmi {
    /// The limits set on the value stack and call stack.
    pub stack_limits: Option<WasiStackLimits>,
    /// The number of Wasm stacks to keep in cache at most.
    pub cached_stacks: Option<usize>,
    /// Whether the `mutable-global` proposal is enabled.
    pub mutable_global: Option<bool>,
    /// Whether the `sign-extension` proposal is enabled.
    pub sign_extension: Option<bool>,
    /// Whether the `saturating-float-to-int` proposal is enabled.
    pub saturating_float_to_int: Option<bool>,
    /// Whether the `tail-call` proposal is enabled.
    pub tail_call: Option<bool>,
    /// Whether the `extended-const` proposal is enabled.
    pub extended_const: Option<bool>,
    /// Whether instructions on `f32` and `f64` are allowed.
    pub floats: Option<bool>,
}

/// The limits of the Wasm stack.
#[derive(Debug, Copy, Clone)]
pub struct WasiStackLimits {
    /// The initial value stack height that the Wasm stack prepares.
    pub initial_value_stack_height: usize,
    /// The maximum value stack height that the Wasm stack allows.
    pub maximum_value_stack_height: usize,
    /// The maximum number of nested calls that the Wasm stack allows.
    pub maximum_recursion_depth: usize,
}

/// Options of the wasmtime runtime.
#[derive(Debug)]
pub struct ModuleConfigWasmtime {
    /// Whether DWARF debug information is emitted during compilation.
    pub debug_info: Option<bool>,
    pub wasm_backtrace: Option<bool>,
    pub native_unwind_info: Option<bool>,
    pub max_wasm_stack: Option<usize>,
    /// Whether the `threads` feature (atomics and shared memory) is enabled.
    pub wasm_threads: Option<bool>,
    /// Whether the `simd` feature is enabled.
    pub wasm_simd: Option<bool>,
    /// Whether the `relaxed-simd` feature is enabled.
    pub wasm_relaxed_simd: Option<bool>,
    /// Whether relaxed SIMD is deterministic.
    pub relaxed_simd_deterministic: Option<bool>,
    /// Whether the `multi-memory` feature is enabled.
    pub wasm_multi_memory: Option<bool>,
    /// Whether the `memory64` feature is enabled.
    pub wasm_memory64: Option<bool>,
    pub static_memory_maximum_size: Option<u64>,
    pub static_memory_forced: Option<bool>,
    pub static_memory_guard_size: Option<u64>,
    pub parallel_compilation: Option<bool>,
    pub generate_address_map: Option<bool>,
}

/// WebAssembly proposals and host features, each on or off.
#[derive(Debug, Clone, Copy, PartialEq, Eq)]
pub struct WasmFeatures {
    /// The `mutable-global` proposal.
    pub mutable_global: bool,
    /// The `nontrapping-float-to-int-conversions` proposal.
    pub saturating_float_to_int: bool,
    /// The `sign-extension-ops` proposal.
    pub sign_extension: bool,
    /// The reference types proposal.
    pub reference_types: bool,
    /// The multi-value proposal.
    pub multi_value: bool,
    /// The bulk memory operations proposal.
    pub bulk_memory: bool,
    /// The SIMD proposal.
    pub simd: bool,
    /// The relaxed SIMD proposal.
    pub relaxed_simd: bool,
    /// The threads proposal: shared memory and atomics.
    pub threads: bool,
    /// The tail-call proposal.
    pub tail_call: bool,
    /// Whether floating-point instructions are enabled.
    pub floats: bool,
    /// The multi memory proposal.
    pub multi_memory: bool,
    /// The exception handling proposal.
    pub exceptions: bool,
    /// The memory64 proposal.
    pub memory64: bool,
    /// The extended-const proposal.
    pub extended_const: bool,
    /// The component model proposal.
    pub component_model: bool,
    /// The memory control proposal.
    pub memory_control: bool,
    /// The garbage collection proposal.
    pub garbage_collection: bool,
    /// Reflection of external types.
    pub type_reflection: bool,
    /// The WebAssembly System Interface features, when WASI is offered.
    pub wasi_features: Option<WasmWasiFeatures>,
}

/// Features of the WebAssembly System Interface.
#[derive(Debug, Clone, Copy, PartialEq, Eq)]
pub struct WasmWasiFeatures {
    /// Access to standard input, output and error streams.
    pub io: bool,
    /// Access to the filesystem.
    pub filesystem: bool,
    /// Access to clocks and the system time.
    pub clocks: bool,
    /// Access to random number generators.
    pub random: bool,
    pub poll: bool,
    /// wasi-nn.
    pub machine_learning: bool,
    /// wasi-crypto.
    pub crypto: bool,
    /// Threads with the ability to spawn.
    pub threads: bool,
}

/// The WASI features on by default: streams, filesystem, clocks, random and
/// poll.
pub open spec fn default_wasi_features() -> WasmWasiFeatures {
    WasmWasiFeatures {
        io: true,
        filesystem: true,
        clocks: true,
        random: true,
        poll: true,
        machine_learning: false,
        crypto: false,
        threads: false,
    }
}

/// The Wasm features on by default.
pub open spec fn default_features() -> WasmFeatures {
    WasmFeatures {
        multi_value: true,
        bulk_memory: true,
        reference_types: true,
        mutable_global: true,
        saturating_float_to_int: true,
        sign_extension: true,
        tail_call: false,
        extended_const: false,
        floats: true,
        component_model: false,
        garbage_collection: false,
        simd: false,
        relaxed_simd: false,
        threads: false,
        multi_memory: false,
        exceptions: false,
        memory64: false,
        memory_control: false,
        type_reflection: true,
        wasi_features: Some(default_wasi_features()),
    }
}

/// The Wasm features that can be turned on: the defaults, with tail calls
/// and extended constants besides.
pub open spec fn supported_features() -> WasmFeatures {
    WasmFeatures { tail_call: true, extended_const: true, ..default_features() }
}

/// `o`'s value, or `d` when it holds none.
pub open spec fn or_default(o: Option<bool>, d: bool) -> bool {
    match o {
        Some(v) => v,
        None => d,
    }
}

/// A wasmi option of `c`, read through `f`, when `c` has wasmi options.
pub open spec fn wasmi_option(c: ModuleConfig, f: spec_fn(ModuleConfigWasmi) -> Option<bool>) -> Option<bool> {
    match c.wasmi {
        Some(w) => f(w),
        None => None,
    }
}

/// The features that `c` sets: each option it gives, the default for the
/// rest; proposals the runtime cannot offer stay off.
pub open spec fn features_of(c: ModuleConfig) -> WasmFeatures {
    let d = default_features();
    WasmFeatures {
        multi_value: or_default(c.multi_value, d.multi_value),
        bulk_memory: or_default(c.bulk_memory, d.bulk_memory),
        reference_types: or_default(c.reference_types, d.reference_types),
        mutable_global: or_default(wasmi_option(c, |w: ModuleConfigWasmi| w.mutable_global), d.mutable_global),
        saturating_float_to_int: or_default(
            wasmi_option(c, |w: ModuleConfigWasmi| w.saturating_float_to_int),
            d.saturating_float_to_int,
        ),
        sign_extension: or_default(wasmi_option(c, |w: ModuleConfigWasmi| w.sign_extension), d.sign_extension),
        tail_call: or_default(wasmi_option(c, |w: ModuleConfigWasmi| w.tail_call), d.tail_call),
        extended_const: or_default(wasmi_option(c, |w: ModuleConfigWasmi| w.extended_const), d.extended_const),
        floats: or_default(wasmi_option(c, |w: ModuleConfigWasmi| w.floats), d.floats),
        ..d
    }
}

fn or_default_exec(o: Option<bool>, d: bool) -> (r: bool)
    ensures
        r == or_default(o, d),
{
    match o {
        Some(v) => v,
        None => d,
    }
}

impl WasmWasiFeatures {
    /// The default set of WASI features.
    pub fn default() -> (r: WasmWasiFeatures)
        ensures
            r == default_wasi_features(),
    {
        WasmWasiFeatures {
            io: true,
            filesystem: true,
            clocks: true,
            random: true,
            poll: true,
            machine_learning: false,
            crypto: false,
            threads: false,
        }
    }

    /// The WASI features that can be turned on: the defaults.
    pub fn supported() -> (r: WasmWasiFeatures)
        ensures
            r == default_wasi_features(),
    {
        WasmWasiFeatures::default()
    }
}

impl WasmFeatures {
    /// The default set of Wasm features.
    pub fn default() -> (r: WasmFeatures)
        ensures
            r == default_features(),
    {
        WasmFeatures {
            multi_value: true,
            bulk_memory: true,
            reference_types: true,
            mutable_global: true,
            saturating_float_to_int: true,
            sign_extension: true,
            tail_call: false,
            extended_const: false,
            floats: true,
            component_model: false,
            garbage_collection: false,
            simd: false,
            relaxed_simd: false,
            threads: false,
            multi_memory: false,
            exceptions: false,
            memory64: false,
            memory_control: false,
            type_reflection: true,
            wasi_features: Some(WasmWasiFeatures::default()),
        }
    }

    /// The Wasm features that can be turned on.
    pub fn supported() -> (r: WasmFeatures)
        ensures
            r == supported_features(),
    {
        WasmFeatures {
            multi_value: true,
            bulk_memory: true,
            reference_types: true,
            mutable_global: true,
            saturating_float_to_int: true,
            sign_extension: true,
            tail_call: true,
            extended_const: true,
            floats: true,
            component_model: false,
            garbage_collection: false,
            simd: false,
            relaxed_simd: false,
            threads: false,
            multi_memory: false,
            exceptions: false,
            memory64: false,
            memory_control: false,
            type_reflection: true,
            wasi_features: Some(WasmWasiFeatures::supported()),
        }
    }
}

impl ModuleConfig {
    /// The features this configuration turns on.
    pub fn wasm_features(&self) -> (r: WasmFeatures)
        ensures
            r == features_of(*self),
    {
        let def = WasmFeatures::default();
        let (mutable_global, saturating_float_to_int, sign_extension, tail_call, extended_const, floats) =
            match &self.wasmi {
            Some(w) => (
                or_default_exec(w.mutable_global, def.mutable_global),
                or_default_exec(w.saturating_float_to_int, def.saturating_float_to_int),
                or_default_exec(w.sign_extension, def.sign_extension),
                or_default_exec(w.tail_call, def.tail_call),
                or_default_exec(w.extended_const, def.extended_const),
                or_default_exec(w.floats, def.floats),
            ),
            None => (
                def.mutable_global,
                def.saturating_float_to_int,
                def.sign_extension,
                def.tail_call,
                def.extended_const,
                def.floats,
            ),
        };
        WasmFeatures {
            multi_value: or_default_exec(self.multi_value, def.multi_value),
            bulk_memory: or_default_exec(self.bulk_memory, def.bulk_memory),
            reference_types: or_default_exec(self.reference_types, def.reference_types),
            mutable_global,
            saturating_float_to_int,
            sign_extension,
            tail_call,
            extended_const,
            floats,
            garbage_collection: false,
            component_model: false,
            simd: false,
            relaxed_simd: false,
            threads: false,
            multi_memory: false,
            exceptions: false,
            memory64: false,
            memory_control: false,
            type_reflection: true,
            wasi_features: Some(WasmWasiFeatures::default()),
        }
    }
}

} // verus!
