use dart_wit_bindgen::config::{
    EnvVariable, ModuleConfig, ModuleConfigWasmi, PreopenedDir, WasiConfigNative, WasiStep, WasmFeatures,
    WasmRuntimeFeatures, WasmWasiFeatures,
};

fn bare_config() -> ModuleConfig {
    ModuleConfig {
        multi_value: None,
        bulk_memory: None,
        reference_types: None,
        consume_fuel: None,
        wasmi: None,
        wasmtime: None,
    }
}

#[test]
fn wasi_defaults() {
    let d = WasmWasiFeatures::default();
    assert!(d.io && d.filesystem && d.clocks && d.random && d.poll);
    assert!(!d.machine_learning && !d.crypto && !d.threads);
    assert_eq!(WasmWasiFeatures::supported(), d);
}

#[test]
fn wasm_defaults_and_supported() {
    let d = WasmFeatures::default();
    assert!(d.multi_value && d.bulk_memory && d.reference_types && d.mutable_global);
    assert!(d.saturating_float_to_int && d.sign_extension && d.floats && d.type_reflection);
    assert!(!d.tail_call && !d.extended_const && !d.simd && !d.threads && !d.memory64);
    assert_eq!(d.wasi_features, Some(WasmWasiFeatures::default()));
    let s = WasmFeatures::supported();
    assert!(s.tail_call && s.extended_const);
    assert_eq!(WasmFeatures { tail_call: false, extended_const: false, ..s }, d);
}

#[test]
fn runtime_features_default() {
    let r = WasmRuntimeFeatures::default();
    assert_eq!(r.name, "wasmi");
    assert_eq!(r.version, "0.31.0");
    assert!(!r.is_browser);
    assert_eq!(r.supported_features, WasmFeatures::supported());
    assert_eq!(r.default_features, WasmFeatures::default());
}

#[test]
fn empty_module_config_gives_defaults() {
    assert_eq!(bare_config().wasm_features(), WasmFeatures::default());
}

#[test]
fn module_config_overrides() {
    let mut c = bare_config();
    c.multi_value = Some(false);
    c.wasmi = Some(ModuleConfigWasmi {
        stack_limits: None,
        cached_stacks: Some(2),
        mutable_global: Some(false),
        sign_extension: None,
        saturating_float_to_int: None,
        tail_call: Some(true),
        extended_const: None,
        floats: Some(false),
    });
    let f = c.wasm_features();
    assert!(!f.multi_value);
    assert!(f.bulk_memory);
    assert!(!f.mutable_global);
    assert!(f.sign_extension);
    assert!(f.tail_call);
    assert!(!f.extended_const);
    assert!(!f.floats);
    assert!(!f.simd);
}

#[test]
fn wasi_steps_in_order() {
    let c = WasiConfigNative {
        capture_stdout: true,
        capture_stderr: false,
        inherit_stdin: true,
        inherit_env: false,
        inherit_args: true,
        args: vec!["one".to_string(), "two".to_string()],
        env: vec![EnvVariable { name: "K".to_string(), value: "V".to_string() }],
        preopened_files: vec![],
        preopened_dirs: vec![PreopenedDir { wasm_guest_path: "/data".to_string(), host_path: "/tmp/d".to_string() }],
    };
    let steps = c.wasi_ctx_steps();
    let rendered: Vec<String> = steps.iter().map(|s| format!("{:?}", s)).collect();
    assert_eq!(
        rendered,
        vec![
            "InheritArgs",
            "InheritStdin",
            "InheritStderr",
            "Arg(\"one\")",
            "Arg(\"two\")",
            "Env(\"K\", \"V\")",
            "PreopenDir { host_path: \"/tmp/d\", guest_path: \"/data\" }",
        ]
    );
    assert!(matches!(steps[0], WasiStep::InheritArgs));
}
