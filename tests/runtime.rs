use dart_wit_bindgen::config::{ModuleConfig, ModuleConfigWasmi, WasiStackLimits};
use dart_wit_bindgen::runtime::{stack_limits, to_wasmi_config, ConfigError};

fn limits(initial: usize, maximum: usize) -> WasiStackLimits {
    WasiStackLimits { initial_value_stack_height: initial, maximum_value_stack_height: maximum, maximum_recursion_depth: 64 }
}

fn with_limits(l: Option<WasiStackLimits>) -> ModuleConfig {
    ModuleConfig {
        multi_value: Some(true),
        bulk_memory: None,
        reference_types: Some(false),
        consume_fuel: Some(true),
        wasmi: Some(ModuleConfigWasmi {
            stack_limits: l,
            cached_stacks: Some(4),
            mutable_global: Some(true),
            sign_extension: None,
            saturating_float_to_int: Some(false),
            tail_call: Some(true),
            extended_const: Some(true),
            floats: Some(false),
        }),
        wasmtime: None,
    }
}

#[test]
fn stack_limits_accept_ordered_heights() {
    assert!(stack_limits(limits(16, 1024)).is_ok());
    assert!(stack_limits(limits(1024, 1024)).is_ok());
}

#[test]
fn stack_limits_refuse_initial_above_maximum() {
    assert_eq!(stack_limits(limits(2048, 1024)).err(), Some(ConfigError::InitialValueStackExceedsMaximum));
}

#[test]
fn wasmi_config_from_module_config() {
    assert!(to_wasmi_config(&with_limits(None)).is_ok());
    assert!(to_wasmi_config(&with_limits(Some(limits(8, 64)))).is_ok());
    assert_eq!(
        to_wasmi_config(&with_limits(Some(limits(65, 64)))).err(),
        Some(ConfigError::InitialValueStackExceedsMaximum)
    );
}
