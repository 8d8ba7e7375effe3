//! Conversion of a [`ModuleConfig`] into the configuration of the wasmi
//! engine.

use vstd::prelude::*;
use crate::config::{ModuleConfig, WasiStackLimits};

verus! {

#[verifier::external_type_specification]
#[verifier::external_body]
pub struct ExWasmiConfig(wasmi::Config);

#[verifier::external_type_specification]
#[verifier::external_body]
pub struct ExWasmiStackLimits(wasmi::StackLimits);

/// Why a configuration cannot be handed to the engine.
#[derive(Clone, Copy, Debug, PartialEq, Eq)]
pub enum ConfigError {
    /// The initial value stack height exceeds the maximum one.
    InitialValueStackExceedsMaximum,
}

/// Whether the engine accepts the stack limits `l`.
pub open spec fn limits_valid(l: WasiStackLimits) -> bool {
    l.initial_value_stack_height <= l.maximum_value_stack_height
}

/// Whether `c` holds stack limits that the engine refuses.
pub open spec fn has_invalid_limits(c: ModuleConfig) -> bool {
    match c.wasmi {
        Some(w) => match w.stack_limits {
            Some(l) => !limits_valid(l),
            None => false,
        },
        None => false,
    }
}

/// Relies on `wasmi::StackLimits::new`, which fails exactly when the
/// initial value stack height exceeds the maximum.
#[verifier::external_body]
fn new_stack_limits(l: WasiStackLimits) -> (r: Option<wasmi::StackLimits>)
    ensures
        r is Some <==> limits_valid(l),
{
    wasmi::StackLimits::new(
        l.initial_value_stack_height,
        l.maximum_value_stack_height,
        l.maximum_recursion_depth,
    ).ok()
}

/// Relies on `wasmi::Config::default`: the engine's default configuration.
#[verifier::external_body]
fn default_config() -> wasmi::Config {
    wasmi::Config::default()
}

/// Relies on `wasmi::Config::wasm_multi_value`, which records the choice.
#[verifier::external_body]
fn set_multi_value(c: &mut wasmi::Config, v: bool) {
    c.wasm_multi_value(v);
}

/// Relies on `wasmi::Config::wasm_bulk_memory`, which records the choice.
#[verifier::external_body]
fn set_bulk_memory(c: &mut wasmi::Config, v: bool) {
    c.wasm_bulk_memory(v);
}

/// Relies on `wasmi::Config::wasm_reference_types`, which records the
/// choice.
#[verifier::external_body]
fn set_reference_types(c: &mut wasmi::Config, v: bool) {
    c.wasm_reference_types(v);
}

/// Relies on `wasmi::Config::consume_fuel`, which records the choice.
#[verifier::external_body]
fn set_consume_fuel(c: &mut wasmi::Config, v: bool) {
    c.consume_fuel(v);
}

/// Relies on `wasmi::Config::set_stack_limits`, which records the limits.
#[verifier::external_body]
fn set_stack_limits(c: &mut wasmi::Config, v: wasmi::StackLimits) {
    c.set_stack_limits(v);
}

/// Relies on `wasmi::Config::set_cached_stacks`, which records the amount.
#[verifier::external_body]
fn set_cached_stacks(c: &mut wasmi::Config, v: usize) {
    c.set_cached_stacks(v);
}

/// Relies on `wasmi::Config::wasm_mutable_global`, which records the
/// choice.
#[verifier::external_body]
fn set_mutable_global(c: &mut wasmi::Config, v: bool) {
    c.wasm_mutable_global(v);
}

/// Relies on `wasmi::Config::wasm_sign_extension`, which records the
/// choice.
#[verifier::external_body]
fn set_sign_extension(c: &mut wasmi::Config, v: bool) {
    c.wasm_sign_extension(v);
}

/// Relies on `wasmi::Config::wasm_saturating_float_to_int`, which records
/// the choice.
#[verifier::external_body]
fn set_saturating_float_to_int(c: &mut wasmi::Config, v: bool) {
    c.wasm_saturating_float_to_int(v);
}

/// Relies on `wasmi::Config::wasm_tail_call`, which records the choice.
#[verifier::external_body]
fn set_tail_call(c: &mut wasmi::Config, v: bool) {
    c.wasm_tail_call(v);
}

/// Relies on `wasmi::Config::wasm_extended_const`, which records the
/// choice.
#[verifier::external_body]
fn set_extended_const(c: &mut wasmi::Config, v: bool) {
    c.wasm_extended_const(v);
}

/// Relies on `wasmi::Config::floats`, which records the choice.
#[verifier::external_body]
fn set_floats(c: &mut wasmi::Config, v: bool) {
    c.floats(v);
}

/// The engine's stack limits for `l`, or why the engine refuses them.
pub fn stack_limits(l: WasiStackLimits) -> (r: Result<wasmi::StackLimits, ConfigError>)
    ensures
        r is Err <==> !limits_valid(l),
        r is Err ==> r == Err::<wasmi::StackLimits, ConfigError>(ConfigError::InitialValueStackExceedsMaximum),
{
    match new_stack_limits(l) {
        Some(s) => Ok(s),
        None => Err(ConfigError::InitialValueStackExceedsMaximum),
    }
}

/// The engine configuration for `c`: the engine's defaults, with each
/// option that `c` gives applied. Fails only on stack limits that the
/// engine refuses.
pub fn to_wasmi_config(c: &ModuleConfig) -> (r: Result<wasmi::Config, ConfigError>)
    ensures
        r is Err <==> has_invalid_limits(*c),
        r is Err ==> r == Err::<wasmi::Config, ConfigError>(ConfigError::InitialValueStackExceedsMaximum),
{
    let mut config = default_config();
    if let Some(v) = c.multi_value {
        set_multi_value(&mut config, v);
    }
    if let Some(v) = c.bulk_memory {
        set_bulk_memory(&mut config, v);
    }
    if let Some(v) = c.reference_types {
        set_reference_types(&mut config, v);
    }
    if let Some(v) = c.consume_fuel {
        set_consume_fuel(&mut config, v);
    }
    if let Some(w) = &c.wasmi {
        if let Some(l) = w.stack_limits {
            match stack_limits(l) {
                Ok(s) => set_stack_limits(&mut config, s),
                Err(e) => return Err(e),
            }
        }
        if let Some(v) = w.cached_stacks {
            set_cached_stacks(&mut config, v);
        }
        if let Some(v) = w.mutable_global {
            set_mutable_global(&mut config, v);
        }
        if let Some(v) = w.sign_extension {
            set_sign_extension(&mut config, v);
        }
        if let Some(v) = w.saturating_float_to_int {
            set_saturating_float_to_int(&mut config, v);
        }
        if let Some(v) = w.tail_call {
            set_tail_call(&mut config, v);
        }
        if let Some(v) = w.extended_const {
            set_extended_const(&mut config, v);
        }
        if let Some(v) = w.floats {
            set_floats(&mut config, v);
        }
    }
    Ok(config)
}

} // verus!
