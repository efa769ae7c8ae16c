//! The numbers of the CLAP ABI that the instance reads and reports.

use clap_sys::events::{CLAP_CORE_EVENT_SPACE_ID, CLAP_EVENT_PARAM_MOD, CLAP_EVENT_PARAM_VALUE};
use clap_sys::ext::params::{CLAP_EXT_PARAMS, CLAP_PARAM_IS_BYPASS, CLAP_PARAM_IS_STEPPED};
use clap_sys::process::{
    CLAP_PROCESS_CONTINUE, CLAP_PROCESS_CONTINUE_IF_NOT_QUIET, CLAP_PROCESS_ERROR,
};
use vstd::prelude::*;
use vstd::string::StringSliceAdditionalSpecFns;

verus! {

/// `clap_sys::process::CLAP_PROCESS_ERROR`: processing failed, the block's
/// output is to be discarded. The constant is 0.
#[verifier::external_body]
pub(crate) fn process_error() -> (code: i32)
    ensures
        code == 0,
{
    CLAP_PROCESS_ERROR
}

/// `clap_sys::process::CLAP_PROCESS_CONTINUE`: processing succeeded, keep
/// processing. The constant is 1.
#[verifier::external_body]
pub(crate) fn process_continue() -> (code: i32)
    ensures
        code == 1,
{
    CLAP_PROCESS_CONTINUE
}

/// `clap_sys::process::CLAP_PROCESS_CONTINUE_IF_NOT_QUIET`: processing
/// succeeded, keep processing unless the output is quiet. The constant is 2.
#[verifier::external_body]
pub(crate) fn process_continue_if_not_quiet() -> (code: i32)
    ensures
        code == 2,
{
    CLAP_PROCESS_CONTINUE_IF_NOT_QUIET
}

/// `clap_sys::events::CLAP_CORE_EVENT_SPACE_ID`: the namespace of the events
/// the standard defines. The constant is 0.
#[verifier::external_body]
pub(crate) fn core_event_space() -> (id: u16)
    ensures
        id == 0,
{
    CLAP_CORE_EVENT_SPACE_ID
}

/// `clap_sys::events::CLAP_EVENT_PARAM_VALUE`: the type of an event that sets
/// a parameter's value. The constant is 5.
#[verifier::external_body]
pub(crate) fn event_param_value() -> (ty: u16)
    ensures
        ty == 5,
{
    CLAP_EVENT_PARAM_VALUE
}

/// `clap_sys::events::CLAP_EVENT_PARAM_MOD`: the type of an event that
/// modulates a parameter's value. The constant is 6.
#[verifier::external_body]
pub(crate) fn event_param_mod() -> (ty: u16)
    ensures
        ty == 6,
{
    CLAP_EVENT_PARAM_MOD
}

/// `clap_sys::ext::params::CLAP_PARAM_IS_STEPPED`: the flag of a parameter
/// with discrete values. The constant is bit 0.
#[verifier::external_body]
pub(crate) fn param_is_stepped() -> (flag: u32)
    ensures
        flag == 1,
{
    CLAP_PARAM_IS_STEPPED
}

/// `clap_sys::ext::params::CLAP_PARAM_IS_BYPASS`: the flag of the parameter
/// that bypasses the plugin. The constant is bit 4.
#[verifier::external_body]
pub(crate) fn param_is_bypass() -> (flag: u32)
    ensures
        flag == 16,
{
    CLAP_PARAM_IS_BYPASS
}

/// `clap_sys::ext::params::CLAP_EXT_PARAMS`: the name of the parameters
/// extension. The constant is the C string "clap.params"; these are its
/// bytes without the closing zero.
#[verifier::external_body]
pub(crate) fn ext_params_name() -> (name: &'static [u8])
    ensures
        name@ == "clap.params".spec_bytes(),
{
    CLAP_EXT_PARAMS.to_bytes()
}

} // verus!
