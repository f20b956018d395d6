//! The keyed dictionary store and the codec that names its slots.

pub mod data;

pub use data::{
    call_function, key_and_value_to_str, key_to_str, keys_to_str, return_kind, values_to_str, Dict,
    ReturnKind, Returned,
};
