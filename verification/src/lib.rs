//! Argument binding and object layout for native types hosted by a dynamic object runtime.

pub mod binding_laws;
pub mod derive_utils;
pub mod err;
pub mod host;
pub mod layout;
pub mod methods;
pub mod pyclass;
pub mod pyclass_laws;
pub mod python;
pub mod signature;
pub mod text;
pub mod type_object;
