//! One synthesizer for each generated method.
pub mod array_accessor;
pub mod class_constructor;
pub mod clear_inner_refs;
pub mod clear_inner_refs_array;
pub mod exceptions;
pub mod field_setters;
pub mod nested_array_accessor;
pub mod single_class_accessor;
pub mod single_enum_accessor;
