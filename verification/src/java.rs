//! A small syntax tree for generated classes and enums, and its emitter.
pub mod class;
pub mod emit;
pub mod field;
pub mod java_enum;
pub mod method;
pub mod visibility;

pub use class::{Class, ClassModel, ClassType};
pub use field::{Field, FieldModel};
pub use java_enum::{Enum, EnumModel};
pub use method::{Argument, ArgumentModel, Method, MethodModel};
pub use visibility::Visibility;
