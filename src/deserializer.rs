//! The deserializers: one for a node, one for a newtype struct's member,
//! and one for the children tagged with a struct's field name.
pub mod field;
pub mod newtype_struct;
pub mod node;

pub use field::FieldDeserializer;
pub use newtype_struct::NewtypeStructDeserializer;
pub use node::NodeDeserializer;
