pub mod node;
pub mod typed_node;
pub mod types;
