pub mod node_builder;
pub mod node_builder_grid;
