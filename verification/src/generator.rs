pub mod engine;

pub use engine::{entity_file_name, to_pascal_case};
