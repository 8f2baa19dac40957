pub mod args_extractor;
pub mod sub_types;
