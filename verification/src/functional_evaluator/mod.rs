pub mod sub_types;
