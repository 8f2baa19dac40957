pub mod flatzinc_based_pso;
pub mod flatzinc_types;
