//! Lowering of storage variables and vectors to mappings.
pub mod builders;
pub mod continuation;
pub mod depth;
pub mod direct_values;
pub mod dynamic;
pub mod dynamic_laws;
pub mod emit;
pub mod emit_expressions;
pub mod emit_parts;
pub mod emit_resume;
pub mod emit_statements;
pub mod ending;
pub mod ending_statements;
pub mod ending_values;
pub mod growing;
pub mod growing_code;
pub mod growing_facts;
pub mod join;
pub mod laws;
pub mod lowered;
pub mod lowered_continuations;
pub mod lowered_statements;
pub mod lowered_values;
pub mod meaning;
pub mod orderly;
pub mod plain;
pub mod plain_builders;
pub mod plain_order;
pub mod plain_values;
pub mod predicates;
pub mod quiet;
pub mod reconstruct;
pub mod reconstruct_dynamic;
pub mod reconstruct_expressions;
pub mod reconstruct_intrinsics;
pub mod reconstruct_types;
pub mod running;
pub mod running_facts;
pub mod shallow;
pub mod simulation;
pub mod statement_laws;
pub mod statements;
pub mod staying;
pub mod staying_code;
pub mod tail;
pub mod variable_laws;
pub mod vector_laws;
pub mod vectors;
pub mod visitor;
pub mod zero;
