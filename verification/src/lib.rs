//! A small Java virtual machine: class-file parsing, a class repository,
//! a simple object heap and a bytecode interpreter, with their behaviour
//! stated in contracts.

pub mod opcode;
pub mod values;
pub mod local_vars;
pub mod interp_stack;
pub mod strings;
pub mod error;
pub mod constant_pool;
pub mod otfield;
pub mod native_methods;
pub mod otmethod;
pub mod otklass;
pub mod class_format;
pub mod klass_parser;
pub mod object;
pub mod simple_heap;
pub mod klass_names;
pub mod klass_repo;
pub mod options;
pub mod stack_ops;
pub mod frame;
pub mod heap_ops;
pub mod object_ops;
pub mod interpreter;
pub mod context;
