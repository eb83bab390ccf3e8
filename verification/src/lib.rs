pub mod amd64;
pub mod codegen;
pub mod disassembler;
pub mod laws;
pub mod machine;
pub mod semantic;
pub mod value;
