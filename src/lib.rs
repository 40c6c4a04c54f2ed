pub mod alu;
pub mod bus;
pub mod cartridge;
pub mod cpu;
pub mod machine;
pub mod opcodes;
pub mod theorems;
