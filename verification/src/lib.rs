//! A cycle-oriented emulator core for a simple 8-bit game console: a CPU
//! instruction-execution engine wired to a memory bus that arbitrates between
//! main RAM and a memory-mapped graphics peripheral.

pub mod addressable;
pub mod bus;
pub mod cpu;
pub mod gameboy_bus;
pub mod gameboy_cpu;
pub mod gameboy_cpu_inst;
pub mod gameboy_gpu;
pub mod gameboy_ram;
pub mod gpu;
pub mod ram;
pub mod timed;

pub use addressable::Addressable;
pub use addressable::AddressError;
pub use bus::Bus;
pub use bus::CopyOf;
pub use gpu::GPU;
pub use cpu::ByteOrWord;
pub use cpu::CPUError;
pub use cpu::WidthMismatch;
pub use cpu::Word;
pub use ram::RAM;
pub use timed::CycleTime;
pub use timed::Timed;
