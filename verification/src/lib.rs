//! A cycle-accurate emulator core for the Gigatron TTL microcomputer: the
//! instruction decoder and execution pipeline, the bus multiplexer, the
//! RAM/ROM/IN wiring, sync detection, frame reconstruction from the RAM
//! video region, and the memory-mapped input bytes. Every cycle is specified
//! against a mathematical model of the machine.

#![allow(non_snake_case)]

pub mod color;
pub mod cpu;
pub mod entropy;
pub mod frame;
pub mod machine;
pub mod rom;
