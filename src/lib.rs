//! Peripheral driver layer over modelled register blocks: word transfers between
//! byte buffers and register arrays, reference-counted clock gating, the
//! cipher-engine register protocol, pulse-counter channel configuration and
//! signal routing, and ownership-moving DMA transfers.
pub mod aes;
pub mod alignment;
pub mod guard;
pub mod pcnt;
pub mod transfer;
