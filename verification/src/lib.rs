//! Decision core of a trunked P25 receiver.
//!
//! The library decides, from decoded protocol messages, which frequency the
//! tuner should sit on and which traffic group's audio is currently relevant.
//! Sample decoding, channel I/O and audio rendering live outside; the core
//! consumes typed message events and emits typed actions.

pub mod consts;

pub mod fields;

pub mod message;

pub mod recv;
