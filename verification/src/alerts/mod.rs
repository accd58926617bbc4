//! Alert delivery.

pub mod webhook;
