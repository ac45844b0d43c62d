//! Input pipeline of a small kernel shell: a bounded relay queue moves raw
//! keyboard scancodes from an interrupt-context producer to a cooperatively
//! scheduled consumer, which decodes them into key events and maps those to
//! terminal actions.

pub mod commands;
pub mod decoder;
pub mod dispatch;
pub mod keyboard;
pub mod notifier;
pub mod queue;
