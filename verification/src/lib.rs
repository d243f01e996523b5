//! Core of a small embedded music box: a debounced button event recognizer,
//! a compiled-in melody model, and a tone-scheduling player that drives a
//! PWM buzzer from free-running timer compare events.
//!
//! The hardware peripherals (input pin, 1 MHz timer, PWM unit) are modeled
//! as plain state so that every state machine in the core is verified; the
//! binding to real registers and interrupts lives outside this library.

pub mod button;
pub mod buzzer;
pub mod control;
pub mod melody;
pub mod music;
pub mod note;
pub mod player;
pub mod timer;
pub mod tone;
