//! Rapid prototyping GUI and visual printf-style debugging: a control side describes
//! widgets and components, a presentation side draws them, and the two stay in step
//! through ordered batches of messages.
//!
//! - [`common`]: the components and the two message families.
//! - [`entities`]: the 3d entities placed into 3d widgets.
//! - [`manager`]: the control side's mirror, outbound queue and handles.
//! - [`gui`]: the presentation side's store.
//! - [`wire`]: the JSON form of message batches.
//! - [`consistency`]: facts about how the two sides stay in step.
//! - [`app`]: which sides a program hosts.
//! - [`label_map`], [`tables`]: the label-keyed tables both sides keep.

pub mod app;
pub mod common;
pub mod consistency;
pub mod entities;
pub mod gui;
pub mod label_map;
pub mod manager;
pub mod tables;
pub mod wire;
