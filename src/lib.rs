//! Decision core of a colour and size sorting machine: segmentation of a
//! frame into colour masks, choice of the object to sort, arrival at the drop
//! zone, size classification and the actuator sequence that sorts it.
pub mod control;
pub mod dispatch;
pub mod gate;
pub mod geometry;
pub mod segment;
pub mod selector;
