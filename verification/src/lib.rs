//! A small convolutional image classifier on top of the burn framework:
//! batching of labelled samples, the classifier and its checkpoints, training
//! and inference. The calls into burn are trusted; everything around them is
//! verified, so that no tensor ever reaches burn with dimensions on which it
//! would panic.

pub mod checkpoint;
pub mod command;
pub mod data;
pub mod error;
pub mod inference;
pub mod layers;
pub mod limits;
pub mod model;
pub mod optim;
pub mod tensors;
pub mod training;
