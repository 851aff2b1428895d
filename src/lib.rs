//! Decision logic of a camera-triggered recorder: which streams of a
//! described session to record, how the recording loop reacts to each
//! event, how the container muxer indexes samples, and how the temporary
//! output file is published or discarded.

pub mod boxes;
pub mod command;
pub mod error;
pub mod movie;
pub mod muxer;
pub mod negotiate;
pub mod options;
pub mod publish;
pub mod recording;
pub mod session;
pub mod tables;
pub mod text;
