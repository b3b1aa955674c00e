//! What a backend has to work out before it can draw or report input: the
//! layout of text on a grid of character cells, and the characters that
//! keys write.

pub mod cli;
pub mod gl;
