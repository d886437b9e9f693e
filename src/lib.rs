//! Funds transfer pricing: the verified parts of the engine that do not touch
//! the numeric values themselves (shape validation, method selection, matrix
//! layout and anti-diagonal extraction, error reporting and the rules of the
//! buffer-copying boundary).

pub mod boundary;
pub mod error;
pub mod matrix;
pub mod method;
pub mod text;
pub mod validate;

pub use crate::boundary::{buffer_lengths, c_message, check_output_buffer, set_last_error, ReadError};
pub use crate::error::FtpError;
pub use crate::matrix::{extract_anti_diagonal_rect2, Matrix};
pub use crate::method::ComputeMethod;
pub use crate::validate::check_dims;
