//! Plain-value descriptions of what the ISPC compression kernels take.

pub mod kernel;
