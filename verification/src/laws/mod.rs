//! What holds of the library as a whole: what each of its operations is for,
//! said of what goes in and what comes out.

pub mod access;
pub mod archive;
pub mod keys;
pub mod launching;
pub mod running;
pub mod session;
pub mod transport;
pub mod wire;
