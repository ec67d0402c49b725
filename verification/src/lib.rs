//! Verified encodings and argument rules of the GX graphics API of libogc.
//!
//! Every function of the GX service computes the libogc call it stands for, as a value of
//! `GxCall`, `TexObjCall` or `FifoCall`, and states that call exactly; the caller hands it to
//! libogc.

pub mod call;
pub mod color;
pub mod fifo;
pub mod gx;
pub mod laws;
pub mod modes;
pub mod texobj;
pub mod vtx;
