//! A per-frame batch of point primitives and the protocol that submits it to a
//! graphics device in one draw call.
//!
//! Application code queues any number of points during an update cycle. A draw
//! session then hands the device commands out one at a time, and the batch is
//! emptied once the device has confirmed the last of them, so that no point
//! survives into the next frame.
//!
//! The element types are left open: `V` is the three-component value used for
//! positions and colours, `S` the scalar used for sizes. The library never
//! looks inside either.

pub mod batch;
pub mod channel;
pub mod renderer;
pub mod session;
pub mod shader;
