//! A verified model of a framebuffer: a validated collection of image
//! attachments bound to a render pass, together with the synchronization
//! metadata that a command recorder needs for each attachment.

pub mod attachments;
pub mod command_buffer;
pub mod device;
pub mod framebuffer;
pub mod image;
pub mod render_pass;
pub mod sync;
