//! A verified model of a tiny OpenGL framebuffer convenience layer: polled
//! input snapshots with a sorted wakeup queue, and buffer-format bookkeeping
//! for a full-screen textured quad.

pub mod breakout;
pub mod events;
pub mod framebuffer;

pub use breakout::BasicInput;
pub use breakout::ButtonState;
pub use breakout::StateEntry;
pub use breakout::Wakeup;
pub use events::FlowCommand;
pub use events::InputEvent;
pub use events::Modifiers;
pub use events::PersistStep;
pub use framebuffer::BufferFormat;
pub use framebuffer::Dims;
pub use framebuffer::Framebuffer;
pub use framebuffer::FramebufferInternal;
pub use framebuffer::ToGlType;
pub use framebuffer::init_framebuffer;
