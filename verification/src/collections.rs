pub mod queue;

pub use queue::Queue;
