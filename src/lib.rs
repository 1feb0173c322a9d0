//! Render orchestration for an interactive fractal explorer: a cooperative
//! cancellation token, a progress estimator, a coordinator that runs one
//! render at a time, and the state machine that turns parameter changes into
//! the cheapest sufficient action.
pub mod coordinator;
pub mod mutation;
pub mod progress;
pub mod token;
