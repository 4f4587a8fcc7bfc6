//! Screen captures driven through outside tools: a session that keeps the
//! latest image, a state machine that sequences one capture, and the decision
//! that keeps a single instance of the program running.
pub mod activation;
pub mod error;
pub mod laws;
pub mod process;
pub mod pipeline;
pub mod session;
