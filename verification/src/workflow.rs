//! Workflows: the strategies that steer their execution, and what answers
//! their prompts.

pub mod llm;
pub mod strategies;
