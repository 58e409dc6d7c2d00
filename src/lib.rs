//! A backend-agnostic streaming pipeline framework for language-model agent
//! workflows: prompts, messages, tool calls and the elements that move them
//! between each other, with every buffer conversion and lifecycle transition
//! stated as a contract.
pub mod info;
pub mod image;
pub mod tool;
pub mod content;
pub mod message;
pub mod prompt;
pub mod markdown;
pub mod html;
pub mod render;
pub mod any;
pub mod buffer;
pub mod backends;
pub mod pad;
pub mod element;
pub mod graph;
pub mod pipeline;
