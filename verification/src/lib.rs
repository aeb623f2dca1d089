//! `ciri` writes Conventional Commit messages and pull request descriptions
//! with a language model. This crate holds its verified core: the prompts
//! and the clean-up of the model's reply (`prompts`, `ui`, over the
//! character-level operations of `text`), the backend selection and the
//! decoding of streamed replies (`llm`, `ollama`), the git commands and the
//! search for the base branch (`git`), and the `commit` and `pr` commands as
//! state machines (`commands`, `flow`) whose actions a driver performs.

pub mod commands;
pub mod flow;
pub mod git;
pub mod llm;
pub mod ollama;
pub mod prompts;
pub mod text;
pub mod ui;
