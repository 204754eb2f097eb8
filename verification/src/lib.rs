//! Voice playback orchestration for a chat bot: request classification and
//! resolution strategy, a per-guild session registry, and the playback queue
//! with its reaction to track lifecycle events.
//!
//! Nothing here talks to the chat gateway, the voice transport or the
//! media-resolution tool. The library decides; its caller does what was
//! decided and hands back what happened.

pub mod model;
pub mod notifier;
pub mod queue;
pub mod registry;
pub mod replies;
pub mod resolver;
pub mod text;
pub mod track;
