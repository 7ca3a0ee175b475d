//! The game logic of the Sanctum of Heinz-Werner: levels, the chat
//! transcript, the prompts handed to the language model, the filter that
//! holds back the model's stop sequence, and the routing of client frames.

pub mod conversation;
pub mod levels;
pub mod prompt;
pub mod relay;
pub mod stop_filter;
