//! Core logic of a chat bot that links a chat-platform identity to a
//! ListenBrainz account.
//!
//! The crate holds the decision logic only: classifying responses of the
//! remote API (`api`), the interactive credential-acquisition state machine
//! (`flow`), the message texts it renders (`message`), the "currently
//! playing" query (`playing`), a plain model of JSON values (`json`),
//! decimal text (`text`), and the dotted-decimal address the serving side
//! binds to (`addr`). All network and chat-platform I/O stays outside the
//! crate and hands in plain values.

pub mod addr;
pub mod api;
pub mod flow;
pub mod json;
pub mod message;
pub mod playing;
pub mod text;
