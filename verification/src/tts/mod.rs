//! Text-to-speech: the voices and the text chunks served to the client.

pub mod voice;
