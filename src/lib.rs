pub mod blocks;
pub mod clock;
pub mod codec;
pub mod colors;
pub mod events;
pub mod registry;
pub mod text;
