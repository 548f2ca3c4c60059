pub mod config;
pub mod generator;
pub mod mastodon;
pub mod misskey;
pub mod regexes;
pub mod reply;
pub mod rng;
