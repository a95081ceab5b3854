pub mod attention;
pub mod authors;
pub mod base64url;
pub mod bootstrap;
pub mod channels;
pub mod cli;
pub mod clock;
pub mod collections;
pub mod doctor;
pub mod error;
pub mod events;
pub mod health;
pub mod host_build_info;
pub mod inbox_wire;
pub mod json;
pub mod mentions;
pub mod order;
pub mod paths;
pub mod posts;
pub mod profile;
pub mod reads;
pub mod requests;
pub mod resolver;
pub mod safe_read;
pub mod search;
pub mod text;
pub mod time_window;
pub mod types;
pub mod wait_channels;
pub mod wait_dm;
pub mod wait_follow;
pub mod wait_inbox;
pub mod websocket;
pub mod writes;
