//! The decisions of a terminal hub for a phone on the local network: the key handling and
//! the menus, the device list and the chat, the screen's panels, the plans for sending,
//! fetching and mirroring, and the start-up of the hub server. The surrounding program
//! performs the outside work that these decisions ask for.
pub mod command;
pub mod device;
pub mod hub;
pub mod launcher;
pub mod layout;
pub mod listing;
pub mod path;
pub mod picker;
pub mod text;
pub mod transfer;
pub mod view;
