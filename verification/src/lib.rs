pub mod auth;
pub mod config;
pub mod endpoint;
pub mod error;
pub mod exec;
pub mod forward;
pub mod freestyle;
pub mod freestyle_api;
pub mod freestyle_mounts;
pub mod freestyle_pty;
pub mod fuse;
pub mod fuse_channel;
pub mod fuse_mount;
pub mod inventory;
pub mod json;
pub mod managed;
pub mod mounts;
pub mod numeral;
pub mod order;
pub mod parts;
pub mod reach;
pub mod readiness;
pub mod rebind;
pub mod sandbox;
pub mod session;
pub mod shell;
pub mod span;
pub mod stream;
pub mod table;
pub mod text;
pub mod textmap;
pub mod transfer;
pub mod unique;
pub mod vfs;
pub mod vfs_gateway;
pub mod vfs_headers;
pub mod vfs_listing;
pub mod vfs_publication;
pub mod vm;
pub mod wire;
