//! Local GATT attribute server core.
//!
//! A declarative tree of services, characteristics and descriptors is
//! published as remote-addressable objects; incoming read, write and
//! notify-control requests are decoded and dispatched to the owner's
//! handlers, and a registration lifecycle guarantees ordered teardown.
//! The bus connection itself, socket pairs and task scheduling are left
//! to an embedding layer; everything that decides or computes lives here.

pub mod application;
pub mod chan;
pub mod characteristic;
pub mod descriptor;
pub mod error;
pub mod flags;
pub mod mesh;
pub mod network;
pub mod notify;
pub mod objpath;
pub mod profile;
pub mod reject;
pub mod request;
pub mod sensor;
pub mod service;
pub mod text;
pub mod uuidfmt;
