//! Authentication and authorization core of a user-account service.

pub mod api_response;
pub mod auth;
pub mod auth_middleware;
pub mod handlers;
pub mod hasher;
pub mod models;
pub mod policy;
pub mod service;
pub mod tauri_handlers;
pub mod text;
