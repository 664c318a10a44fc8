//! Verified core of the WeMove web application: request/response models,
//! greeting and health answers, the error-to-HTTP mapping, the login,
//! registration and token decisions, row decoding, session checks and the
//! small text codecs they rely on.

mod clock;

pub mod text;
pub mod hex;
pub mod error;
pub mod common;
pub mod config;
pub mod handlers;
pub mod api_error;
pub mod state;
pub mod user_repo;
pub mod auth_rest;
pub mod auth_proxy;
pub mod web;
pub mod card;
