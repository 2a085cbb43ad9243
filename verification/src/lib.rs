//! Backend rules of the Xareon game journal: domain values, validation,
//! the game browser query builder, achievement progress, profile sync
//! status and automatic play tracking decisions.
pub mod config;
pub mod db;
pub mod domain;
pub mod error;
pub mod repositories;
pub mod services;
pub mod storage;
pub mod text;
pub mod validation;
