//! A small record-keeping core: thoughts, optionally tagged with areas of
//! life, kept behind a repository gateway and served through use cases whose
//! outcomes a presenter turns into status-carrying view models.

pub mod entity;
pub mod gateway;
pub mod id;
pub mod in_memory;
pub mod usecase;
pub mod status;
pub mod view;
pub mod presenter;
pub mod controller;
pub mod laws;
