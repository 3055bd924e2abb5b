//! Data providers for clipboard and drag-and-drop: the values a provider
//! offers, the pasteboard writer's answers, and the bookkeeping of virtual
//! file sessions, each with its contract.

pub mod api_model;
pub mod data_provider;
pub mod data_provider_manager;
pub mod session_laws;
