//! The web UI's logic: the API client's types and error handling, and the decisions its
//! pages make (form validation, polling, namespace options and filtering).

pub mod api;
pub mod pages;
