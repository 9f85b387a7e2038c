pub mod handlers;
pub mod lemmas;
pub mod response;
