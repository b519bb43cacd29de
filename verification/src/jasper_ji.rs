pub mod decimal;
pub mod route;
pub mod fetch_error;
pub mod note;
pub mod fetch_state;
pub mod home;
pub mod edit;
pub mod repository;
