pub mod dto;
pub mod model;
pub mod routes;
