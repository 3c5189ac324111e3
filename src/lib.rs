//! A fixed-response HTTP(S) server used as a load-generation target: the
//! resolution of its settings, the plan of its startup, its route table and
//! the replies of its handlers.

pub mod decimal;
pub mod config;
pub mod startup;
pub mod reply;
pub mod routes;
pub mod tls;
