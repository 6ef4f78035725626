//! A node agent that samples the resource use of running containers and
//! reports it to a log or to an InfluxDB server.
pub mod text;
pub mod cache;
pub mod memory;
pub mod docker;
pub mod report;
pub mod influx;
pub mod settings;
