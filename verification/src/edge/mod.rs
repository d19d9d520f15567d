pub mod edge;
pub mod edge_conf;
