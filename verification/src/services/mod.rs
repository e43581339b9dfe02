pub mod cloud_gateway;
pub mod gateway;
pub mod http;
pub mod lifecycle;
pub mod local_gateway;
pub mod mqtt_brokerage;
pub mod mqtt_client;
