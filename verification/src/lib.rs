pub mod beacon;
pub mod ca;
pub mod ca_material;
pub mod capabilities;
pub mod config;
pub mod health;
pub mod service_id;
pub mod services;
pub mod startup;
pub mod supervisor;
pub mod text;
pub mod startup_screen;
