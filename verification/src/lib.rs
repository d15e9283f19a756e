pub mod config;
pub mod erase;
pub mod guard;
pub mod masking;
pub mod menu;
pub mod network;
pub mod pages;
pub mod probe;
pub mod report;
pub mod sectools;
