//! Where the system service is installed, for each supported service
//! manager.

pub mod openrc;
pub mod systemd;
