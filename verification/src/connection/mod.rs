pub mod session;
pub mod telnet;
