//! USB on-the-go high-speed controller registers.

pub mod hsbohscp_hstpipcfg0_hsbohscp;
