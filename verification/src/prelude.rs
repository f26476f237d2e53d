//! Prelude: the extension traits a user needs in scope to split the
//! clock controller and the port banks.

pub use crate::pcc::PccExt as _rv32m1_ri5cy_hal_pcc_PccExt;
pub use crate::port::PortExt as _rv32m1_ri5cy_hal_port_PortExt;
