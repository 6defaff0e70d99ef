//! The integer register file, the CSR bank, and typed views of the CSRs.
pub mod csrs;
pub mod medeleg;
pub mod mideleg;
pub mod mie;
pub mod mip;
pub mod mstatus;
pub mod satp;
pub mod sstatus;
pub mod xs;
pub mod xtvec;
