//! Address arithmetic for module base addresses, relative function
//! addresses and absolute memory addresses, with hexadecimal and decimal
//! address text.

pub mod addr;
pub mod mode;
pub mod text;

pub use addr::{AddrString, AddrView, GenericAddressString};
pub use mode::AddrMode;
pub mod location;
pub use location::{CalcDirection, LocData, LocView};
pub mod area;
pub use area::{AreaData, AreaView};
pub mod calc;
pub use calc::CompilerCalc;
