pub mod capture;
pub mod dissect;
pub mod drawing;
pub mod export;
pub mod laws;
pub mod packetdump;
pub mod rows;
