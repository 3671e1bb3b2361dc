//! What the operations are for, said of the values themselves: for each operation, how
//! what it gives relates to what it was given and to what the client answered.

pub mod full;
pub mod header_proof;
pub mod headers;
pub mod light;
pub mod values;
