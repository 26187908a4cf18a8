pub mod bits;
pub mod bus;
pub mod datetime;
pub mod driver;
pub mod registers;
pub mod sim;
pub mod typedefs;
