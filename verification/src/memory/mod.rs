pub mod l0;
pub mod l1;
pub mod l2;
