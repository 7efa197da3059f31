pub mod audit;
