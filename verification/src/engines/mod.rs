pub mod artifact;
pub mod capability;
pub mod mentor;
pub mod trust;
