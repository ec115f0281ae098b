pub mod ledmatrix;
pub mod link;
pub mod utils;
