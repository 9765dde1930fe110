pub mod hypr;
