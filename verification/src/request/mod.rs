pub mod pagination;
