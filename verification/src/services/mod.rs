//! The stores that come with the library.

pub mod hashmap_user_store;

pub use hashmap_user_store::HashmapUserStore;
