pub mod schema;
