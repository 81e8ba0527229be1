//! A content-addressed file store: a relational metadata store coupled with a
//! flat blob directory. This crate is the decision core of the store. Every
//! operation is a small state machine that names the next statement, file
//! operation or guard request to perform and consumes its outcome; a driver
//! outside this crate performs them.

pub mod ask;
pub mod cli;
pub mod datalith;
pub mod datalith_errors;
pub mod datalith_file;
pub mod delete_file;
pub mod engine;
pub mod functions;
pub mod get_file;
pub mod guard;
pub mod http;
pub mod image;
pub mod image_ops;
pub mod image_types;
pub mod ingest;
pub mod laws;
pub mod laws_delete;
pub mod laws_files;
pub mod laws_image;
pub mod laws_image_delete;
pub mod laws_image_files;
pub mod laws_image_get;
pub mod laws_images;
pub mod laws_put;
pub mod laws_sweep;
pub mod listing;
pub mod manager;
pub mod media_type;
pub mod model;
pub mod operation;
pub mod put_file;
pub mod put_image;
pub mod resource_ops;
pub mod resources;
pub mod step;
pub mod sweep;
pub mod text;
