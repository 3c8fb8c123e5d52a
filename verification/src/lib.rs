//! A verified core for a small image store.
//!
//! Clients hand the store raw image bytes together with a declared MIME
//! type. The store classifies the upload into a category, lays the files
//! out on disk as `root/<CATEGORY>/<timestamp>.<extension>`, and can later
//! enumerate everything it holds as a catalog of base64-encoded entries.
//!
//! This crate verifies the policy of that pipeline: classification, the
//! directory layout, filename generation, and the catalog construction
//! rules (skip nameless files, abort on the first unreadable one). The
//! filesystem and HTTP edges live outside the library and hand it plain
//! values.

pub mod category;
pub mod naming;
pub mod layout;
pub mod catalog;
