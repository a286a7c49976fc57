//! Core state of a multi-tab paginated-document viewer.
//!
//! The library tracks, for each open document, the current page, zoom factor
//! and pan offset (`viewport`), a bounded cache of rasterized page images
//! keyed by page and quantized zoom (`cache`), the pairing of one document's
//! metadata with its view state (`session`), and the ordered collection of
//! open documents with the active one (`tabs`).
//!
//! Rasterization and document loading are collaborators supplied by the
//! caller through the `Renderer` and `DocumentSource` traits; the library
//! itself performs no I/O. Zoom factors are carried in hundredths of the
//! nominal size (100 stands for full size), which is exactly the quantized
//! form used as a cache key.

pub mod cache;
pub mod session;
pub mod tabs;
pub mod viewport;
