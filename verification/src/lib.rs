//! UDF Resimcisi: turns pictures into full-resolution UDF documents (the document format of
//! the UYAP document editor). The document model, its `content.xml` serialisation, the page
//! geometry and the small decisions of the application are verified here.

pub mod commands;
pub mod image_io;
pub mod metin;
pub mod settings;
pub mod udf;
pub mod ude;
