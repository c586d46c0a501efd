//! Verified core of an ImageStreamIO (ISIO) implementation: the data types of
//! an image stream, the byte layout of an image in (shared) memory, and the
//! rules that create, read and update such an image.
pub mod datatype;
pub mod encoding;
pub mod error;
pub mod imagestreamio;
pub mod interface;
pub mod shm;
pub mod scratch;
pub mod sem;
