//! POSIX file-mode bitfields: the file-type tag and the permission bits that
//! together make up a 16-bit mode word, with lossless conversion between the
//! packed word and the typed parts, and the `ls -l`-style symbolic rendering.

pub mod file_type;
pub mod mode;
pub mod render;
pub mod codec;
pub mod native;

pub use file_type::FileType;
pub use mode::Mode;
pub use codec::split;
pub use codec::unsplit;
pub use render::render_full;
