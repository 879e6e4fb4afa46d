//! Maps a hardware-agnostic description of GPU resources to the codes, flag
//! masks and numbers that the native graphics API takes.
//!
//! Every function is pure and total: it reads its arguments and returns
//! native values, a typed failure, or `None` where no native value exists.
//!
//! - [`native`]: the codes and flag bits of the native API.
//! - [`format`]: surface layouts and channel types, and the format table.
//! - [`image`]: image kinds, their image and view types, and image aspects.
//! - [`memory`]: usage and bind flags, and from them usage mask, tiling and
//!   layout.
//! - [`sampler`]: filters, wrap modes, border colours and comparisons.
//! - [`swizzle`]: channel sources and component mappings.

pub mod format;
pub mod image;
pub mod memory;
pub mod native;
pub mod sampler;
pub mod swizzle;
