//! A double-buffered GPU surface hand-off protocol, together with the
//! WebGL framebuffer completeness state machine and the string utilities
//! that surround them in a browser engine.
//!
//! The core of the library is a keyed pool of surfaces (`pool`), an
//! external-image bridge that locks and unlocks surfaces for a compositor
//! (`bridge`), and a device model that tracks surface lifetimes
//! (`device`). The bridge's ownership laws — one owner per surface, the
//! lock/unlock round trip, and the disposal of displaced frames — are
//! stated and proved beside its transition predicates.

mod attachment;
mod bridge;
mod cell;
mod color;
mod device;
mod domstring;
mod framebuffer;
mod geom;
pub mod gl;
mod intparse;
mod key;
mod keyed;
mod navigator;
mod pool;
mod registry;
mod remutex;
mod strutil;
mod surface;

pub use attachment::CompleteForRendering;
pub use attachment::WebGLCommand;
pub use attachment::WebGLError;
pub use attachment::WebGLFramebufferAttachment;
pub use attachment::WebGLFramebufferAttachmentRoot;
pub use attachment::WebGLFramebufferBindingRequest;
pub use attachment::WebGLRenderbuffer;
pub use attachment::WebGLResult;
pub use attachment::WebGLTexture;
pub use bridge::ExternalImageBridge;
pub use bridge::WebrenderExternalImageApi;
pub use cell::DomRefCell;
pub use color::parse_legacy_color;
pub use color::LegacyColor;
pub use device::Device;
pub use device::DeviceError;
pub use domstring::lower_of;
pub use domstring::DOMString;
pub use domstring::InlinedString;
pub use domstring::LowercaseString;
pub use domstring::StringificationBehavior;
pub use framebuffer::WebGLFramebuffer;
pub use geom::Size;
pub use intparse::do_parse_integer;
pub use intparse::is_ascii_digit;
pub use intparse::parse_integer;
pub use intparse::parse_legacy_font_size;
pub use intparse::parse_length_token;
pub use intparse::parse_unsigned_integer;
pub use intparse::read_numbers;
pub use intparse::DimensionToken;
pub use key::BufferKey;
pub use keyed::KeyedSlots;
pub use navigator::AppCodeName;
pub use navigator::AppName;
pub use navigator::AppVersion;
pub use navigator::Product;
pub use navigator::TaintEnabled;
pub use pool::SurfacePool;
pub use registry::WebrenderExternalImageRegistry;
pub use registry::WebrenderImageHandlerType;
pub use remutex::AtomicOptThreadId;
pub use remutex::HandOverHandMutex;
pub use remutex::ReentrantMutex;
pub use remutex::ReentrantMutexGuard;
pub use remutex::ThreadId;
pub use strutil::char_is_whitespace;
pub use strutil::is_whitespace;
pub use strutil::search_index;
pub use strutil::slice_chars;
pub use strutil::split_html_space_chars;
pub use strutil::str_join;
pub use strutil::trim_whitespace;
pub use surface::Surface;
pub use surface::SurfaceTexture;
