//! A minimal 2D rendering core: shader program compilation and linking,
//! texture resources, a sprite quad renderer and a bitmap-font glyph renderer,
//! all speaking to the graphics driver through an explicit context
//! collaborator so that every state change and draw call is an explicit,
//! checkable step.

pub mod context;
pub mod font_renderer;
pub mod shader;
pub mod sprite_renderer;
pub mod texture;
pub mod utils;
pub mod window;

pub use context::GraphicsContext;
pub use font_renderer::Character;
pub use font_renderer::Font;
pub use font_renderer::FontError;
pub use font_renderer::FontFace;
pub use font_renderer::FontRenderer;
pub use font_renderer::GlyphBitmap;
pub use shader::Shader;
pub use shader::interpret_status;
pub use shader::ShaderError;
pub use shader::ShaderProgram;
pub use shader::ShaderSource;
pub use shader::ShaderType;
pub use sprite_renderer::SpriteRenderer;
pub use texture::Texture;
pub use texture::TextureTrait;
pub use utils::GlError;
pub use utils::gl_check;
pub use utils::interpret_create;
pub use utils::gl_error_string;
pub use window::WindowError;
