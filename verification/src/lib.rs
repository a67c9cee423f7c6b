//! Verified building blocks of a Vulkan toolkit: the KTX texture container
//! format, the choice of memory types and queue families, and the generator
//! that turns the Vulkan registry (`vk.xml`) into Rust declarations.

pub mod gl_formats;
pub mod ktx;
pub mod ktx_reader;
pub mod vk_select;
pub mod text;
pub mod vkgen_translate;
pub mod legacy_translate;
pub mod xml;
pub mod xml_source;
pub mod vk_registry;
pub mod vkgen_parse;
pub mod vkgen_render;
pub mod legacy_gen;
