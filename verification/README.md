# vkrust

Verified building blocks of a small Vulkan toolkit, written in Verus:

- `src/gl_formats.rs`, `src/ktx.rs`, `src/ktx_reader.rs`: the KTX 1.1 texture
  container — OpenGL format codes, block layouts, row padding, image offsets,
  and a reader from bytes whose result is stated as a function of the bytes.
- `src/vk_select.rs`: the choices the Vulkan wrapper makes on what a device
  reports — memory types, the physical device and its queue families, the
  requested layers and extensions that are missing, the default ones.
- `src/xml.rs`, `src/xml_source.rs`: XML events as plain values, and reading a
  document into them with quick-xml.
- `src/vk_registry.rs`, `src/vkgen_parse.rs`, `src/vkgen_render.rs`,
  `src/vkgen_translate.rs`, `src/text.rs`: the generator that turns the events
  of `vk.xml` into Rust declarations, as a state machine over events and a
  rendering function, both specified exactly.
- `src/legacy_gen.rs`, `src/legacy_translate.rs`: the first, simpler
  generator.

`app/` holds the command line (`vkgen vk.xml -o out.rs`, or `--legacy` first
for the simpler generator): it reads the file and writes what the library
generates from its text. It also loads KTX files from disk.
