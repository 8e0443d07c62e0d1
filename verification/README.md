# storyboard

The verified core of the storyboard renderer and its JavaScript runtime.

- `src/pass.rs`: a `wgpu` render pass that caches the pipeline and bind
  groups it has set and leaves out calls that would set them again; every
  operation keeps the cache in agreement with the pass.
- `src/surface.rs`: a window surface and the configuration it should have;
  a configuration is handed out for applying only when it changed and
  covers a positive area.
- `src/archive/`: the spx archives of the application, keyed by the
  components of their path, and the builder that registers them.
- `src/modules.rs`: how a module specifier is routed and which archive,
  file and module kind an `spx:` specifier names.
- `src/launch.rs`: the user agent, the entry module and the command line of
  the packaged build.
- `src/gpu.rs`, `src/archive/paths.rs`: the calls into `wgpu`, `rustc_hash`
  and `std::path`, with what the library relies on about them.
- `app/`: the runtime's `main`, the module loader of the JavaScript
  runtime, the archive I/O, applying a surface configuration and the
  packaging task.
