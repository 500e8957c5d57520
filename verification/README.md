# intel_tex_2 (verified front end)

Block-compression front end for the ISPC texture compressor.

- `src/` is verified with Verus: output sizing on the 4x4 block grid (`blocks`), the
  per-format sizes and argument checks (`bc1`, `bc5`, `bc7`), the BC7 encoder presets and
  their conversion to the kernel's settings record, and the kernels' argument records
  (`ispc::kernel`).
- `app/` holds the entry points that run the ISPC kernels (`compress_blocks`,
  `compress_blocks_into`): they ask the library whether a surface may be handed over,
  then call the kernels through their C ABI.
- `tests/` exercises the library on concrete values.
