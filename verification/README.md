# beatsmr

A Godot extension for procedural plants and a beam-traced parcel renderer,
split in two:

- `src/` is the verified library (Verus). It holds the logic that does not
  depend on floating-point values or on the running engine:
  - `lsystem`: the L-system alphabet, the seed word and its expansion under
    the rule `F -> seed`, with laws on rewriting (composition, staged
    expansion, symbol counts, terminals);
  - `segment`: the structure-of-arrays store of plant segments;
  - `input_state`: how an input event updates the player's input state;
  - `render_target`: work-group counts, preview visibility, the project
    viewport size check and the size-sync decisions of the parcel renderer;
  - `splat_viewer`: the warn-once decisions of the splat viewer;
  - `bindless`: buffer sizing and read-back counting of the background dots;
  - `parcel_test_common`: limits of the shader test cases and the tally of a
    test run.
- `app/` is the extension itself: Godot classes, GPU calls, physics queries
  and all floating-point geometry, calling into the library.
- `tests/` exercises the library on concrete values.
