# fast_lightonocr

An OCR engine for the LightOnOCR vision-language model, split in two parts.

* `src/` is the verified core, checked with Verus. It holds the rules of the
  pipeline with their contracts: tensor shapes and the tensor contracts of the
  three ONNX models, the key/value cache, the generation state machine and
  greedy token selection, the chat template and the expansion of the image
  placeholder into vision tokens, the vision grid, patch alignment and batch
  padding of images, processor and tokenizer settings, special-token
  resolution, streaming text deltas, ONNX Runtime options and version checks,
  and the profiling figures.
* `app/` is the runtime around it: reading JSON files, creating ONNX Runtime
  sessions and running them, decoding and resizing images, normalizing pixel
  values, sampling with temperature, top-k and top-p, and printing the
  profiling report. These parts work on files, the ONNX Runtime library or
  floating-point numbers.

Tests live in `tests/` and use the library through its public API.
