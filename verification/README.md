# squirrel_rs

A small inference engine for Llama 3.2 models stored in GGUF files.

- `src/` is the verified library:
  - `file_parser`: the GGUF container (header, metadata values, tensor
    descriptors, alignment of the tensor data), read from bytes, with each
    reader specified against a functional model of the format;
  - `kernels`: tensor bookkeeping (shapes, strides, byte ranges), the
    integer parts of the quantized kernels, and the shape planners of matrix
    products and attention (grouped-query heads, causal mask, row bounds);
  - `ops`: the shape and bounds checks of the tensor-level operations;
  - `models`: the key/value cache, the scratch workspace, the Llama
    configuration read from metadata and the lookup of its weights;
  - `samplers`: greedy sampling;
  - `text_generator`: the decision taken after each sampled token;
  - `perplexity`: how a corpus is cut into evaluation windows.
- `app/` is the command-line program: memory mapping, the tokenizer, the
  floating-point kernels, the forward pass and the generation and
  perplexity loops.
- `tests/` runs the library on concrete inputs.

Integer overflow: where a computation would overflow, the input is left
out by a `requires` (and the application tests for it first and panics, as
a build with overflow checks does). The one exception is the element count
and byte size of a tensor, computed from the file while it is parsed: no
caller can rule the overflow out before parsing, so these wrap.
