# localforge

A terminal tool that takes a machine from nothing to a working local LLM
stack: hardware detection, backend choice, a tuned llama.cpp build, model
recommendations and downloads, a chat workspace and an OpenAI-compatible
API server.

- `src/` is the verified library: backend selection and CMake flags, the
  parsing of what `nvidia-smi`, `lspci`, `nvcc` and sysfs print, model fit
  scoring and recommendations, KV-cache sizing and slot advice, download
  resume decisions, the reading of the inference engines' chat answers and
  their readiness checks, where the configuration, state, logs and model
  files live, API authentication and responses, the per-key rate limiter,
  the build pipeline's state machine, and the setup wizard's navigation.
  Each function carries its contract; the laws that span several
  functions are proof functions beside them.
- `app/` is the program around it: command line, terminal drawing, process
  and network I/O, persistence, and the HTTP server.
- `tests/` exercises the library on concrete values.
