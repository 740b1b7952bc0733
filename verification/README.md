# cgminer-gpu-btc-core

A GPU Bitcoin mining core: platform detection, a simulated OpenCL backend,
GPU inventory management, mining devices and the mining core that drives
them, and SHA256d hashing of block headers. Every function of the library
under `src/` carries a contract that Verus proves, except three small
wrappers whose contracts are assumed: `hashing::sha256` (calls
`sha2::Sha256::digest`), `gpu_manager::random_below` (calls `fastrand::u32`)
and `types::system_now` (calls `std::time::SystemTime::now`).

- `src/` — the verified library (one module per component; `hashing` calls
  the `sha2` crate, `gpu_manager` draws simulated readings from `fastrand`).
- `tests/` — tests run against the compiled library.
- `app/` — the runtime around it: tokio mining loops, the floating-point
  random draws of the simulated GPUs, JSON and serde conversions, error
  types with display messages, and the C entry points for dynamic loading.
