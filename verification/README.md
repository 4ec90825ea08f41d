# rust9x_sys

The verified core of the rust9x Windows system layer (Windows 95/NT and
later), written in Verus.

- `src/` holds the decisions, each with its contract: NT status, counted
  string and file-pointer helpers (`c`), the keyed-event thread parker's
  decisions and timeout conversion (`windowsxp`), the event-based condition
  variable fallback, its wait timeouts and a model of its critical section's
  lifecycle (`condvar`), once-published words such as lazily created handles
  (`lazy`), the emulated file information calls (`fileextd`), the chunking of
  random fills (`random`), the cached choice of thread parker
  (`thread_parking`) and the rust9x target descriptions (`targets`,
  `target_spec`). Proof functions named `lemma_*` state the laws that hold
  across calls.
- The parker, slot and critical-section types in `src/` model their words
  step by step, which is what the laws speak of. `app/` performs the same
  steps on real atomics through the free decision functions of `src/`, and
  checks each critical-section call against the lifecycle model before making
  it.
- `app/` holds the Windows calls, atomics and handles around those decisions.
- `tests/` runs the library on concrete values.
