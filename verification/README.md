# crc_framework

The Climate Risk Commons framework turns climate-hazard distributions into
impact microscores, scenario branches and VaR/CVaR risk metrics.

## Layout

- `src/` is the verified library (Verus). It holds everything the framework
  decides without floating-point arithmetic, each function with a contract:
  - `constants`: the pathway, horizon and risk-factor tables and the lookups
    between identifiers and names, with their round-trip laws;
  - `distribution`, `curve_fitting`: distribution families and kinds and
    their names, tails and interpolations;
  - `spatial`: H3 cells (parsing, validation and normalisation through h3o)
    and lookups of reference data keyed by ordered ranges of cell indices;
  - `risk`: sizing and enumeration of the spanning set of binary factors;
  - `transform`: the choice of the built-in impact transform for a factor;
  - `metrics`: scenario metadata;
  - `text`, `error`: number formatting and parsing, and error messages.
- `app/` holds the floating-point half (distributions, fitting, impact
  transforms, microscores, VaR/CVaR), which calls the library for every
  decision above.
- `tests/` exercises the library on concrete values.
