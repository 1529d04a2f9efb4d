# procenv_macro

The analysis behind `#[derive(EnvConfig)]`, verified with Verus.

`EnvConfig` generates loaders that read a configuration struct from
environment variables, `.env` files, configuration files and command-line
arguments, accumulating every error instead of stopping at the first.

## Layout

- `src/` — the verified library.
  - `parse.rs`: the `#[env(...)]`, `#[profile(...)]` and `#[env_config(...)]`
    attributes, read from a plain model of their items; every error the
    derive reports, with where it points.
  - `field.rs`: classification of a field (required, default, optional,
    flattened, `SecretString`, `SecretBox<T>`), the variable it reads, and its
    `.env.example` entry.
  - `loader.rs`: what each field's loader does — where it reads, how the
    text becomes the value, what a missing or non-UTF-8 variable gives, and
    whether the value is masked in parse errors.
  - `expand/`: the derive as a whole (`Expander::expand`) and the plan of each
    generated method — `from_env()`, `from_env_with_sources()`, `from_args()`,
    `from_config()`, `__from_json_value()`, `__config_defaults()`,
    `__from_env_with_external_prefix()`, the validating loaders, the masking
    `Debug`, `env_example()` and the runtime key access.
  - `text.rs`: string helpers with exact specifications.
- `tests/` — tests of the library on concrete inputs.
- `app/` — the derive around the library: reads the input with `syn`, hands
  it to the library, renders the plans with `quote`, and turns the library's
  errors into spanned `syn` errors.

Every public function states its result exactly over spec functions; the
laws of the derive (duplicate options refused, `flatten` reporting every
conflict, prefixes composed for nested structs, the rule for a missing
variable, CLI over environment over defaults, environment over the last
listed file over defaults in `from_config()`, secrets masked, every field
loaded, every variable documented in `.env.example`) are proof functions
next to the code they speak of.
