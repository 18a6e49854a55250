# soroban-scan-core

Deterministic security analysis for Stellar Soroban smart contracts, written
in Verus: the scanning logic carries `requires`/`ensures` contracts that Verus
proves.

Layout:

- `src/` — the verified library. Manifests (`manifest`), project discovery
  decisions (`discovery`), source inventories (`source`, `syntax`, `lexdepth`),
  Soroban classification (`soroban`), the rule framework (`rule`, `registry`,
  `rules/`), the scan pipeline (`engine`), baselines (`baseline`), reports
  (`report`, and the JSON and SARIF documents in `json`, `report_json`,
  `sarif`) and offline guidance (`ai`). Calls into `syn`, `toml`, `globset`,
  `sha2`, `hex` and `serde_json` stand behind small trusted wrappers whose contracts are
  documented where they are declared.
- `tests/` — tests of the library on concrete values.
- `app/` — the command-line binary, file-system loading (walkdir) and the
  serde forms of configuration files and baselines.
