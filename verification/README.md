# rspack_parser_plugins

The hook machinery of a JavaScript module parser and the parser plugins that fill it,
written in Verus with their contracts proved.

- `src/hook.rs`: plain hooks, bail hooks and string-keyed hook maps; the order in which taps
  run and when a bail hook stops are stated over `sync_run` and `bail_run`.
- `src/drive.rs`: the parser's hooks and the calls the parser makes on them; every call is
  proved not to fail.
- `src/plugin.rs`: the plugins as they are registered, and what each answers on each hook.
- `src/define_plugin.rs`: the define plugin, with its definition tables, recursion guards and
  the proof that it registers once per defined name.
- the other `src/*_plugin.rs` files: one plugin each.
- `src/parser_state.rs`, `src/args.rs`: what the plugins read and change, and what each hook
  hands to its taps.
- `src/table.rs`: the string-keyed table behind the hook maps and the definitions, indexed by
  `rustc_hash`'s map.
- `app/lib.rs`: the generic hook map, the interceptor traits and the JSON view of the build
  extras, which stay outside the verified library.
