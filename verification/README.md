# wcore-config

The configuration layer of the Genesis engine, with its rules verified by Verus.

- `src/` is the verified library: the configuration types and their defaults, the merge of
  global and project files, profiles, provider and key resolution, provider compatibility
  presets, schema clean-up, hooks, credential stores and the encrypted vault, credential
  references, profile homes, and the `.env` file. Every public function states what it
  returns; functions named `law_...` state what holds across several of them.
- `app/` is ordinary Rust around the library: files, environment, OS keyring, prompts, child
  processes and the serde forms of the types.
- `tests/` runs the library on concrete values.

Facts that only the machine knows (environment variables, directory listings, replies of the
keyring, the contents of files) reach the library as plain arguments. Paths are strings with
`/` between components. Costs are held by the bits of their floating-point form.
