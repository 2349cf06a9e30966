# summer-sa-token

The verified core of the summer sa-token and spring utoipa plugins.

- `src/storage.rs`: how sa-token keys are stored under a prefix and read back
  (`apply_storage_prefix`, `strip_storage_prefix`, the `SummerRedisStorage`
  key mapping), with the round-trip law proved.
- `src/config.rs`: the plugin configuration and the default of every field.
- `src/openapi.rs`: the routes the utoipa plugin mounts, and the
  configurations it refuses.
- `src/text.rs`: the two std string calls the library trusts.
- `app/`: the framework side: serde and schema copies of the configuration,
  the Redis `SaStorage` implementation, and the spring-web plugin.
