# override_cache

A read cache in which chosen objects are overridden, verified with Verus.

`OverrideCache` stands over another cache, the fallback. A read of an object that
is overridden is answered from the override; any other read is passed on. The
clock object is overridden whatever is chosen, by one that shows the time of the
system clock, except while that clock stands before the epoch.
Objects, references and errors are plain values. The hash that gives an object its
digest belongs to the store: it is handed in with the fallback, as a function.

The fallback is any `ObjectCacheRead`. Its methods are specified by pairs of
functions, `.._pre` and `.._post`: which arguments a call may have, and which
results it may give. `OverrideCache` is an `ObjectCacheRead` itself, so caches can
be stacked.

`progress` holds the format of a log of lines: what an entry adds to the file, and
what the file is read back as.

| module | holds |
| --- | --- |
| `base_types`, `object`, `transaction`, `error` | the values |
| `object_map` | a map from object ids |
| `clock` | the clock object |
| `storage` | the traits through which objects are read |
| `override_cache` | the cache |
| `laws` | what holds of the cache as a whole |
| `progress` | the progress log, and what holds of it |

`app/` holds the file and the task behind the progress log, and what waits on
futures.
