# wz_capi_c

The decisions behind a zenoh-compatible C interface, in Verus: what every entry
point returns, what it consumes, what it leaves behind, and which calls fall due.

## Layout

- `src/` is the verified library.
  - `handle`, `closure`, `result`: slots that own a state or are gravestones, C
    closures by their addresses, and the status codes.
  - `keyexpr`, `text`, `slice`, `string`, `bytes`, `meta`, `qos`: the values that
    cross the interface.
  - `codec`, `serde`: the two number encodings, and the serializers over them.
  - `put`, `publisher`, `matching`, `sample`, `query`, `querier`, `liveliness`,
    `scout`, `session`, `log`, `platform`: the planes of the interface.
  - `shm`: shared memory, from the free list of a segment up to buffers, layouts
    and caller-supplied allocators.
- `tests/` runs the library on concrete values.
- `app/` is ordinary Rust around it: locks and waits, calls of C functions, the
  clock base, sleeps and the random source.

## Reading a contract

A nullable pointer is an `Option`. A slot that owns nothing is a gravestone, and
consuming a moved slot leaves one behind, so that a second drop finds nothing.

Nothing is called from the library that it does not hold. A call of a C function
that falls due is handed back as a value (`Invocation`, `DropCall`, a retraction, a
chunk to give back). What a session or the key-expression grammar has to answer is
a function parameter, and the contract says what it is asked and what becomes of
each answer. One that acts (declares, sends, opens, scouts) may be called only with
what its caller's `requires` grants, so a request that is refused acts on nothing.

Laws that relate several functions are the public proof functions, named
`lemma_...`.
