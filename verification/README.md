# micro

A small gRPC service that stores "micros" (id, name, view count, type, update
and creation times) in MySQL and keeps a redis cache in front of them.

- `src/` is the verified library (Verus):
  - `text`: decimal and boolean text, with proofs that the decimal text is injective;
  - `keys`: the cache keys `micro_{id}` and `micros_typ_{typ}_{page}_{desc}`, and
    proofs that different micros and different page queries never share a key;
  - `config`: database and cache settings and their connection URLs;
  - `error`: the service's errors, their text, and the gRPC status that answers each;
  - `datetime`: the clock, the local offset, and date formatting (chrono): each
    date text is what chrono writes for its own instant at some offset of less
    than a day (which offset is not stated);
  - `cache`: the redis client built from the cache settings;
  - `application`, `proto`: the stored micro, the request to create one, and the
    messages the service sends;
  - `store`: reading one micro (cache first, then the database, writing back),
    creating one (in a transaction, then caching it), and reading a page of a type
    (from the cached index when complete, else from a scan that rebuilds the
    cache), each as a state machine from events to actions; with proofs that the
    order flag of a page read only names its cache key, and, for a cache that
    gives back what was written, that a find after a create or after a miss
    answers the same micro and that a page read again is served from the cache;
  - `service`: how requests are read and how results are answered.
- `app/` is the program: configuration, connections, the gRPC server with its
  reflection service, and the loops that perform the store's actions against
  MySQL and redis.
- `tests/` runs the library on concrete values.
