# euclidolap

The multidimensional model behind the EuclidOLAP query engine, written in Verus
and verified.

- `src/gid.rs`: global identifiers and the kind of entity each one names.
- `src/mdd.rs`: cubes, dimension roles, levels, members, level and member roles.
- `src/tuple.rs`: tuples (coordinates) and how one tuple overrides another.
- `src/axis.rs`: sets of tuples, query axes, and the coordinates that the axes
  of a query span.
- `src/compare.rs`: MDX comparison operators and the order of texts.
- `src/meta.rs`: entities as the metadata service sends them, and their
  conversion into the model.
- `src/locate.rs`: the decisions taken while locating an entity along an MDX
  object path.
- `src/permission.rs`, `src/service.rs`: access rights and the query service.
- `app/`: cell values with floating-point numbers, their arithmetic, and the
  shape of query results.
- `tests/`: tests of the library on concrete values.
