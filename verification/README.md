# geomanpy

Python bindings for `glam`'s double-precision linear algebra, split in two:

- `src/` — the verified library (Verus): the rules that the Python classes
  follow and that do not depend on floating-point arithmetic. Constructor
  argument binding and pickled-state restore (`arguments`), the exported
  classes, their constructor parameters, dataclass fields and aliases
  (`classes`), Python indexing (`indexing`), numpy shape checks and
  row/column layouts (`arrays`), hash keys that identify `-0.0` with `0.0`
  (`hashing`), Euler rotation orders as integers (`euler`), the obstacle
  bookkeeping of a collider (`shapes`) and plane anchors of a triangle mesh
  (`mesh`). Every public function has a contract, and the laws relating
  them are proof functions.
- `app/` — the CPython extension module (PyO3): the `glam` classes
  (`EulerRot`, `Vec2`, `Vec3`, `Vec4`, `Quat`, `Mat3`, `Mat4`, `Affine3`,
  `RawGeomUtil`), whose arithmetic runs in floating point. They take their
  argument binding, indexing, array shapes, hash keys and alias names from
  the library. The collider and mesh rules have no caller there: the
  collision classes are not part of this module.
- `tests/` — tests of the library on concrete values.
