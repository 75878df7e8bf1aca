# spherical_wrist

Python bindings for six-axis industrial robots with a spherical wrist: OPW
forward and inverse kinematics, collision checks against triangle meshes,
Jacobians, Cartesian and RRT path planning, and a 3D viewer.

The crate is split in two.

- `src/` is the verified library (Verus). It holds the rules that decide what
  the bindings accept and how they are configured: validation of joint
  values, poses, tolerances and indices; parsing and naming of collision
  check modes; safety distances with their per-pair overrides; kinematic
  model and parallelogram parameters; planner settings; annotated joints and
  their flags; and the wrappers around the mesh, constraint and Jacobian
  types of the engines. Each public function states its result, and when it
  fails, in its `ensures`.
- `app/` is the Python extension itself (pyo3): the classes, the conversions
  between Python floats and the library's values, the calls into
  `rs-opw-kinematics`, `parry3d` and `glam` that compute on floating point,
  and mesh file loading.

Floating-point values cross into `src/` as IEEE 754 bit patterns (`u64` for
binary64, `u32` for binary32). `src/ieee754.rs` gives their meaning: finite,
NaN, zero, sign and the numeric order, so that a rule such as "must be
finite" or "must be positive" is stated and proved exactly.

The tests under `tests/` run the library on concrete values; the scenarios
that the Python documentation gives are among them.
