# ogc_gx

A verified model of the GX graphics API of libogc (GameCube/Wii).

`src/` is the library, checked by Verus. Each GX function computes the libogc call it stands
for (`GxCall`, `TexObjCall`, `FifoCall`) with its exact arguments, and states that call in its
contract: the libogc code of every hardware enumeration (`modes`), the byte for every boolean,
the argument rules (alignment, even sizes, frame-buffer bounds, texture limits) as
preconditions, and the argument order of the vertex color functions. `laws` relates functions
to one another.

`app/` runs those calls against libogc through `ogc-sys`, and holds what works on libogc's own
objects (FIFO, light and texture objects), on raw pointers or on floating-point values.
