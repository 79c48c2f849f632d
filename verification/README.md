# ext4-lwext4, verified core

A binding to the lwext4 ext2/3/4 library whose decisions are proved with Verus.

- `src/` — the verified library: raw lwext4 constants and plain structures
  (`sys`), common types and their lwext4 encodings (`types`), errors and
  return-code interpretation (`error`), `mkfs` options and parameters
  (`mkfs`), device and mount-point names and full paths (`names`),
  byte-to-text conversions (`text`), extended-attribute name lists
  (`xattr`), the lwext4 calls an operation asks for (`calls`), the mounted
  filesystem and its single-call operations (`fs`), mounting and unmounting
  (`mount`), and the multi-call operations (`ops`).
- `app/` — the C interface and the driver that makes each lwext4 call the
  library asks for and hands the results back.
- `tests/` — tests of the library on concrete values.
