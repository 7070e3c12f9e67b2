# shop_backend

The back end of a furniture shop: products and their 3D models, product
photos converted to AVIF, user accounts with roles, and sign-in with tokens.

- `src/` is the library, written in Verus: every function carries a contract
  that Verus proves. It holds the decisions of the service: numbering of
  catalogue entries, grouping of image files by variant and resolution,
  reading images of many formats into pixel buffers, filling a model from
  uploaded files, registration and password checks, roles and permissions.
  Calls into outside crates (bcrypt, HMAC, regex, the image decoders and the
  decompressors) go through a few trusted items whose contracts say what each
  call gives.
- `tests/` runs the library on concrete values.
- `app/` is the HTTPS server around it: routing, database queries, files,
  the network, token signing, and the floating-point image work.
