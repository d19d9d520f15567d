# n2n

A verified library for configuring and bootstrapping an edge of the n2n
peer-to-peer VPN.

- `src/` is the library, written in Verus:
  - `util`: filling fixed-size C character buffers from bytes and reading the
    C string they hold; the error type.
  - `edge::edge_conf`: the edge configuration builder, the configuration it
    assembles, and what the C library's configuration check answers.
  - `edge::edge`: the edge state the bootstrap works on and the runlevel
    machine that registers the edge with its supernode.
  - `tuntap`: the private tun/tap settings and their defaults.
- `app/` drives the n2n C library through raw pointers: it hands the library
  the state of the C structures and performs the work the library asks for.
  It needs the `n2n_sys` bindings to the n2n C library.
- `tests/` runs the library on concrete values.
