# ruffle_native

The AVM2 native-method glue of a Flash Player runtime, with its contracts
proved by Verus.

- `src/value.rs`, `src/error.rs`: AVM2 values (a Number is held by its
  IEEE-754 bits) and the ActionScript errors raised by argument checks.
- `src/parameters.rs`: reading method parameters (`ParametersExt`) and the
  conversions between AVM2 values and typed Rust values (`NativeArg`,
  `NativeReturn`), with their round-trip laws.
- `src/context3d/`: `flash.display3D.Context3D` — the string enumerations,
  the argument checks of its native methods, the backend commands they
  produce, and the object that lends its rendering context.
- `src/macros/`: the decisions of the procedural macros (`#[native_methods]`,
  `#[enum_trait_object]`, `#[derive(HasPrefixField)]`, `atom!`/`istr!`) over
  plain descriptions of the syntax they read.
- `src/desktop/`: routing the files and URLs the operating system asks the
  desktop player to open.
- `app/`: the token-level macro expansions (`syn`, `quote`), the
  floating-point conversions, and the macOS delegate plumbing (`objc2`).
