# ipfix_parser

A zero-copy, sans-io decoder for IPFIX (RFC 7011) messages, written in Verus.
Every decoding step is specified over byte sequences and the executable code
is proved against those specifications.

Layout:

- `src/util.rs`: big-endian reads and slice splitting.
- `src/header.rs`: the message header.
- `src/set.rs`: set headers and the set iterator.
- `src/template.rs`: field specifiers, template and options template records,
  and the template set iterator.
- `src/record.rs`: data records, their extent (with a compressed fast path
  proved equal to the general walk) and the field iterator.
- `src/field.rs`: typed access to field values.
- `src/decode.rs`: decode plans that copy chosen fields of a record into a
  flat buffer in native byte order; the coalesced plan is proved to perform
  exactly the byte writes of the field-by-field plan, and each mapped field
  is proved to land at its destination offset.
- `src/store.rs`: template views and a bounded, multi-session LRU template
  store over `schnellru::LruMap`, with read-after-write and removal laws.
- `src/ie.rs`, `src/ie/id.rs`: the IANA Information Element registry.
- `app/lib.rs`: `Display` and `std::error::Error` for the decoder's error.
