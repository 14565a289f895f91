# pdf

A verified library for reading PDF files, written in Verus.

It covers the parts of a PDF reader that work on bytes and integers:

- `xref`: locating the `startxref` keyword, reading cross-reference tables
  and the decoded entries of cross-reference streams, merging sections, and
  locating objects by number (`simple_xref` reads the older table layout).
- `object_stream`: the header of an object stream, which maps object
  numbers to offsets.
- `postscript`: Type 1 font programs: eexec and charstring decryption,
  charstring decoding, the charstring table of a font, encodings, PostScript
  strings, the indexed containers that hold composite objects, the
  tokenizer's buffer, the interpreter's operators and its system dictionary.
- `parse_binary`: big-endian integers from binary formats.
- `resources`, `shading`, `structure`, `optional_content`, `viewer_preferences`,
  `page`, `xobject`, `render`: the named and numbered values of PDF
  dictionaries, pixel colours, and the triangle indices of outlines.

The readers of files, tables, streams and charstrings report malformed
input as an error; each function's contract says
exactly on which inputs it succeeds and which error it gives otherwise.

Every function states its result in `requires`/`ensures` over spec functions
on `Seq<u8>`, `Map` and integers, and Verus proves the code against them. The
laws that relate several operations are public proof functions beside the
code they speak of (`lemma_merge_keeps_newer`, `lemma_get_offset_enough_fuel`,
`lemma_xref_stream_shape`, `lemma_find_start_xref_is_last`,
`lemma_get_after_insert`, `lemma_read_after_write`,
`lemma_lookup_after_insert`, `lemma_decrypt_prefix`, `lemma_decrypt_concat`,
`lemma_bytes_order_equal`,
`lemma_parse_integer_leading_zero`, `lemma_skip_ws_idempotent`,
`lemma_fan_indices_in_range`).

`app/main.rs` is a small command-line program that prints the
cross-reference table of a file.
