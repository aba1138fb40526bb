# shiguredo_libvpx

VP8 / VP9 encoding and decoding with libvpx, with the decisions proved
correct by Verus.

- `src/` is the verified library: the information on the codecs offered
  (`codec_info`), the error type (`error`), the encoder settings and the
  parameters that can change while it runs (`config`), the settings handed to
  libvpx and the checks of every change of them (`params`), the codec controls
  that the settings ask for (`controls`), image formats and data (`image`), and
  the encoder (`encoder`) and decoder (`decoder`): what they check, what they
  hand to libvpx, and the order in which their calls may be made.
- `app/` makes the calls into libvpx (`app/sys.rs` declares them) and hands
  their results back to the library; it offers the `Encoder` and `Decoder`
  that encode and decode.
- `tests/` runs the library on concrete values.
