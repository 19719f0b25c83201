# nodem_wasm

The web front-end of the nodem one-bit UI engine, split in two:

- `src/` is the verified library (Verus): the byte buffers that the
  front-end keeps between calls (`buffers`), the one-bit frame buffer and its
  conversion into RGBA canvas pixels (`framebuffer`), the command dispatch and
  reply rules (`command`), UTF-8 text and the framed text picture of the frame
  buffer (`text`), the defaults for left-out arguments (`options`), and the
  `bytes::BytesMut` buffer seen as a sequence of bytes (`buffer`).
- `app/` holds the wasm-bindgen exports that the page calls. They keep the
  global state, call the nodem engine and the virtual machine, and hand the
  library plain values.
