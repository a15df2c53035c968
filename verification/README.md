# weixin-ilink-sdk

A client library for the Weixin iLink bot API: QR code login, the
`getUpdates` long-poll stream, sending text and media, and CDN upload and
download with AES-128-ECB.

The library in `src/` is written in Verus. Each public function states in its
`requires`/`ensures` what it returns, and Verus proves it. Public proof
functions (`lemma_*`) state laws that span several calls: key parsing and
encryption round trips, the order in which the update stream hands out
messages, how it counts failures, the QR refresh limit, and the MIME
tables. Calls into outside crates (`aes`, `ecb`, `base64`, `hex`, `md-5`,
`rand`, `uuid`, `url`, `urlencoding`, `serde_json`, `qrcode`) go through
small wrappers marked `#[verifier::external_body]`. Each wrapper's contract
is the one trusted claim about that call.

`app/` is the ordinary Rust around the library: HTTP (`reqwest`), the async
stream and login loops (`tokio`), files and the `libsql` store, serde copies
of the wire types, and SILK voice decoding. It asks the library what to do
and performs the I/O.

`tests/` holds the tests; they run the library with the real outside crates.
