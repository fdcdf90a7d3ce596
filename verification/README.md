# cryptofault

Legacy crypto weakness detector for OT/ICS environments. It reads packet
captures and X.509 certificates and reports TLS 1.0/1.1 ClientHello
handshakes, RSA keys under 2048 bits, MD5 and SHA-1 certificate signatures,
expired or expiring certificates, and plaintext sessions on well-known OT/ICS
ports.

## Layout

- `src/` — the library, verified with Verus:
  - `schema.rs` — findings, sources, summary counters and the report;
  - `text.rs` — decimal and hexadecimal formatting;
  - `detectors/tls.rs`, `detectors/plaintext.rs`, `detectors/cert.rs` — the
    three detectors and the findings they build;
  - `scanner/pcap.rs` — what is decided for each captured Ethernet frame;
  - `pem.rs` — PEM unwrapping and base64 decoding of certificate files;
  - `output.rs` — output format selection and the text report.
- `app/` — the command line program: argument parsing, file and capture
  reading, JSON serialization and printing.
- `tests/` — tests of the library.

## Usage

```sh
cryptofault scan --pcap capture.pcap
cryptofault scan --cert server.pem
cryptofault scan --pcap capture.pcap --format json
```

The program exits with status 1 when the report holds a HIGH finding.
