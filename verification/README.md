# SoftNpu

SoftNpu is a software network processing unit: an I/O harness and a
management interface for compiled P4 programs. This crate holds its logic,
verified with Verus, and the programs around it.

- `src/` is the verified library:
  - `protocol`, `mgmt`: the management messages and what each request does
    to the P4 pipeline (the shared definitions and the standalone switch's);
  - `switch`: the standalone switch's packet framing and port selection;
  - `admin`: the administration tool's table encodings, the decoders of the
    dumped entries, the dump itself and MAC address text;
  - `dump_text`: the text of each dump line as the tool prints it;
  - `uart`, `p9`: the UART management channel and the 9P program loader of a
    SoftNpu emulated by propolis;
  - `npuzone`, `dendrite`, `artifacts`: provisioning of SoftNpu zones and NPU
    VMs, where artifacts are published, and the download retry policy;
  - `config`, `bytes`, `text`: the configuration file's model and small
    helpers.
- `app/` holds the programs: argument handling, sockets, DLPI, files,
  processes, HTTP, and the serde forms of the library's types.
- `tests/` runs the library on concrete values.
