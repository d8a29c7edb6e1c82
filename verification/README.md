# openvehiclediag

Vehicle ECU diagnostics over CAN, ISO-TP (ISO 15765), KWP2000, UDS and OBD-II, with
SAE J2534 pass-thru adapters.

## Layout

- `src/` is the library, verified with Verus: every function states what it returns in
  its contract.
  - `comm_api`, `iface`: CAN frames, ISO-TP payloads, adapter capabilities and errors,
    interface configuration, and the collection of ISO-TP replies.
  - `passthru_msg`, `passthru_api`, `comserver`, `passthru`: J2534 messages (identifier
    encoding, frame and payload conversion), filter messages, device capabilities and the
    devices installed on a machine.
  - `protocols`: negative responses, trouble codes, reply interpretation and the
    diagnostic server's keep-alive decision; `kwp2000`, `uds`, `obd2` and `vin` hold each
    protocol's services and the decoding of its replies.
  - `scan`: the decisions of the CAN network scan that finds diagnostic ECUs.
  - `tracer`: the CAN tracer's table of the latest frame per identifier.
  - `log_view`: the log of a diagnostic session.
  - `hex_input`: hexadecimal values typed by a user.
  - `j2534`: the J2534 status codes and what a driver's status, read count and filter
    request mean.
  - `text`, `bytes`: hexadecimal, decimal and UTF-8 text, and byte copies.
- `tests/` runs the library on concrete values.
- `app/` is the command-line program (`devices`, `load`, `obd`, `kwp`, `scan`, `trace`,
  `vin`, `payload`): device discovery (JSON files in `~/.passthru`),
  loading a vendor's pass-thru library, the adapter interface, the diagnostic session threads, the network scan and tracer
  loops, and the conversion of OBD-II parameters to physical values.

The laws the library keeps (identifier round trips through J2534 messages, read after
write of interface parameters, request and reply service bytes, the tracer table) are
public proof functions next to the code they speak of.
