# openlumen

Verified core of the OpenLumen node: an Art-Net 4 to DMX512 / WS281x bridge on an
RP2350 with a W5500 Ethernet chip (four DMX ports, four LED outputs).

## Layout

- `src/` — the library, verified with Verus. Every function carries a contract; the
  laws that relate several functions are public proof functions.
  - `artnet/` — ArtDmx, ArtPoll and ArtPollReply packets: parsing and serialization,
    with round-trip lemmas.
  - `artnet_task.rs` — the receiver's decisions: port and source-slot matching,
    sequence-gap accounting, HTP/LTP/priority merging, failsafe, statistics windows,
    the node's ArtPollReply and the LED reply pages.
  - `led_task.rs`, `schema.rs` — LED channel-stream arithmetic, universe routing and
    pixel rendering; the configuration records.
  - `dmx_task.rs`, `dmx_pio.rs`, `dmx_output.rs` — DMX port behaviour per mode, frame
    reception, broadcast addresses, frame staging.
  - `storage/` — settings image with CRC-32, failsafe file format, flash region layout.
  - `net.rs`, `system.rs`, `button_task.rs`, `web_task.rs`, `log.rs` — network stack
    configuration, telemetry, the reset-button state machine, what web messages do to
    the configuration, and the log ring.
- `tests/` — tests of the library on concrete values.
- `app/` — the firmware around the library: hardware setup, PIO programs, the embassy
  tasks, sockets, the file system and JSON.

The configuration's names and source lists are heapless strings and vectors, behind
trusted wrappers; the library's byte buffers are `alloc` collections, for which the
firmware installs a heap allocator.
