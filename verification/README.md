# stsync_proxy

A streaming proxy that speaks SRT (Secure Reliable Transport): a publishing peer sends an
MPEG-TS stream, requesting peers receive it. This crate holds the protocol logic, verified
with Verus; `app/` holds the sockets, tasks and session plumbing around it.

## Layout

- `src/codec.rs`, `src/serial.rs`: big-endian words and serial number arithmetic.
- `src/srt/`: the SRT packet formats (headers, data and control packets, handshakes and their
  extensions), the StreamID syntax, the per-connection bookkeeping (loss list, in-flight
  acknowledgements, transmission queue, retransmission buffer) and the connection itself as a
  state machine: every event (a packet, a timer tick, a payload of a requested stream) is a
  method that updates the state, queues packets for the peer and returns what the caller has
  to do next.
- `src/srt/server.rs`: where an incoming packet goes, and the answer to a caller's first
  handshake.
- `src/srt/sink.rs`: reassembly of a published stream by message number and delivery time.
- `src/arena.rs`: the bookkeeping of an arena of network buffers.
- `app/`: the UDP socket, the worker and connection tasks, configuration and sessions.

## StreamID

A peer names what it wants with the StreamID syntax `#!::key1=value1,key2=value2`. The keys
`r` (hex resource id), `s` (session id) and `m` (`request` or `publish`) are understood and
required. A conclusion handshake without a StreamID, with one that does not parse, or with one
that lacks a required key or names another mode is answered with a `REJ_ROGUE` rejection.

## Statistics

Each connection counts the packets and bytes it sends and receives, by kind (control or
data), and the data packets it gives up as lost; the acknowledgements it sends report the
receiving rates from these counts.
