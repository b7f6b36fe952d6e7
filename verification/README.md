# LoRa hub

A hub for an ESP32-S3 board with an SX1262 radio, in two modes: a bridge between
LoRa and an MQTT broker, and a single-channel LoRaWAN gateway that speaks the
packet forwarder protocol.

## Layout

- `src/` is the library. It holds what the hub decides, verified with Verus:
  the wire codecs, the configuration rules, airtime and duty cycle, the radio's
  command sequences, the bridge, the forwarder, the portal, and a decision
  function for each firmware task. Each function states in its contract what it
  returns; public proof functions state what holds of several of them together.
- `tests/` runs the library.
- `app/` is ordinary Rust around it: the firmware tasks on embassy, the
  configurator, and the checks of a hub on the bench.

## Modes

In bridge mode, received packets appear on `wt/hub/<id>/rx`; what is published
to `wt/hub/<id>/tx` is transmitted within the EU duty cycle, and its result
appears on `wt/hub/<id>/tx/result`. `wt/hub/<id>/status` is retained.

In gateway mode, uplinks on the configured channel go to the network server, and
its downlinks are transmitted on their target time, again within the duty cycle
of their sub-band.

A hub without WiFi credentials opens a hotspot with a configuration page at
`http://192.168.4.1`. Settings can also be sent over the USB data port. They are
kept in flash and apply on the next boot.
