# buildingblocks

Building blocks for an EnOcean heater controller on an Arduino Due (ATSAM3X8E) and for the host
tools around it, written in Verus with their behaviour stated in contracts and proved.

Layout of `src/`:

- `bit_field`, `dynamic_bit_field`, `max_array`, `max_array_ext`, `ring_buffer`, `crc8`, `bits`:
  containers and checksums.
- `esp3`: the EnOcean Serial Protocol 3 — packet framing and decoding, commands, events,
  responses, radio telegrams, and taking frames out of a serial receive buffer.
- `registers`: typed readers and writers of a selection of ATSAM3X8E peripheral registers.
- `clock`: the master clock speed and the clock dividers derived from it.
- `display`: commands for the SSD1351 OLED controller and the transfers that draw text.
- `i2c_display`: what is sent to character LCDs behind a PCF8574 port expander.
- `dcf77`, `dcf77_transmitter`: DCF77 time telegrams and the decisions of a transmitter.
- `hex`, `numbers`, `wide_strings`, `pixels`, `channel`, `name_filters`: text, number, image and
  name handling of the host tools.

`app/` holds the command-line decoder of ESP3 packet dumps.
