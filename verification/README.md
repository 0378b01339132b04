# Fire sensor

Firmware for an ESP32 that watches over a big dust collector and its
fire-safety system, with control logic verified by Verus.

It reads a temperature sensor, the relays of the water pressure sensor, the
main power relay, twelve gates and a dust distance sensor. It switches the
machine, publishes every value over MQTT, and posts an alert when the water
pressure goes or comes back.

## Layout

- `src/` decides. Each module takes plain values and returns plain values.
  - `monitor`, `monitor_laws`: from a scan of the sensors to the machine's power
  - `alert`: pressure alerts and their posts
  - `multiplexer`, `layout`: reading the multiplexer channels, and what is on them
  - `temperature`: setting up the DS18B20 on its OneWire bus
  - `wifi`: joining the network and staying on it
  - `boot`, `led`: the boot sequence, safe mode, and blinking lights
  - `topics`, `text`, `clock`: names, numbers as text, and time
- `app/` acts: it owns pins, sockets and clocks, and carries out what `src/`
  tells.
- `extras/build_id.sh` prints the build id that the firmware reports, and writes
  it to a file where asked to.

## Topics

`device_id` is `fire_sensor {MAC address}`. Below
`sync/dust_collector/{device_id}/` there are `temperature`,
`temperature_warning`, `water_pressure`, `dust_level`, `dust_level_warning_1`,
`dust_level_warning_2`, `machine_running`, `powered_on_too_long` and
`gates/N/open`, with gates numbered from 1.

A low distance means much dust. `dust_level_warning_1` is true when it is below
the first dust limit. `dust_level_warning_2` is true when it is below the
second, which also turns the machine off. A warning without a limit gets no
value. The limits are `DUST_LIMITS` in `app/main.rs`, where neither is set.
