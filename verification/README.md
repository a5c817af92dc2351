# taptime

The verified core of TapTime, a time-tracking system built from an RFID clock
(STM32 firmware with a DS3231 real-time clock and a Wi-Fi module), a gRPC
server and an administration console.

`src/` is the library, checked by Verus. It holds:

- `registers`, `alarm`, `bits`: the DS3231 register layouts and the two alarm
  configurations, with their encoding and decoding (decoding what was encoded
  gives the configuration back);
- `date`, `duration`, `local_time`, `event`, `day_flags`, `day`, `balance`,
  `user`, `store`: work days, the time they require and the balance they leave,
  an in-memory store of days kept in a B-tree map, and (`day_range`) the days
  of a date range built from what is stored of each day;
- `uid`, `rfid`: card identifiers and their hex text;
- `text`, `profile`, `access`, `password`, `token`, `schema`, `records`,
  `accounts`: what the server checks of profiles, bans, passwords, tokens and
  requests;
- `console`: the administration console as a state machine over keys;
- `wifi`, `dialogue`: the AT commands and replies of the Wi-Fi module, and
  its two dialogues (joining the access point, posting a request) as state
  machines that the firmware drives.

`app/` holds what Verus does not see: serde copies of library types, token
encoding, address parsing, conversions from the calendar library's types, the
serial-line driver that performs the dialogues' actions, and the loop of the
administration console over a terminal and the server's administration
service. `tests/` runs the library.

Not here: the gRPC services of the server and their database queries (their
protocol definitions are not part of this tree), the dashboard and the monthly
statistics of the store service (they rest on a vacation flag and a start date
of employment that the calendar of this tree does not have), and the
firmware's hardware set-up.
