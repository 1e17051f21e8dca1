# msgflo

Participant support for [MsgFlo](https://github.com/msgflo/msgflo), written
in Verus.

- `src/` is the verified library: participant descriptions and their
  builder (`participant`), their normalisation before running (`normalize`),
  and the commands a participant sends to its AMQP channel on startup, for
  each delivered message and on shutdown (`broker`).
- `app/` runs a participant on a broker: command-line options, the broker
  connection, the JSON discovery message, and the execution of the commands.
- `tests/` exercises the library on concrete values.
