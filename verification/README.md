# universe

The decision logic of an Active Worlds universe server, verified with Verus.

- `src/` is the library. Each module holds the rules of one kind of request and
  states them in `requires` / `ensures` contracts over mathematical models
  (`Seq`, `int`, views of the records):
  - `login`: login validation (tourists, citizens, acting privileges, password
    hashes);
  - `citizen`, `contact`, `contact_request`, `telegram`, `botgram`, `join`,
    `license`, `eject`, `attrib`, `world`: the other requests, and how database rows
    become records;
  - `config`: the configuration settings and the interactive configurator, a state
    machine that takes one line of input at a time;
  - `uri`, `text`, `db`, `packet`, `client`, `reason`, `timestamp`: shared pieces.
  Public `law_*` proof functions state properties that relate several functions.
- `tests/` runs the library on concrete values.
- `app/` is the program: command line, logging, the configuration file on disk.
