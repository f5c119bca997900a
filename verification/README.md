# screeps_creep

Creeps of the game Screeps, whose engine runs in JavaScript.

- `src/` is the library, verified with Verus. The methods of `Creep` yield requests: which
  method or property of which object JavaScript is to evaluate, with which arguments. A request
  reads the answer. `MoveToOptions` collects the options of a move, and `MoveToRequest` answers
  the questions for costs that JavaScript asks while a move is carried out. `laws.rs` proves what
  holds of the library as a whole.
- `app/` carries the requests out with `stdweb`, and keeps the cost callback in scoped storage
  meanwhile.
- `tests/` runs the library on given values.

JavaScript's numbers come in as integers, or as "some other number". The weight of the search's
heuristic is carried as the bits of a 64-bit IEEE 754 number.
