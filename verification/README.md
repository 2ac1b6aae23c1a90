# neuroplasticity

A harness that runs an AI agent in a container sandbox, grades what it
leaves behind with weighted evaluators, and asks a meta-optimiser model for
new rules until the agent passes.

- `src/` is the verified library: manifest defaults, run
  fingerprints, shell quoting, evaluator decisions, the agent's container
  arguments, engine selection, provider routing, the epoch and waterfall
  control loops, the rules file and the improvement patch. Laws are public
  proof functions next to the functions they speak of.
- `app/` is the command-line program around it: file and process I/O,
  HTTP, concurrency, and the floating-point scoring of evaluators.
- `tests/` exercises the library on concrete values.
