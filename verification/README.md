# pyr_tank

Verified decision logic of two reinforcement-learning game agents, written in
Verus.

* `src/pyr/`: the arena agent that collects food. Its actions and their
  directions, the game's records, the bounded replay memory, the training
  schedule and the per-tick bookkeeping (`AgentCore`), and the feature slot
  that each piece of food feeds.
* `src/tank/`: the tank agent. Its commands and how network outputs and
  exploration draws map to them, the integer geometry of the arena, the
  reward rule (in tenths of a point) and the dataset of recorded experiences.
* `src/rng.rs`: the two calls into `rand` the agents make, with the
  contracts they are trusted to meet.
* `app/`: what runs around the library: the C interfaces the games load, the
  neural networks (`candle` for the arena agent, `burn` for the tank agent),
  floating-point feature extraction, configuration and dataset files, and the
  tank agent's training program.
* `tests/`: tests of the library on concrete values.
