# survivalist-mod

The Survivalist faction-world mod: AI camps that trade, steal, rob,
scavenge, plot murders and wage war on each other; bounties and
threat-clearing contracts paid by real couriers; an off-map dread loop
that sends strangers, settlers, raiders, soldiers and hordes across the
edge; growth of people and of fenced annexes; and a storyteller that
paces it all.

## Layout

- `src/` is the library, verified with Verus. It holds every decision the
  mod makes, over plain snapshots of the game: the state machines of the
  contracts and missions, the choice of camps, targets and carriers, the
  annex geometry, the dread loop's payoffs, the rolls, and the lines of
  the chronicle. Each public function states its result exactly; the
  `law_*` proof functions state what holds across calls.
- `app/` is the runtime around it: the game hooks, the reads of the
  running game into the library's snapshots, the game calls that carry
  the decisions out, the float clock, the trait genomes and the save
  sidecars.
- `tests/` runs the library on concrete values.
